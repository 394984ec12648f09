//! The engine's lifecycle and the session run loop.
//!
//! The run loop is a state machine. `Session::poll` decides what one poll
//! does: it hands out the oldest waiting event, or it asks for one advance of
//! the engine. The caller advances the engine and reports the engine's
//! answer to `Session::run_result`.

use crate::errors::{AriaError, Result};
use crate::events::{DownloadEvent, Mailbox, Message};
use crate::ffi;
use crate::ffi::{SessionHandle, RUN_MODE};
use core::marker::PhantomData;
use std::collections::VecDeque;
use vstd::prelude::*;

verus! {

/// Where the run loop stands, by the engine's last answer.
#[derive(Copy, Clone, Debug, PartialEq, Eq, Structural)]
pub enum RunState {
    /// The engine was not advanced yet.
    Idle,
    /// The engine made progress and more remains.
    Running,
    /// No download is active or waiting.
    Done,
    /// The engine failed with this code.
    Failed(i32),
}

/// What one poll reports.
#[derive(Copy, Clone, Debug, PartialEq, Eq, Structural)]
pub enum RunResult {
    /// The oldest event that was waiting.
    Event(DownloadEvent),
    /// The engine made progress and more remains.
    Continue,
    /// No download is active or waiting.
    Done,
}

/// What one poll decides, as a plain value.
#[derive(Copy, Clone, Debug, PartialEq, Eq, Structural)]
pub enum Step {
    /// Hand out this event; the engine is not advanced.
    Event(DownloadEvent),
    /// No event waits: advance the engine, in this mode.
    Advance(RUN_MODE),
}

/// The events that a run of messages stands for, in the same order.
pub open spec fn events_of(messages: Seq<Message>) -> Seq<DownloadEvent> {
    messages.map_values(|m: Message| DownloadEvent::spec_from_native(m.event, m.gid))
}

/// The mode in which a poll advances the engine.
pub open spec fn spec_run_mode(mode_once: bool) -> RUN_MODE {
    if mode_once {
        RUN_MODE::RUN_ONCE
    } else {
        RUN_MODE::RUN_DEFAULT
    }
}

/// A session as a plain value: the engine's handle, the events not yet
/// handed out, oldest first, and the state of the run loop.
pub struct SessionView {
    pub handle: SessionHandle,
    pub queue: Seq<DownloadEvent>,
    pub state: RunState,
}

impl SessionView {
    /// Everything that waits when a poll begins: the queue, then what the
    /// mailbox holds.
    pub open spec fn pending(self, buffered: Seq<Message>) -> Seq<DownloadEvent> {
        self.queue + events_of(buffered)
    }

    /// What a poll decides when the mailbox holds `buffered`.
    pub open spec fn poll_step(self, buffered: Seq<Message>, mode_once: bool) -> Step {
        if self.pending(buffered).len() > 0 {
            Step::Event(self.pending(buffered)[0])
        } else {
            Step::Advance(spec_run_mode(mode_once))
        }
    }

    /// The session after a poll that found `buffered` in the mailbox: all of
    /// it is in the queue, and the oldest event has left.
    pub open spec fn after_poll(self, buffered: Seq<Message>) -> SessionView {
        if self.pending(buffered).len() > 0 {
            SessionView { queue: self.pending(buffered).skip(1), ..self }
        } else {
            SessionView { queue: Seq::empty(), ..self }
        }
    }

    /// The session after `polls` polls in a row, the first of which found
    /// `buffered` in the mailbox and the others nothing.
    pub open spec fn after_polls(self, buffered: Seq<Message>, polls: nat) -> SessionView
        decreases polls,
    {
        if polls == 0 {
            self
        } else if polls == 1 {
            self.after_poll(buffered)
        } else {
            self.after_polls(buffered, (polls - 1) as nat).after_poll(Seq::empty())
        }
    }

    /// What the mailbox holds before poll number `polls + 1` of such a row.
    pub open spec fn mailbox_before(buffered: Seq<Message>, polls: nat) -> Seq<Message> {
        if polls == 0 {
            buffered
        } else {
            Seq::empty()
        }
    }

    /// The state that the engine's answer to an advance leads to.
    pub open spec fn after_run(self, status: i32) -> SessionView {
        SessionView { state: spec_state_of(status), ..self }
    }
}

/// What the engine's answer `status` to an advance is reported as.
pub open spec fn spec_run_result(status: i32) -> Result<RunResult> {
    if status == 0 {
        Ok(RunResult::Done)
    } else if status == 1 {
        Ok(RunResult::Continue)
    } else {
        Err(AriaError::RunError(status))
    }
}

/// The state that the engine's answer `status` stands for.
pub open spec fn spec_state_of(status: i32) -> RunState {
    if status == 0 {
        RunState::Done
    } else if status == 1 {
        RunState::Running
    } else {
        RunState::Failed(status)
    }
}

/// A token for the time between two polls: the only source of download
/// handles. It borrows the session, so that no poll and no command can begin
/// while the token, or a handle made from it, is alive.
pub struct PollContext<'a> {
    handle: SessionHandle,
    _phantom: PhantomData<&'a ()>,
}

impl<'a> PollContext<'a> {
    fn new(handle: SessionHandle) -> (ctx: PollContext<'a>)
        ensures
            ctx.session() == handle,
    {
        PollContext { handle, _phantom: PhantomData }
    }

    /// The handle of the session that the token was made for.
    pub closed spec fn session(&self) -> SessionHandle {
        self.handle
    }

    /// The handle of the session that the token was made for.
    pub fn session_handle(&self) -> (handle: SessionHandle)
        ensures
            handle == self.session(),
    {
        self.handle
    }
}

/// One running engine instance with its queue of events.
pub struct Session<'ctx> {
    handle: SessionHandle,
    event_queue: VecDeque<DownloadEvent>,
    state: RunState,
    _ctx: PhantomData<&'ctx ()>,
}

impl<'ctx> View for Session<'ctx> {
    type V = SessionView;

    closed spec fn view(&self) -> SessionView {
        SessionView { handle: self.handle, queue: self.event_queue@, state: self.state }
    }
}

impl<'ctx> Session<'ctx> {
    /// The engine's handle of the session.
    pub fn handle(&self) -> (handle: SessionHandle)
        ensures
            handle == self@.handle,
    {
        self.handle
    }

    /// Where the run loop stands.
    pub fn state(&self) -> (state: RunState)
        ensures
            state == self@.state,
    {
        self.state
    }

    /// The token for the time until the next poll.
    pub fn context(&self) -> (ctx: PollContext<'_>)
        ensures
            ctx.session() == self@.handle,
    {
        PollContext::new(self.handle)
    }

    /// Whether no event waits in the queue.
    pub fn is_event_queue_empty(&self) -> (empty: bool)
        ensures
            empty == (self@.queue.len() == 0),
    {
        self.event_queue.len() == 0
    }

    /// Puts the event that a message stands for behind those that wait.
    pub fn handle_event(&mut self, event: Message)
        ensures
            final(self)@ == (SessionView {
                queue: old(self)@.queue.push(
                    DownloadEvent::spec_from_native(event.event, event.gid),
                ),
                ..old(self)@
            }),
    {
        let event = DownloadEvent::from((event.event, event.gid));
        self.event_queue.push_back(event);
    }

    /// One poll of the run loop. It first takes everything out of the
    /// mailbox, in order, into the queue. If an event waits then, the oldest
    /// one is handed out and the engine is not advanced; only with nothing
    /// waiting does the poll ask for an advance of the engine.
    pub fn poll(&mut self, mailbox: &mut Mailbox, mode_once: bool) -> (step: Step)
        ensures
            step == old(self)@.poll_step(old(mailbox)@.buffered, mode_once),
            final(self)@ == old(self)@.after_poll(old(mailbox)@.buffered),
            final(mailbox)@.buffered.len() == 0,
            final(mailbox)@.open == old(mailbox)@.open,
    {
        let ghost arrived = mailbox@.buffered;
        let ghost taken: int = 0;
        let mut next = mailbox.try_recv();
        while next.is_some()
            invariant
                0 <= taken <= arrived.len(),
                mailbox@.open == old(mailbox)@.open,
                self@.handle == old(self)@.handle,
                self@.state == old(self)@.state,
                self@.queue == old(self)@.queue + events_of(arrived.take(taken)),
                next is Some ==> taken < arrived.len() && next.unwrap() == arrived[taken]
                    && mailbox@.buffered == arrived.skip(taken + 1),
                next is None ==> taken == arrived.len() && mailbox@.buffered.len() == 0,
            decreases arrived.len() - taken,
        {
            self.handle_event(next.unwrap());
            proof {
                taken = taken + 1;
            }
            next = mailbox.try_recv();
        }
        if self.event_queue.len() > 0 {
            let event = self.event_queue.pop_front();
            proof {
                let pending = old(self)@.pending(arrived);
                assert(self.event_queue@ =~= pending.skip(1));
            }
            return Step::Event(event.unwrap());
        }
        proof {
            assert(self.event_queue@ =~= Seq::<DownloadEvent>::empty());
        }
        if mode_once {
            Step::Advance(RUN_MODE::RUN_ONCE)
        } else {
            Step::Advance(RUN_MODE::RUN_DEFAULT)
        }
    }

    /// Takes the engine's answer to the advance that a poll asked for: `1`
    /// is progress with more to do, `0` is done, a negative number is the
    /// engine's error code, which is passed on as it is. The engine gives no
    /// other answer.
    pub fn run_result(&mut self, status: i32) -> (result: Result<RunResult>)
        requires
            status <= 1,
        ensures
            final(self)@ == old(self)@.after_run(status),
            result == spec_run_result(status),
            status == 1 ==> result == Ok::<RunResult, AriaError>(RunResult::Continue),
            status == 0 ==> result == Ok::<RunResult, AriaError>(RunResult::Done),
            status < 0 ==> result == Err::<RunResult, AriaError>(AriaError::RunError(status)),
    {
        if status == 1 {
            self.state = RunState::Running;
            Ok(RunResult::Continue)
        } else if status == 0 {
            self.state = RunState::Done;
            Ok(RunResult::Done)
        } else {
            self.state = RunState::Failed(status);
            Err(AriaError::RunError(status))
        }
    }
}

/// What a session asks of the engine when it is to wind down.
#[derive(Copy, Clone, Debug, PartialEq, Eq, Structural)]
pub struct Shutdown {
    /// Discard what is in flight instead of winding down gracefully.
    pub force: bool,
}

impl<'ctx> Session<'ctx> {
    /// Asks for the end of the engine's outstanding work. The session itself
    /// stays as it is: the end shows in what later polls report.
    pub fn shutdown(&mut self, force: bool) -> (request: Shutdown)
        ensures
            request.force == force,
            final(self)@ == old(self)@,
    {
        Shutdown { force }
    }

    /// Ends the session. The mailbox is closed, so that a late message is
    /// dropped and not kept for nobody. The handle comes back for the caller
    /// to release the engine's session with.
    pub fn finalize(self, mailbox: &mut Mailbox) -> (handle: SessionHandle)
        ensures
            handle == self@.handle,
            !final(mailbox)@.open,
            final(mailbox)@.buffered == old(mailbox)@.buffered,
    {
        mailbox.close();
        self.handle
    }
}

/// The process-wide mark that the engine is started. A process keeps one.
pub struct EngineFlag {
    started: bool,
}

impl EngineFlag {
    /// The mark of a process in which the engine is not started.
    pub fn new() -> (flag: EngineFlag)
        ensures
            !flag.started(),
    {
        EngineFlag { started: false }
    }

    /// Whether the engine is started.
    pub closed spec fn started(&self) -> bool {
        self.started
    }

    /// Whether the engine is started.
    pub fn is_started(&self) -> (started: bool)
        ensures
            started == self.started(),
    {
        self.started
    }
}

/// What starting the engine gives, as a plain value: the mark afterwards and
/// whether the start was refused.
pub open spec fn spec_init(started: bool) -> (bool, Option<AriaError>) {
    if started {
        (true, Some(AriaError::AlreadyInitialized))
    } else {
        (true, None)
    }
}

/// The mark after the engine was torn down.
pub open spec fn spec_teardown(started: bool) -> bool {
    false
}

/// The live engine. While one exists no second can be made.
pub struct Aria2Context {
    _private: (),
}

/// What the engine needs to start a session: the options in the caller's
/// order and the configuration.
pub struct SessionStart<'ctx> {
    options: Vec<ffi::KeyVal>,
    config: ffi::SessionConfigFfi,
    _ctx: PhantomData<&'ctx ()>,
}

/// What starts a session, as a plain value: each option as a pair of key
/// and value, and the configuration.
pub struct SessionStartView {
    pub options: Seq<(Seq<char>, Seq<char>)>,
    pub config: ffi::SessionConfigFfi,
}

/// The pairs of key and value that a list of options holds, in its order.
pub open spec fn pairs_of(options: Seq<ffi::KeyVal>) -> Seq<(Seq<char>, Seq<char>)> {
    options.map_values(|pair: ffi::KeyVal| pair@)
}

/// The pairs of key and value that a slice of borrowed pairs holds.
pub open spec fn pairs_of_strs(options: Seq<(&str, &str)>) -> Seq<(Seq<char>, Seq<char>)> {
    options.map_values(|pair: (&str, &str)| (pair.0@, pair.1@))
}

impl<'ctx> View for SessionStart<'ctx> {
    type V = SessionStartView;

    closed spec fn view(&self) -> SessionStartView {
        SessionStartView { options: pairs_of(self.options@), config: self.config }
    }
}

impl Aria2Context {
    /// Starts the engine, once per process: with the mark already set the
    /// start is refused and the mark stays; else the mark is set.
    pub fn new(flag: &mut EngineFlag) -> (context: Result<Aria2Context>)
        ensures
            final(flag).started() == spec_init(old(flag).started()).0,
            match spec_init(old(flag).started()).1 {
                Some(refusal) => context is Err && context->Err_0 == refusal,
                None => context is Ok,
            },
            old(flag).started() ==> context is Err && context->Err_0
                == AriaError::AlreadyInitialized,
            !old(flag).started() ==> context is Ok && final(flag).started(),
    {
        if flag.started {
            return Err(AriaError::AlreadyInitialized);
        }
        flag.started = true;
        Ok(Aria2Context { _private: () })
    }

    /// Prepares the one session of this engine. The options are passed on
    /// pair by pair as they are; the engine's own signal handlers stay off
    /// and no user value is set. The mailbox is made new: open and empty,
    /// whatever an earlier session left in it.
    pub fn new_session<'ctx>(
        &'ctx mut self,
        mailbox: &mut Mailbox,
        keep_running: bool,
        options: &[(&str, &str)],
    ) -> (start: SessionStart<'ctx>)
        ensures
            final(mailbox)@.open,
            final(mailbox)@.buffered.len() == 0,
            start@.config == (ffi::SessionConfigFfi {
                keep_running,
                use_signal_handler: false,
                user_data: 0,
            }),
            start@.options == pairs_of_strs(options@),
    {
        let mut list: Vec<ffi::KeyVal> = Vec::new();
        let mut i: usize = 0;
        while i < options.len()
            invariant
                i <= options@.len(),
                list@.len() == i,
                forall|j: int|
                    0 <= j < i ==> (#[trigger] list@[j])@ == (options@[j].0@, options@[j].1@),
            decreases options@.len() - i,
        {
            let pair = &options[i];
            list.push(ffi::KeyVal { key: pair.0.to_owned(), val: pair.1.to_owned() });
            i += 1;
        }
        *mailbox = Mailbox::new();
        SessionStart {
            options: list,
            config: ffi::SessionConfigFfi {
                keep_running,
                use_signal_handler: false,
                user_data: 0,
            },
            _ctx: PhantomData,
        }
    }

    /// Tears the engine down and clears the mark: a new start is legal.
    pub fn finalize(self, flag: &mut EngineFlag)
        ensures
            final(flag).started() == spec_teardown(old(flag).started()),
    {
        flag.started = false;
    }
}

impl<'ctx> SessionStart<'ctx> {
    /// The options to hand to the engine.
    pub fn options(&self) -> (options: &Vec<ffi::KeyVal>)
        ensures
            pairs_of(options@) == self@.options,
    {
        &self.options
    }

    /// The configuration to hand to the engine.
    pub fn config(&self) -> (config: ffi::SessionConfigFfi)
        ensures
            config == self@.config,
    {
        self.config
    }

    /// The session on the handle that the engine gave: nothing waits and the
    /// run loop is idle.
    pub fn attach(self, handle: SessionHandle) -> (session: Session<'ctx>)
        ensures
            session@ == (SessionView {
                handle,
                queue: Seq::<DownloadEvent>::empty(),
                state: RunState::Idle,
            }),
    {
        Session { handle, event_queue: VecDeque::new(), state: RunState::Idle, _ctx: PhantomData }
    }
}

/// At most one engine is live. While the mark is set a start is refused with
/// `AlreadyInitialized` and changes nothing; a start on a cleared mark
/// succeeds and sets it, so the next start is refused; and after a teardown
/// the mark is cleared, so a start succeeds again.
pub proof fn lemma_single_engine(started: bool)
    ensures
        spec_init(true) == (true, Some(AriaError::AlreadyInitialized)),
        spec_init(false).1 is None,
        spec_init(spec_init(started).0).1 == Some(AriaError::AlreadyInitialized),
        spec_init(spec_teardown(started)).1 is None,
        spec_init(spec_teardown(spec_init(started).0)).1 is None,
{
}

/// No event is lost and none overtakes another. Take a session and what its
/// mailbox holds when a poll begins, and poll again and again while nothing
/// new arrives: poll number `k + 1` hands out exactly the event at place `k`
/// of what was waiting, queue first, then mailbox, each in its order. Only
/// when all of them have left does a poll ask for an advance of the engine.
/// Handle and run state stay as they were throughout.
pub proof fn lemma_events_leave_in_order(
    session: SessionView,
    buffered: Seq<Message>,
    mode_once: bool,
    k: nat,
)
    requires
        k <= session.pending(buffered).len(),
    ensures
        session.after_polls(buffered, k).pending(SessionView::mailbox_before(buffered, k))
            == session.pending(buffered).skip(k as int),
        k < session.pending(buffered).len() ==> session.after_polls(buffered, k).poll_step(
            SessionView::mailbox_before(buffered, k),
            mode_once,
        ) == Step::Event(session.pending(buffered)[k as int]),
        k == session.pending(buffered).len() ==> session.after_polls(buffered, k).poll_step(
            SessionView::mailbox_before(buffered, k),
            mode_once,
        ) == Step::Advance(spec_run_mode(mode_once)),
        session.after_polls(buffered, k).handle == session.handle,
        session.after_polls(buffered, k).state == session.state,
    decreases k,
{
    if k > 1 {
        lemma_events_leave_in_order(session, buffered, mode_once, (k - 1) as nat);
    }
}

/// Two events of one step of the engine come out in the order in which the
/// callback wrote them. With nothing waiting, let the callback write `first`
/// and then `second` into the mailbox: the next poll hands out the event of
/// `first`, the poll after it the event of `second`, each alone, and only
/// the third poll asks for an advance of the engine.
pub proof fn lemma_two_events_in_order(
    session: SessionView,
    first: Message,
    second: Message,
    mode_once: bool,
)
    requires
        session.queue.len() == 0,
    ensures
        ({
            let written = Seq::<Message>::empty().push(first).push(second);
            let nothing = Seq::<Message>::empty();
            let one = session.after_poll(written);
            let two = one.after_poll(nothing);
            &&& session.poll_step(written, mode_once) == Step::Event(
                DownloadEvent::spec_from_native(first.event, first.gid),
            )
            &&& one.poll_step(nothing, mode_once) == Step::Event(
                DownloadEvent::spec_from_native(second.event, second.gid),
            )
            &&& two.poll_step(nothing, mode_once) == Step::Advance(spec_run_mode(mode_once))
        }),
{
    let written = Seq::<Message>::empty().push(first).push(second);
    lemma_events_leave_in_order(session, written, mode_once, 0);
    lemma_events_leave_in_order(session, written, mode_once, 1);
    lemma_events_leave_in_order(session, written, mode_once, 2);
    reveal_with_fuel(SessionView::after_polls, 3);
}

} // verus!
