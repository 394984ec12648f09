//! Lifecycle events and the mailbox that carries them from the engine's
//! callback to the run loop.

use crate::ffi;
use crate::ffi::SessionHandle;
use crate::gid::A2Gid;
use std::collections::VecDeque;
use vstd::prelude::*;
use vstd::std_specs::convert::FromSpecImpl;

verus! {

/// A lifecycle event of one download.
#[derive(Copy, Clone, Debug, PartialEq, Eq, Structural)]
pub enum DownloadEvent {
    Started(A2Gid),
    Paused(A2Gid),
    Stopped(A2Gid),
    /// The download is complete; the flag tells a BitTorrent download.
    Completed(A2Gid, bool),
    Error(A2Gid),
}

impl DownloadEvent {
    /// The download that the event is about.
    pub open spec fn spec_gid(self) -> A2Gid {
        match self {
            DownloadEvent::Started(gid) => gid,
            DownloadEvent::Paused(gid) => gid,
            DownloadEvent::Stopped(gid) => gid,
            DownloadEvent::Completed(gid, _) => gid,
            DownloadEvent::Error(gid) => gid,
        }
    }

    /// The event that the engine's notification `native` about `gid` stands
    /// for. The two completions differ in the flag only.
    pub open spec fn spec_from_native(native: ffi::DownloadEvent, gid: A2Gid) -> DownloadEvent {
        match native {
            ffi::DownloadEvent::EVENT_ON_DOWNLOAD_START => DownloadEvent::Started(gid),
            ffi::DownloadEvent::EVENT_ON_DOWNLOAD_PAUSE => DownloadEvent::Paused(gid),
            ffi::DownloadEvent::EVENT_ON_DOWNLOAD_STOP => DownloadEvent::Stopped(gid),
            ffi::DownloadEvent::EVENT_ON_DOWNLOAD_COMPLETE => DownloadEvent::Completed(gid, false),
            ffi::DownloadEvent::EVENT_ON_BT_DOWNLOAD_COMPLETE => DownloadEvent::Completed(
                gid,
                true,
            ),
            ffi::DownloadEvent::EVENT_ON_DOWNLOAD_ERROR => DownloadEvent::Error(gid),
        }
    }

    /// The download that the event is about.
    pub fn gid(&self) -> (gid: A2Gid)
        ensures
            gid == self.spec_gid(),
    {
        match self {
            DownloadEvent::Started(gid) => *gid,
            DownloadEvent::Paused(gid) => *gid,
            DownloadEvent::Stopped(gid) => *gid,
            DownloadEvent::Completed(gid, _) => *gid,
            DownloadEvent::Error(gid) => *gid,
        }
    }
}

impl From<(ffi::DownloadEvent, A2Gid)> for DownloadEvent {
    /// Turns a notification of the engine and its identifier into an event.
    fn from(raw: (ffi::DownloadEvent, A2Gid)) -> (event: DownloadEvent) {
        let (native, gid) = raw;
        match native {
            ffi::DownloadEvent::EVENT_ON_DOWNLOAD_START => DownloadEvent::Started(gid),
            ffi::DownloadEvent::EVENT_ON_DOWNLOAD_PAUSE => DownloadEvent::Paused(gid),
            ffi::DownloadEvent::EVENT_ON_DOWNLOAD_STOP => DownloadEvent::Stopped(gid),
            ffi::DownloadEvent::EVENT_ON_DOWNLOAD_COMPLETE => DownloadEvent::Completed(gid, false),
            ffi::DownloadEvent::EVENT_ON_BT_DOWNLOAD_COMPLETE => DownloadEvent::Completed(
                gid,
                true,
            ),
            ffi::DownloadEvent::EVENT_ON_DOWNLOAD_ERROR => DownloadEvent::Error(gid),
        }
    }
}

impl FromSpecImpl<(ffi::DownloadEvent, A2Gid)> for DownloadEvent {
    open spec fn obeys_from_spec() -> bool {
        true
    }

    open spec fn from_spec(raw: (ffi::DownloadEvent, A2Gid)) -> DownloadEvent {
        DownloadEvent::spec_from_native(raw.0, raw.1)
    }
}

/// What the engine's callback writes: the notification, the identifier and
/// the user value that the engine hands through.
#[derive(Copy, Clone, Debug, PartialEq, Eq, Structural)]
pub struct Message {
    pub event: ffi::DownloadEvent,
    pub gid: A2Gid,
    pub user_data: usize,
}

/// Why a message was not delivered: nobody receives any more.
#[derive(Copy, Clone, Debug, PartialEq, Eq, Structural)]
pub struct SendError {
    /// The message that was dropped.
    pub message: Message,
}

/// The mailbox between the engine's callback and the run loop: strictly
/// first in, first out. The callback writes, possibly several times during
/// one step of the engine; the run loop alone reads. Once the receiving side
/// is gone the mailbox is closed and a message sent to it is lost.
pub struct Mailbox {
    buffered: VecDeque<Message>,
    open: bool,
}

/// What a mailbox holds: the messages not yet read, oldest first, and
/// whether anybody still receives.
pub struct MailboxView {
    pub buffered: Seq<Message>,
    pub open: bool,
}

impl View for Mailbox {
    type V = MailboxView;

    closed spec fn view(&self) -> MailboxView {
        MailboxView { buffered: self.buffered@, open: self.open }
    }
}

impl Mailbox {
    /// An open mailbox that holds nothing.
    pub fn new() -> (mailbox: Mailbox)
        ensures
            mailbox@.buffered == Seq::<Message>::empty(),
            mailbox@.open,
    {
        Mailbox { buffered: VecDeque::new(), open: true }
    }

    /// Whether anybody still receives.
    pub fn is_open(&self) -> (open: bool)
        ensures
            open == self@.open,
    {
        self.open
    }

    /// How many messages wait to be read.
    pub fn len(&self) -> (len: usize)
        ensures
            len == self@.buffered.len(),
    {
        self.buffered.len()
    }

    /// Writes a message behind those that wait. On a closed mailbox the
    /// message is handed back in the error and the mailbox stays as it is.
    pub fn send(&mut self, message: Message) -> (sent: core::result::Result<(), SendError>)
        ensures
            old(self)@.open ==> sent is Ok,
            old(self)@.open ==> final(self)@.open,
            old(self)@.open ==> final(self)@.buffered == old(self)@.buffered.push(message),
            !old(self)@.open ==> sent == Err::<(), SendError>(SendError { message }),
            !old(self)@.open ==> final(self)@ == old(self)@,
    {
        if self.open {
            self.buffered.push_back(message);
            Ok(())
        } else {
            Err(SendError { message })
        }
    }

    /// Takes the oldest waiting message, without blocking; `None` when
    /// nothing waits. Messages written before the mailbox was closed can
    /// still be read.
    pub fn try_recv(&mut self) -> (received: Option<Message>)
        ensures
            final(self)@.open == old(self)@.open,
            old(self)@.buffered.len() == 0 ==> received is None && final(self)@ == old(self)@,
            old(self)@.buffered.len() > 0 ==> received == Some(old(self)@.buffered[0])
                && final(self)@.buffered == old(self)@.buffered.skip(1),
    {
        let received = self.buffered.pop_front();
        received
    }

    /// Closes the mailbox: the receiving side is gone. What waits stays.
    pub fn close(&mut self)
        ensures
            !final(self)@.open,
            final(self)@.buffered == old(self)@.buffered,
    {
        self.open = false;
    }
}

/// What the engine's callback does with one notification: it writes the
/// message into the mailbox and answers the engine with `0`, whatever
/// happened. It touches nothing else, since the engine calls it from inside
/// its own step. A message for a closed mailbox is dropped; the second part
/// of the result says so, for the caller to log.
pub fn static_event_callback(
    mailbox: &mut Mailbox,
    _session: SessionHandle,
    event: ffi::DownloadEvent,
    gid: A2Gid,
    user_data: usize,
) -> (answer: (i32, core::result::Result<(), SendError>))
    ensures
        answer.0 == 0,
        old(mailbox)@.open ==> answer.1 is Ok,
        old(mailbox)@.open ==> final(mailbox)@.open,
        old(mailbox)@.open ==> final(mailbox)@.buffered == old(mailbox)@.buffered.push(
            (Message { event, gid, user_data }),
        ),
        !old(mailbox)@.open ==> answer.1 == Err::<(), SendError>(
            SendError { message: (Message { event, gid, user_data }) },
        ),
        !old(mailbox)@.open ==> final(mailbox)@ == old(mailbox)@,
{
    let sent = mailbox.send(Message { event, gid, user_data });
    (0, sent)
}

} // verus!
