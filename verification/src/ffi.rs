//! The plain values exchanged with the engine: its handle, its numeric codes
//! as closed enums, option pairs and statistics.

use vstd::prelude::*;

verus! {

/// The engine's handle for one running session: an address, kept as a number.
#[derive(Copy, Clone, Debug, PartialEq, Eq, Structural)]
pub struct SessionHandle {
    ptr: usize,
}

impl SessionHandle {
    /// The handle that holds the address `ptr`.
    pub fn from_raw(ptr: usize) -> (handle: SessionHandle)
        ensures
            handle.addr() == ptr,
    {
        SessionHandle { ptr }
    }

    /// The address that the handle holds.
    pub closed spec fn addr(&self) -> usize {
        self.ptr
    }

    /// The address that the handle holds.
    pub fn as_raw(&self) -> (ptr: usize)
        ensures
            ptr == self.addr(),
    {
        self.ptr
    }

    /// Whether the engine gave a session: it reports a failed start as the
    /// zero address.
    pub fn is_valid(&self) -> (valid: bool)
        ensures
            valid == (self.addr() != 0),
    {
        self.ptr != 0
    }
}

/// The lifecycle notifications of the engine, by the engine's own names.
#[allow(non_camel_case_types)]
#[derive(Copy, Clone, Debug, PartialEq, Eq, Structural)]
pub enum DownloadEvent {
    EVENT_ON_DOWNLOAD_START,
    EVENT_ON_DOWNLOAD_PAUSE,
    EVENT_ON_DOWNLOAD_STOP,
    EVENT_ON_DOWNLOAD_COMPLETE,
    EVENT_ON_DOWNLOAD_ERROR,
    EVENT_ON_BT_DOWNLOAD_COMPLETE,
}

impl DownloadEvent {
    /// The number by which the engine reports the notification.
    pub open spec fn spec_code(self) -> u32 {
        match self {
            DownloadEvent::EVENT_ON_DOWNLOAD_START => 1,
            DownloadEvent::EVENT_ON_DOWNLOAD_PAUSE => 2,
            DownloadEvent::EVENT_ON_DOWNLOAD_STOP => 3,
            DownloadEvent::EVENT_ON_DOWNLOAD_COMPLETE => 4,
            DownloadEvent::EVENT_ON_DOWNLOAD_ERROR => 5,
            DownloadEvent::EVENT_ON_BT_DOWNLOAD_COMPLETE => 6,
        }
    }

    /// The notification that the engine reports by `code`, if there is one.
    pub open spec fn spec_from_code(code: u32) -> Option<DownloadEvent> {
        if code == 1 {
            Some(DownloadEvent::EVENT_ON_DOWNLOAD_START)
        } else if code == 2 {
            Some(DownloadEvent::EVENT_ON_DOWNLOAD_PAUSE)
        } else if code == 3 {
            Some(DownloadEvent::EVENT_ON_DOWNLOAD_STOP)
        } else if code == 4 {
            Some(DownloadEvent::EVENT_ON_DOWNLOAD_COMPLETE)
        } else if code == 5 {
            Some(DownloadEvent::EVENT_ON_DOWNLOAD_ERROR)
        } else if code == 6 {
            Some(DownloadEvent::EVENT_ON_BT_DOWNLOAD_COMPLETE)
        } else {
            None
        }
    }

    /// The engine's name of the notification.
    pub open spec fn spec_name(self) -> Seq<char> {
        match self {
            DownloadEvent::EVENT_ON_DOWNLOAD_START => "EVENT_ON_DOWNLOAD_START"@,
            DownloadEvent::EVENT_ON_DOWNLOAD_PAUSE => "EVENT_ON_DOWNLOAD_PAUSE"@,
            DownloadEvent::EVENT_ON_DOWNLOAD_STOP => "EVENT_ON_DOWNLOAD_STOP"@,
            DownloadEvent::EVENT_ON_DOWNLOAD_COMPLETE => "EVENT_ON_DOWNLOAD_COMPLETE"@,
            DownloadEvent::EVENT_ON_DOWNLOAD_ERROR => "EVENT_ON_DOWNLOAD_ERROR"@,
            DownloadEvent::EVENT_ON_BT_DOWNLOAD_COMPLETE => "EVENT_ON_BT_DOWNLOAD_COMPLETE"@,
        }
    }

    /// The number by which the engine reports the notification; reading it
    /// back gives the notification again.
    pub fn code(self) -> (code: u32)
        ensures
            code == self.spec_code(),
            1 <= code <= 6,
            DownloadEvent::spec_from_code(code) == Some(self),
    {
        match self {
            DownloadEvent::EVENT_ON_DOWNLOAD_START => 1,
            DownloadEvent::EVENT_ON_DOWNLOAD_PAUSE => 2,
            DownloadEvent::EVENT_ON_DOWNLOAD_STOP => 3,
            DownloadEvent::EVENT_ON_DOWNLOAD_COMPLETE => 4,
            DownloadEvent::EVENT_ON_DOWNLOAD_ERROR => 5,
            DownloadEvent::EVENT_ON_BT_DOWNLOAD_COMPLETE => 6,
        }
    }

    /// Reads a notification from the engine's number. The set is closed: any
    /// number outside one to six names none.
    pub fn from_code(code: u32) -> (event: Option<DownloadEvent>)
        ensures
            event == DownloadEvent::spec_from_code(code),
            event is Some <==> 1 <= code <= 6,
            event is Some ==> event.unwrap().spec_code() == code,
    {
        match code {
            1 => Some(DownloadEvent::EVENT_ON_DOWNLOAD_START),
            2 => Some(DownloadEvent::EVENT_ON_DOWNLOAD_PAUSE),
            3 => Some(DownloadEvent::EVENT_ON_DOWNLOAD_STOP),
            4 => Some(DownloadEvent::EVENT_ON_DOWNLOAD_COMPLETE),
            5 => Some(DownloadEvent::EVENT_ON_DOWNLOAD_ERROR),
            6 => Some(DownloadEvent::EVENT_ON_BT_DOWNLOAD_COMPLETE),
            _ => None,
        }
    }

    /// The engine's name of the notification, as it is printed.
    pub fn name(&self) -> (name: &'static str)
        ensures
            name@ == self.spec_name(),
    {
        match self {
            DownloadEvent::EVENT_ON_DOWNLOAD_START => "EVENT_ON_DOWNLOAD_START",
            DownloadEvent::EVENT_ON_DOWNLOAD_PAUSE => "EVENT_ON_DOWNLOAD_PAUSE",
            DownloadEvent::EVENT_ON_DOWNLOAD_STOP => "EVENT_ON_DOWNLOAD_STOP",
            DownloadEvent::EVENT_ON_DOWNLOAD_COMPLETE => "EVENT_ON_DOWNLOAD_COMPLETE",
            DownloadEvent::EVENT_ON_DOWNLOAD_ERROR => "EVENT_ON_DOWNLOAD_ERROR",
            DownloadEvent::EVENT_ON_BT_DOWNLOAD_COMPLETE => "EVENT_ON_BT_DOWNLOAD_COMPLETE",
        }
    }
}

/// How a session is started.
#[derive(Copy, Clone, Debug, PartialEq, Eq, Structural)]
pub struct SessionConfigFfi {
    /// Keep the run loop alive when no download is left.
    pub keep_running: bool,
    /// Let the engine install its own signal handlers.
    pub use_signal_handler: bool,
    /// A value that the engine hands to every callback, unread.
    pub user_data: usize,
}

/// One engine option: a key and its value. In a list a later pair may
/// override an earlier one; that is the engine's business.
#[derive(Clone, Debug, PartialEq, Eq)]
pub struct KeyVal {
    pub key: String,
    pub val: String,
}

impl View for KeyVal {
    type V = (Seq<char>, Seq<char>);

    open spec fn view(&self) -> (Seq<char>, Seq<char>) {
        (self.key@, self.val@)
    }
}

/// How far one call advances the engine.
#[allow(non_camel_case_types)]
#[derive(Copy, Clone, Debug, PartialEq, Eq, Structural)]
pub enum RUN_MODE {
    /// Until nothing is left to do.
    RUN_DEFAULT,
    /// One bounded step.
    RUN_ONCE,
}

impl RUN_MODE {
    /// The number by which the engine knows the mode.
    pub open spec fn spec_code(self) -> u32 {
        match self {
            RUN_MODE::RUN_DEFAULT => 0,
            RUN_MODE::RUN_ONCE => 1,
        }
    }

    /// The number by which the engine knows the mode.
    pub fn code(self) -> (code: u32)
        ensures
            code == self.spec_code(),
    {
        match self {
            RUN_MODE::RUN_DEFAULT => 0,
            RUN_MODE::RUN_ONCE => 1,
        }
    }
}

/// The engine's totals at one moment.
#[derive(Copy, Clone, Debug, PartialEq, Eq, Structural)]
pub struct GlobalStat {
    pub download_speed: i32,
    pub upload_speed: i32,
    pub num_active: i32,
    pub num_waiting: i32,
    pub num_stopped: i32,
}

/// From where a new queue position is counted.
#[allow(non_camel_case_types)]
#[derive(Copy, Clone, Debug, PartialEq, Eq, Structural)]
pub enum OffsetMode {
    OFFSET_MODE_SET,
    OFFSET_MODE_CUR,
    OFFSET_MODE_END,
}

impl OffsetMode {
    /// The number by which the engine knows the mode.
    pub open spec fn spec_code(self) -> u32 {
        match self {
            OffsetMode::OFFSET_MODE_SET => 0,
            OffsetMode::OFFSET_MODE_CUR => 1,
            OffsetMode::OFFSET_MODE_END => 2,
        }
    }

    /// The number by which the engine knows the mode.
    pub fn code(self) -> (code: u32)
        ensures
            code == self.spec_code(),
    {
        match self {
            OffsetMode::OFFSET_MODE_SET => 0,
            OffsetMode::OFFSET_MODE_CUR => 1,
            OffsetMode::OFFSET_MODE_END => 2,
        }
    }
}

/// Whether a source address of a file is in use.
#[allow(non_camel_case_types)]
#[derive(Copy, Clone, Debug, PartialEq, Eq, Structural)]
pub enum UriStatus {
    URI_USED,
    URI_WAITING,
}

impl UriStatus {
    /// The status that the engine reports by `code`, if there is one.
    pub open spec fn spec_from_code(code: u32) -> Option<UriStatus> {
        if code == 0 {
            Some(UriStatus::URI_USED)
        } else if code == 1 {
            Some(UriStatus::URI_WAITING)
        } else {
            None
        }
    }

    /// Reads a status from the engine's number.
    pub fn from_code(code: u32) -> (status: Option<UriStatus>)
        ensures
            status == UriStatus::spec_from_code(code),
    {
        match code {
            0 => Some(UriStatus::URI_USED),
            1 => Some(UriStatus::URI_WAITING),
            _ => None,
        }
    }
}

/// One source address of a file, with its status.
#[derive(Clone, Debug, PartialEq, Eq)]
pub struct UriData {
    pub uri: String,
    pub status: UriStatus,
}

impl View for UriData {
    type V = (Seq<char>, UriStatus);

    open spec fn view(&self) -> (Seq<char>, UriStatus) {
        (self.uri@, self.status)
    }
}

/// The layout of a torrent's files.
#[allow(non_camel_case_types)]
#[derive(Copy, Clone, Debug, PartialEq, Eq, Structural)]
pub enum BtFileMode {
    BT_FILE_MODE_NONE,
    BT_FILE_MODE_SINGLE,
    BT_FILE_MODE_MULTI,
}

impl BtFileMode {
    /// The layout that the engine reports by `code`, if there is one.
    pub open spec fn spec_from_code(code: u32) -> Option<BtFileMode> {
        if code == 0 {
            Some(BtFileMode::BT_FILE_MODE_NONE)
        } else if code == 1 {
            Some(BtFileMode::BT_FILE_MODE_SINGLE)
        } else if code == 2 {
            Some(BtFileMode::BT_FILE_MODE_MULTI)
        } else {
            None
        }
    }

    /// Reads a layout from the engine's number.
    pub fn from_code(code: u32) -> (mode: Option<BtFileMode>)
        ensures
            mode == BtFileMode::spec_from_code(code),
    {
        match code {
            0 => Some(BtFileMode::BT_FILE_MODE_NONE),
            1 => Some(BtFileMode::BT_FILE_MODE_SINGLE),
            2 => Some(BtFileMode::BT_FILE_MODE_MULTI),
            _ => None,
        }
    }
}

/// The states of a download, by the engine's own names.
#[allow(non_camel_case_types)]
#[derive(Copy, Clone, Debug, PartialEq, Eq, Structural)]
pub enum DownloadStatus {
    DOWNLOAD_ACTIVE,
    DOWNLOAD_WAITING,
    DOWNLOAD_PAUSED,
    DOWNLOAD_COMPLETE,
    DOWNLOAD_ERROR,
    DOWNLOAD_REMOVED,
}

impl DownloadStatus {
    /// The number by which the engine reports the state.
    pub open spec fn spec_code(self) -> u32 {
        match self {
            DownloadStatus::DOWNLOAD_ACTIVE => 0,
            DownloadStatus::DOWNLOAD_WAITING => 1,
            DownloadStatus::DOWNLOAD_PAUSED => 2,
            DownloadStatus::DOWNLOAD_COMPLETE => 3,
            DownloadStatus::DOWNLOAD_ERROR => 4,
            DownloadStatus::DOWNLOAD_REMOVED => 5,
        }
    }

    /// The state that the engine reports by `code`, if there is one.
    pub open spec fn spec_from_code(code: u32) -> Option<DownloadStatus> {
        if code == 0 {
            Some(DownloadStatus::DOWNLOAD_ACTIVE)
        } else if code == 1 {
            Some(DownloadStatus::DOWNLOAD_WAITING)
        } else if code == 2 {
            Some(DownloadStatus::DOWNLOAD_PAUSED)
        } else if code == 3 {
            Some(DownloadStatus::DOWNLOAD_COMPLETE)
        } else if code == 4 {
            Some(DownloadStatus::DOWNLOAD_ERROR)
        } else if code == 5 {
            Some(DownloadStatus::DOWNLOAD_REMOVED)
        } else {
            None
        }
    }

    /// The engine's name of the state.
    pub open spec fn spec_name(self) -> Seq<char> {
        match self {
            DownloadStatus::DOWNLOAD_ACTIVE => "DOWNLOAD_ACTIVE"@,
            DownloadStatus::DOWNLOAD_WAITING => "DOWNLOAD_WAITING"@,
            DownloadStatus::DOWNLOAD_PAUSED => "DOWNLOAD_PAUSED"@,
            DownloadStatus::DOWNLOAD_COMPLETE => "DOWNLOAD_COMPLETE"@,
            DownloadStatus::DOWNLOAD_ERROR => "DOWNLOAD_ERROR"@,
            DownloadStatus::DOWNLOAD_REMOVED => "DOWNLOAD_REMOVED"@,
        }
    }

    /// The number by which the engine reports the state; reading it back
    /// gives the state again.
    pub fn code(self) -> (code: u32)
        ensures
            code == self.spec_code(),
            code <= 5,
            DownloadStatus::spec_from_code(code) == Some(self),
    {
        match self {
            DownloadStatus::DOWNLOAD_ACTIVE => 0,
            DownloadStatus::DOWNLOAD_WAITING => 1,
            DownloadStatus::DOWNLOAD_PAUSED => 2,
            DownloadStatus::DOWNLOAD_COMPLETE => 3,
            DownloadStatus::DOWNLOAD_ERROR => 4,
            DownloadStatus::DOWNLOAD_REMOVED => 5,
        }
    }

    /// Reads a state from the engine's number. The set is closed: any number
    /// above five names none.
    pub fn from_code(code: u32) -> (status: Option<DownloadStatus>)
        ensures
            status == DownloadStatus::spec_from_code(code),
            status is Some <==> code <= 5,
            status is Some ==> status.unwrap().spec_code() == code,
    {
        match code {
            0 => Some(DownloadStatus::DOWNLOAD_ACTIVE),
            1 => Some(DownloadStatus::DOWNLOAD_WAITING),
            2 => Some(DownloadStatus::DOWNLOAD_PAUSED),
            3 => Some(DownloadStatus::DOWNLOAD_COMPLETE),
            4 => Some(DownloadStatus::DOWNLOAD_ERROR),
            5 => Some(DownloadStatus::DOWNLOAD_REMOVED),
            _ => None,
        }
    }

    /// The engine's name of the state, as it is printed.
    pub fn name(&self) -> (name: &'static str)
        ensures
            name@ == self.spec_name(),
    {
        match self {
            DownloadStatus::DOWNLOAD_ACTIVE => "DOWNLOAD_ACTIVE",
            DownloadStatus::DOWNLOAD_WAITING => "DOWNLOAD_WAITING",
            DownloadStatus::DOWNLOAD_PAUSED => "DOWNLOAD_PAUSED",
            DownloadStatus::DOWNLOAD_COMPLETE => "DOWNLOAD_COMPLETE",
            DownloadStatus::DOWNLOAD_ERROR => "DOWNLOAD_ERROR",
            DownloadStatus::DOWNLOAD_REMOVED => "DOWNLOAD_REMOVED",
        }
    }
}

} // verus!
