//! Read-only views of single downloads, handed out for the time of one poll.
//!
//! A handle owns what the engine reported of a download at the moment the
//! handle was acquired. Every read answers from that report, so nothing that
//! the engine does later changes what a handle says.

use crate::ffi;
use crate::ffi::{KeyVal, UriData};
use crate::gid::{is_gid_null, spec_is_gid_null, A2Gid};
use crate::session::PollContext;
use core::marker::PhantomData;
use vstd::prelude::*;
use vstd::std_specs::convert::FromSpecImpl;

verus! {

/// The state of a download.
#[derive(Copy, Clone, Debug, PartialEq, Eq, Structural)]
pub enum DownloadStatus {
    Active,
    Waiting,
    Paused,
    Complete,
    Error,
    Removed,
}

impl DownloadStatus {
    /// The state that the engine's state `native` stands for, one to one.
    pub open spec fn spec_from_native(native: ffi::DownloadStatus) -> DownloadStatus {
        match native {
            ffi::DownloadStatus::DOWNLOAD_ACTIVE => DownloadStatus::Active,
            ffi::DownloadStatus::DOWNLOAD_WAITING => DownloadStatus::Waiting,
            ffi::DownloadStatus::DOWNLOAD_PAUSED => DownloadStatus::Paused,
            ffi::DownloadStatus::DOWNLOAD_COMPLETE => DownloadStatus::Complete,
            ffi::DownloadStatus::DOWNLOAD_ERROR => DownloadStatus::Error,
            ffi::DownloadStatus::DOWNLOAD_REMOVED => DownloadStatus::Removed,
        }
    }

    /// The engine's state that `self` stands for.
    pub open spec fn spec_to_native(self) -> ffi::DownloadStatus {
        match self {
            DownloadStatus::Active => ffi::DownloadStatus::DOWNLOAD_ACTIVE,
            DownloadStatus::Waiting => ffi::DownloadStatus::DOWNLOAD_WAITING,
            DownloadStatus::Paused => ffi::DownloadStatus::DOWNLOAD_PAUSED,
            DownloadStatus::Complete => ffi::DownloadStatus::DOWNLOAD_COMPLETE,
            DownloadStatus::Error => ffi::DownloadStatus::DOWNLOAD_ERROR,
            DownloadStatus::Removed => ffi::DownloadStatus::DOWNLOAD_REMOVED,
        }
    }
}

impl From<ffi::DownloadStatus> for DownloadStatus {
    /// Turns the engine's state into the state it stands for.
    fn from(s: ffi::DownloadStatus) -> (status: DownloadStatus) {
        match s {
            ffi::DownloadStatus::DOWNLOAD_ACTIVE => DownloadStatus::Active,
            ffi::DownloadStatus::DOWNLOAD_WAITING => DownloadStatus::Waiting,
            ffi::DownloadStatus::DOWNLOAD_PAUSED => DownloadStatus::Paused,
            ffi::DownloadStatus::DOWNLOAD_COMPLETE => DownloadStatus::Complete,
            ffi::DownloadStatus::DOWNLOAD_ERROR => DownloadStatus::Error,
            ffi::DownloadStatus::DOWNLOAD_REMOVED => DownloadStatus::Removed,
        }
    }
}

impl FromSpecImpl<ffi::DownloadStatus> for DownloadStatus {
    open spec fn obeys_from_spec() -> bool {
        true
    }

    open spec fn from_spec(s: ffi::DownloadStatus) -> DownloadStatus {
        DownloadStatus::spec_from_native(s)
    }
}

/// The engine's states and the states of this layer match one to one.
pub proof fn lemma_status_one_to_one(native: ffi::DownloadStatus, status: DownloadStatus)
    ensures
        DownloadStatus::spec_from_native(native).spec_to_native() == native,
        DownloadStatus::spec_from_native(status.spec_to_native()) == status,
{
}

/// One file of a download, as the engine reported it.
#[derive(Debug)]
pub struct FileData {
    /// The number of the file within its download.
    pub index: u32,
    pub path: String,
    /// The size of the file in bytes.
    pub length: u64,
    /// How many bytes of the file are there.
    pub completed_length: u64,
    /// Whether the file is chosen for download.
    pub selected: bool,
    /// The addresses that the file is fetched from.
    pub uris: Vec<UriData>,
}

/// What the engine reports of one download at one moment.
#[derive(Debug)]
pub struct DownloadRecord {
    pub status: ffi::DownloadStatus,
    pub total_len: usize,
    pub completed_len: usize,
    pub upload_len: usize,
    /// Which pieces are there, as hex text.
    pub bitfield: String,
    pub download_speed: u32,
    pub upload_speed: u32,
    pub info_hash: String,
    pub piece_len: usize,
    pub num_pieces: u32,
    pub connections: u32,
    /// The engine's code for how the download ended.
    pub error_code: i32,
    /// The downloads that this one brought forth.
    pub followed_by: Vec<A2Gid>,
    /// The download that brought this one forth, or the null identifier.
    pub following: A2Gid,
    /// The download that this one is a part of, or the null identifier.
    pub belongs_to: A2Gid,
    pub dir: String,
    pub files: Vec<FileData>,
    pub options: Vec<KeyVal>,
}

/// An identifier that may be absent: the null identifier stands for none.
pub open spec fn spec_some_gid(gid: A2Gid) -> Option<A2Gid> {
    if spec_is_gid_null(gid) {
        None
    } else {
        Some(gid)
    }
}

/// The value of the option `name` in a list of options: that of the last
/// pair with this key, and the empty text where no pair has it.
pub open spec fn spec_option(options: Seq<KeyVal>, name: Seq<char>) -> Seq<char>
    decreases options.len(),
{
    if options.len() == 0 {
        Seq::empty()
    } else if options.last().key@ == name {
        options.last().val@
    } else {
        spec_option(options.drop_last(), name)
    }
}

/// What `acquire_handle` decides: no handle for the null identifier or for a
/// download that the engine does not know, else a handle on the report.
pub open spec fn spec_acquire(gid: A2Gid, found: Option<DownloadRecord>) -> Option<
    DownloadRecord,
> {
    if spec_is_gid_null(gid) {
        None
    } else {
        found
    }
}

/// What the engine reports of `gid` while its live records are `records`:
/// the record, or nothing for a download that it does not hold.
pub open spec fn spec_found(records: Map<A2Gid, DownloadRecord>, gid: A2Gid) -> Option<
    DownloadRecord,
> {
    if records.contains_key(gid) {
        Some(records[gid])
    } else {
        None
    }
}

/// Handles are scoped. Let the engine hold the records `before` at the
/// moment a handle on `gid` is acquired, and the records `after` at any
/// later moment. Once the engine has removed the download, no handle on it
/// can be had again. A handle that was acquired holds the report of its own
/// moment, of a download that was live then: what the engine holds later
/// has no part in it, so its reads stay as they were.
pub proof fn lemma_handle_scoping(
    gid: A2Gid,
    before: Map<A2Gid, DownloadRecord>,
    after: Map<A2Gid, DownloadRecord>,
)
    ensures
        !after.contains_key(gid) ==> spec_acquire(gid, spec_found(after, gid)) is None,
        spec_acquire(gid, spec_found(before, gid)) is Some ==> {
            &&& !spec_is_gid_null(gid)
            &&& before.contains_key(gid)
            &&& spec_acquire(gid, spec_found(before, gid)) == Some(before[gid])
        },
{
}

/// A read-only view of one download, valid while the poll context that gave
/// it is.
pub struct DownloadHandle<'a> {
    record: DownloadRecord,
    _phantom: PhantomData<&'a ()>,
}

impl<'a> DownloadHandle<'a> {
    #[verifier::type_invariant]
    spec fn file_count_fits(self) -> bool {
        self.record.files@.len() <= u32::MAX
    }

    /// The report that the handle was acquired with.
    pub closed spec fn record(&self) -> DownloadRecord {
        self.record
    }

    pub fn status(&self) -> (status: DownloadStatus)
        ensures
            status == DownloadStatus::spec_from_native(self.record().status),
    {
        DownloadStatus::from(self.record.status)
    }

    pub fn total_len(&self) -> (len: usize)
        ensures
            len == self.record().total_len,
    {
        self.record.total_len
    }

    pub fn completed_len(&self) -> (len: usize)
        ensures
            len == self.record().completed_len,
    {
        self.record.completed_len
    }

    pub fn upload_len(&self) -> (len: usize)
        ensures
            len == self.record().upload_len,
    {
        self.record.upload_len
    }

    pub fn bitfield(&self) -> (bitfield: String)
        ensures
            bitfield@ == self.record().bitfield@,
    {
        self.record.bitfield.clone()
    }

    pub fn download_speed(&self) -> (speed: u32)
        ensures
            speed == self.record().download_speed,
    {
        self.record.download_speed
    }

    pub fn upload_speed(&self) -> (speed: u32)
        ensures
            speed == self.record().upload_speed,
    {
        self.record.upload_speed
    }

    pub fn info_hash(&self) -> (hash: &str)
        ensures
            hash@ == self.record().info_hash@,
    {
        self.record.info_hash.as_str()
    }

    pub fn piece_len(&self) -> (len: usize)
        ensures
            len == self.record().piece_len,
    {
        self.record.piece_len
    }

    pub fn num_pieces(&self) -> (pieces: u32)
        ensures
            pieces == self.record().num_pieces,
    {
        self.record.num_pieces
    }

    pub fn connections(&self) -> (connections: u32)
        ensures
            connections == self.record().connections,
    {
        self.record.connections
    }

    pub fn error_code(&self) -> (code: i32)
        ensures
            code == self.record().error_code,
    {
        self.record.error_code
    }

    /// The downloads that this one brought forth.
    pub fn followed_by(&self) -> (gids: &[A2Gid])
        ensures
            gids@ == self.record().followed_by@,
    {
        self.record.followed_by.as_slice()
    }

    /// The download that brought this one forth, if there is one.
    pub fn following(&self) -> (gid: Option<A2Gid>)
        ensures
            gid == spec_some_gid(self.record().following),
    {
        let following = self.record.following;
        if is_gid_null(following) {
            None
        } else {
            Some(following)
        }
    }

    /// The download that this one is a part of, if there is one.
    pub fn belongs_to(&self) -> (gid: Option<A2Gid>)
        ensures
            gid == spec_some_gid(self.record().belongs_to),
    {
        let belongs = self.record.belongs_to;
        if is_gid_null(belongs) {
            None
        } else {
            Some(belongs)
        }
    }

    pub fn dir(&self) -> (dir: &str)
        ensures
            dir@ == self.record().dir@,
    {
        self.record.dir.as_str()
    }

    /// All files of the download, in the engine's order, borrowed from the
    /// handle.
    pub fn files(&self) -> (files: Vec<&FileData>)
        ensures
            files@.len() == self.record().files@.len(),
            forall|i: int| 0 <= i < files@.len() ==> *files@[i] == self.record().files@[i],
    {
        let count = self.num_files();
        let mut files: Vec<&FileData> = Vec::new();
        let mut i: u32 = 0;
        while i < count
            invariant
                count == self.record().files@.len(),
                i <= count,
                files@.len() == i,
                forall|j: int| 0 <= j < i ==> *files@[j] == self.record().files@[j],
            decreases count - i,
        {
            match self.get_file(i + 1) {
                Some(file) => {
                    files.push(file);
                },
                None => {},
            }
            i += 1;
        }
        files
    }

    pub fn num_files(&self) -> (count: u32)
        ensures
            count == self.record().files@.len(),
    {
        proof {
            use_type_invariant(self);
        }
        self.record.files.len() as u32
    }

    /// The file number `index`. Files are counted from one, as the engine
    /// counts them; there is none for `0` nor past the last.
    pub fn get_file(&self, index: u32) -> (file: Option<&FileData>)
        ensures
            1 <= index <= self.record().files@.len() ==> file is Some && *file->Some_0
                == self.record().files@[index - 1],
            index == 0 || index > self.record().files@.len() ==> file is None,
    {
        if index >= 1 && (index as usize) <= self.record.files.len() {
            Some(&self.record.files[(index - 1) as usize])
        } else {
            None
        }
    }

    /// The value of the option `name` for this download; the empty text for
    /// an option that is not set.
    pub fn get_option(&self, name: &str) -> (value: &str)
        ensures
            value@ == spec_option(self.record().options@, name@),
    {
        let wanted = name.to_owned();
        let mut i: usize = self.record.options.len();
        proof {
            assert(self.record.options@.take(i as int) =~= self.record.options@);
        }
        while i > 0
            invariant
                i <= self.record.options@.len(),
                wanted@ == name@,
                spec_option(self.record.options@, name@) == spec_option(
                    self.record.options@.take(i as int),
                    name@,
                ),
            decreases i,
        {
            let pair = &self.record.options[i - 1];
            proof {
                assert(self.record.options@.take(i as int).drop_last()
                    =~= self.record.options@.take(i - 1));
            }
            if pair.key == wanted {
                return pair.val.as_str();
            }
            i -= 1;
        }
        proof {
            reveal_strlit("");
        }
        ""
    }

    /// All options of the download, pair by pair.
    pub fn options(&self) -> (options: Vec<KeyVal>)
        ensures
            options@.len() == self.record().options@.len(),
            forall|i: int|
                0 <= i < options@.len() ==> (#[trigger] options@[i])@
                    == self.record().options@[i]@,
    {
        let mut options: Vec<KeyVal> = Vec::new();
        let mut i: usize = 0;
        while i < self.record.options.len()
            invariant
                i <= self.record.options@.len(),
                options@.len() == i,
                forall|j: int|
                    0 <= j < i ==> (#[trigger] options@[j])@ == self.record.options@[j]@,
            decreases self.record.options@.len() - i,
        {
            let pair = &self.record.options[i];
            options.push(KeyVal { key: pair.key.clone(), val: pair.val.clone() });
            i += 1;
        }
        options
    }
}

impl<'p> PollContext<'p> {
    /// Makes a handle on the download `gid` from what the engine reported of
    /// it: `found` is the engine's report, `None` where the engine has no
    /// record of the download. There is no handle for the null identifier,
    /// whatever was found, and none for a download without a record; that a
    /// download is gone is no error. Else the handle holds the report.
    pub fn acquire_handle(&self, gid: A2Gid, found: Option<DownloadRecord>) -> (handle: Option<
        DownloadHandle<'_>,
    >)
        requires
            found is Some ==> found->Some_0.files@.len() <= u32::MAX,
        ensures
            handle is None <==> spec_is_gid_null(gid) || found is None,
            handle is Some ==> Some(handle->Some_0.record()) == spec_acquire(gid, found),
    {
        if is_gid_null(gid) {
            return None;
        }
        match found {
            Some(record) => Some(DownloadHandle { record, _phantom: PhantomData }),
            None => None,
        }
    }
}

} // verus!
