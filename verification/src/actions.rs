//! Adding downloads: what the session asks of the engine, and what the
//! engine's answer means.
//!
//! Whether an address, a file or an option is any good is for the engine to
//! say. This layer passes the inputs on as they are and tells success, the
//! answer `0`, from failure, any other answer, whose code it hands on unread.

use crate::errors::{AriaError, Result};
use crate::ffi::KeyVal;
use crate::gid::{spec_is_gid_null, A2Gid};
use crate::session::Session;
use vstd::prelude::*;

verus! {

/// The queue position that lets the engine append a download.
pub const POSITION_LAST: i32 = -1;

/// Where a new download comes from.
#[derive(Debug)]
pub enum AddSource {
    /// Addresses that all lead to the same file.
    Uris(Vec<String>),
    /// The path of a metalink file, which may describe several downloads.
    Metalink(String),
    /// The path of a torrent file.
    Torrent(String),
    /// The path of a torrent file, and web seed addresses for it.
    TorrentWithWebseedUris(String, Vec<String>),
}

/// One request to add a download.
#[derive(Debug)]
pub struct AddRequest {
    pub source: AddSource,
    /// Options for this download alone.
    pub options: Vec<KeyVal>,
    /// The place in the engine's queue; negative for the end.
    pub position: i32,
}

/// What the engine's answer to an add request means for one identifier.
pub open spec fn spec_add_result(code: i32, gid: A2Gid) -> Result<A2Gid> {
    if code == 0 {
        Ok(gid)
    } else {
        Err(AriaError::AddError(code))
    }
}

/// Whether an answer to an add request is one that the engine gives: with
/// success it names a real download, never the null identifier.
pub open spec fn engine_add_answer(code: i32, gid: A2Gid) -> bool {
    code == 0 ==> !spec_is_gid_null(gid)
}

/// Reads the engine's answer to a request that adds one download: with the
/// code `0` the identifier that the engine assigned, else the engine's code
/// as an error.
pub fn add_result(code: i32, gid: A2Gid) -> (result: Result<A2Gid>)
    ensures
        result == spec_add_result(code, gid),
        result is Ok <==> code == 0,
        code == 0 ==> result == Ok::<A2Gid, AriaError>(gid),
        code != 0 ==> result == Err::<A2Gid, AriaError>(AriaError::AddError(code)),
{
    if code == 0 {
        Ok(gid)
    } else {
        Err(AriaError::AddError(code))
    }
}

/// Reads the engine's answer to a request that may add several downloads:
/// with the code `0` all identifiers that the engine assigned, in its order,
/// else the engine's code as an error.
pub fn add_results(code: i32, gids: Vec<A2Gid>) -> (result: Result<Vec<A2Gid>>)
    ensures
        result is Ok <==> code == 0,
        code == 0 ==> result->Ok_0 == gids,
        code != 0 ==> result->Err_0 == AriaError::AddError(code),
{
    if code == 0 {
        Ok(gids)
    } else {
        Err(AriaError::AddError(code))
    }
}

/// An identifier that a successful add hands out is never the null one, for
/// every answer that the engine gives.
pub proof fn lemma_added_gid_not_null(code: i32, gid: A2Gid)
    requires
        engine_add_answer(code, gid),
    ensures
        spec_add_result(code, gid) is Ok ==> !spec_is_gid_null(spec_add_result(code, gid)->Ok_0),
        spec_add_result(code, gid) is Ok ==> spec_add_result(code, gid)->Ok_0 != 0,
{
}

impl<'ctx> Session<'ctx> {
    /// Asks for a download from one address, at the end of the queue, with
    /// no options of its own.
    pub fn add_uri(&mut self, uri: &str) -> (request: AddRequest)
        ensures
            final(self)@ == old(self)@,
            request.source matches AddSource::Uris(uris) && uris@.len() == 1 && uris@[0]@ == uri@,
            request.options@.len() == 0,
            request.position == -1,
    {
        let mut uris: Vec<String> = Vec::new();
        uris.push(uri.to_owned());
        AddRequest { source: AddSource::Uris(uris), options: Vec::new(), position: POSITION_LAST }
    }

    /// Asks for the downloads that a metalink file describes, at the end of
    /// the queue, with no options of their own.
    pub fn add_metalink(&mut self, file: &str) -> (request: AddRequest)
        ensures
            final(self)@ == old(self)@,
            request.source matches AddSource::Metalink(path) && path@ == file@,
            request.options@.len() == 0,
            request.position == -1,
    {
        AddRequest {
            source: AddSource::Metalink(file.to_owned()),
            options: Vec::new(),
            position: POSITION_LAST,
        }
    }

    /// Asks for the download of a torrent file, at the end of the queue,
    /// with no options of its own.
    pub fn add_torrent(&mut self, file: &str) -> (request: AddRequest)
        ensures
            final(self)@ == old(self)@,
            request.source matches AddSource::Torrent(path) && path@ == file@,
            request.options@.len() == 0,
            request.position == -1,
    {
        AddRequest {
            source: AddSource::Torrent(file.to_owned()),
            options: Vec::new(),
            position: POSITION_LAST,
        }
    }

    /// Asks for the download of a torrent file with web seeds, at the end of
    /// the queue, with no options of its own. The web seeds are passed on
    /// all, as they are and in their order.
    pub fn add_torrent_with_webseed_uris(&mut self, file: &str, webseeds: &Vec<String>) -> (request:
        AddRequest)
        ensures
            final(self)@ == old(self)@,
            request.source matches AddSource::TorrentWithWebseedUris(path, seeds) && path@ == file@
                && seeds@ == webseeds@,
            request.options@.len() == 0,
            request.position == -1,
    {
        let mut seeds: Vec<String> = Vec::new();
        let mut i: usize = 0;
        while i < webseeds.len()
            invariant
                i <= webseeds@.len(),
                seeds@ == webseeds@.take(i as int),
            decreases webseeds@.len() - i,
        {
            seeds.push(webseeds[i].clone());
            i += 1;
        }
        AddRequest {
            source: AddSource::TorrentWithWebseedUris(file.to_owned(), seeds),
            options: Vec::new(),
            position: POSITION_LAST,
        }
    }
}

} // verus!
