//! The download daemon: what is asked of it, what it reports, and when a
//! report means that the download is complete.

use vstd::prelude::*;
use vstd::string::*;
use crate::text::same_text;

verus! {

/// Where the daemon listens.
pub const ARIA2_URL: &'static str = "http://localhost:6800/jsonrpc";

/// The identifier that every request carries.
pub const REQUEST_ID: &'static str = "w3n9";

/// A request to the daemon.
#[derive(Debug)]
pub enum Call {
    /// Download `uri` into directory `dir` as file `out`, sending `referer`.
    AddUri { uri: String, dir: String, out: String, referer: String },
    /// Apply `method` to the download with handle `gid`.
    OnHandle { method: String, gid: String },
}

/// Whether `call` applies `method` to handle `gid`.
pub open spec fn is_on_handle(call: Call, method: Seq<char>, gid: Seq<char>) -> bool {
    &&& call matches Call::OnHandle { method: m, gid: g }
    &&& m@ == method
    &&& g@ == gid
}

/// The request to download `uri` into directory `dir` as file `out`; an
/// empty `out` leaves the name to the daemon. Any referer is sent.
pub fn download(uri: &str, dir: &str, out: &str) -> (call: Call)
    ensures
        call is AddUri,
        call->uri@ == uri@,
        call->dir@ == dir@,
        call->out@ == out@,
        call->referer@ == "*"@,
{
    Call::AddUri {
        uri: String::from_str(uri),
        dir: String::from_str(dir),
        out: String::from_str(out),
        referer: String::from_str("*"),
    }
}

/// The request that applies `method` to the download with handle `uid`.
pub fn jsonrpc(method: &str, uid: &str) -> (call: Call)
    ensures
        is_on_handle(call, method@, uid@),
{
    Call::OnHandle { method: String::from_str(method), gid: String::from_str(uid) }
}

/// The request to pause a download.
pub fn pause(uid: &str) -> (call: Call)
    ensures
        is_on_handle(call, "aria2.pause"@, uid@),
{
    jsonrpc("aria2.pause", uid)
}

/// The request to resume a paused download.
pub fn unpause(uid: &str) -> (call: Call)
    ensures
        is_on_handle(call, "aria2.unpause"@, uid@),
{
    jsonrpc("aria2.unpause", uid)
}

/// The request to drop a download.
pub fn remove(uid: &str) -> (call: Call)
    ensures
        is_on_handle(call, "aria2.remove"@, uid@),
{
    jsonrpc("aria2.remove", uid)
}

/// The request for the status of a download.
pub fn status(uid: &str) -> (call: Call)
    ensures
        is_on_handle(call, "aria2.tellStatus"@, uid@),
{
    jsonrpc("aria2.tellStatus", uid)
}

/// What the daemon says of one download: its state, and the bytes it has
/// and the bytes it wants, both as decimal text.
#[derive(Debug)]
pub struct Status {
    pub status: String,
    pub completed_length: String,
    pub total_length: String,
}

/// A download is complete when the daemon says so, or when the bytes it
/// has are written exactly as the bytes it wants.
pub open spec fn transfer_complete(
    status: Seq<char>,
    completed: Seq<char>,
    total: Seq<char>,
) -> bool {
    status == "complete"@ || completed == total
}

impl Status {
    /// Whether this report means that the download is complete.
    pub fn is_complete(&self) -> (done: bool)
        ensures
            done == transfer_complete(self.status@, self.completed_length@, self.total_length@),
    {
        same_text(self.status.as_str(), "complete") || self.completed_length
            == self.total_length
    }
}

} // verus!
