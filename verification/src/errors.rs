//! Error taxonomy of the SDK client. `Connect` is fatal at startup,
//! `Transport` and `DeadlineExceeded` and `Server` belong to one call each,
//! and `StreamClosed` ends the background loop that owns the stream.

use vstd::prelude::*;

verus! {

/// What can go wrong on the way to or at the remote side.
#[derive(Clone, Copy, PartialEq, Eq, Structural, Debug)]
pub enum SdkError {
    /// The channel could not be established at startup.
    Connect,
    /// The channel is unreachable for this call.
    Transport,
    /// The per-call deadline elapsed before the remote side replied.
    DeadlineExceeded,
    /// The remote side returned a non-OK status; the code is carried.
    Server(u64),
    /// The health or watch stream has ended.
    StreamClosed,
}

impl SdkError {
    /// A rendering of the error for log lines, without `Display`.
    pub fn describe(&self) -> (r: &'static str)
        ensures
            r@ == self.spec_describe(),
    {
        match self {
            SdkError::Connect => "could not connect to the sidecar",
            SdkError::Transport => "transport failure",
            SdkError::DeadlineExceeded => "deadline exceeded",
            SdkError::Server(_) => "server returned a non-OK status",
            SdkError::StreamClosed => "stream closed",
        }
    }

    pub open spec fn spec_describe(&self) -> Seq<char> {
        match self {
            SdkError::Connect => "could not connect to the sidecar"@,
            SdkError::Transport => "transport failure"@,
            SdkError::DeadlineExceeded => "deadline exceeded"@,
            SdkError::Server(_) => "server returned a non-OK status"@,
            SdkError::StreamClosed => "stream closed"@,
        }
    }
}

} // verus!
