//! The transport model the client is verified against. A channel is the
//! remote side as one call stream: a script of replies served in order, the
//! state snapshot the remote would report, the snapshots a watch subscription
//! would deliver, and the fate of each heartbeat on a health stream. Every
//! call consumes the next scripted reply; a channel whose script is spent
//! behaves as unreachable.

use vstd::prelude::*;
use crate::messages::{GameServer, KeyValueView};
use crate::errors::SdkError;
use crate::service::Method;

verus! {

/// How the remote side answers one call.
#[derive(Clone, Copy, PartialEq, Eq, Structural, Debug)]
pub enum Verdict {
    /// The call succeeds and the declared response is returned.
    Grant,
    /// The remote side returns a non-OK status with this code.
    Deny(u64),
    /// The channel is unreachable for this call.
    Unreachable,
}

/// One scripted reply: its verdict and how long the remote side takes.
#[derive(Clone, Copy, PartialEq, Eq, Structural, Debug)]
pub struct ScriptedReply {
    pub verdict: Verdict,
    pub latency_ms: u64,
}

/// Per-call options; only the deadline is modelled.
#[derive(Clone, Copy, PartialEq, Eq, Structural, Debug)]
pub struct CallOption {
    pub timeout_ms: Option<u64>,
}

impl CallOption {
    /// A per-call deadline in milliseconds.
    pub fn with_timeout(ms: u64) -> (r: CallOption)
        ensures
            r == (CallOption { timeout_ms: Some(ms) }),
    {
        CallOption { timeout_ms: Some(ms) }
    }
}

impl Default for CallOption {
    /// The default option carries no deadline.
    fn default() -> (r: Self)
        ensures
            r == no_deadline(),
    {
        CallOption { timeout_ms: None }
    }
}

pub open spec fn no_deadline() -> CallOption {
    CallOption { timeout_ms: None }
}

/// The request payload of one issued call, by view.
pub enum SentRequest {
    Empty,
    KeyValue(KeyValueView),
    Duration(u64),
}

/// One call as the client issued it: the wire method it went out under and
/// the request payload it carried.
pub struct SentCall {
    pub method: Method,
    pub request: SentRequest,
}

/// The channel: the remote side of one client, scripted.
pub struct Channel {
    /// The reply to each call, in call order.
    pub script: Vec<ScriptedReply>,
    /// How many scripted replies have been consumed already.
    pub served: usize,
    /// The snapshot a granted state fetch returns.
    pub snapshot: GameServer,
    /// The snapshots a granted watch subscription delivers, in order.
    pub updates: Vec<GameServer>,
    /// Whether each heartbeat on a granted health stream is accepted,
    /// in send order; a heartbeat past the end finds the stream closed.
    pub heartbeat_fates: Vec<bool>,
    /// Every call issued on this channel so far, in order, with the wire
    /// method and request payload it carried.
    pub sent: Ghost<Seq<SentCall>>,
}

impl Channel {
    /// A channel that will serve the given script against the given
    /// remote-side state.
    pub fn new(
        script: Vec<ScriptedReply>,
        snapshot: GameServer,
        updates: Vec<GameServer>,
        heartbeat_fates: Vec<bool>,
    ) -> (r: Channel)
        ensures
            r.script == script,
            r.served == 0,
            r.snapshot == snapshot,
            r.updates == updates,
            r.heartbeat_fates == heartbeat_fates,
            r.sent@ == Seq::<SentCall>::empty(),
    {
        Channel { script, served: 0, snapshot, updates, heartbeat_fates, sent: Ghost(Seq::empty()) }
    }
}

/// Whether a scripted reply still waits to be served.
pub open spec fn pending(ch: Channel) -> bool {
    ch.served < ch.script@.len()
}

/// What the next call on `ch` with options `opt` comes back with, before the
/// response payload is attached: the reply is missing or late or denied, or
/// the call is granted.
pub open spec fn next_verdict(ch: Channel, opt: CallOption) -> Result<(), SdkError> {
    if !pending(ch) {
        Err(SdkError::Transport)
    } else {
        let reply = ch.script@[ch.served as int];
        if deadline_elapsed(reply, opt) {
            Err(SdkError::DeadlineExceeded)
        } else {
            match reply.verdict {
                Verdict::Grant => Ok(()),
                Verdict::Deny(code) => Err(SdkError::Server(code)),
                Verdict::Unreachable => Err(SdkError::Transport),
            }
        }
    }
}

/// A reply misses the caller's deadline when it takes longer than the
/// deadline allows; without a deadline no reply is late.
pub open spec fn deadline_elapsed(reply: ScriptedReply, opt: CallOption) -> bool {
    match opt.timeout_ms {
        Some(limit) => reply.latency_ms > limit,
        None => false,
    }
}

/// The channel after one call: the next scripted reply, if any, is consumed;
/// nothing else changes.
pub open spec fn advance(ch: Channel) -> Channel {
    if pending(ch) {
        Channel { served: (ch.served + 1) as usize, ..ch }
    } else {
        ch
    }
}

/// How one issued call relates the channel before it to the channel after
/// it: the next scripted reply, if any, is consumed, the call joins the
/// record of what went out, and nothing else changes.
pub open spec fn call_made(pre: Channel, post: Channel, call: SentCall) -> bool {
    &&& post.script == pre.script
    &&& post.served == advance(pre).served
    &&& post.snapshot == pre.snapshot
    &&& post.updates == pre.updates
    &&& post.heartbeat_fates == pre.heartbeat_fates
    &&& post.sent@ == pre.sent@.push(call)
}

/// Serves one call on the channel: consumes the next scripted reply and
/// decides the verdict. The typed client methods attach their response
/// payloads to the `Ok` case.
pub(crate) fn exchange(ch: &mut Channel, opt: CallOption, call: Ghost<SentCall>) -> (r: Result<
    (),
    SdkError,
>)
    ensures
        call_made(*old(ch), *final(ch), call@),
        r == next_verdict(*old(ch), opt),
{
    proof {
        ch.sent@ = ch.sent@.push(call@);
    }
    if ch.served < ch.script.len() {
        let reply = ch.script[ch.served];
        ch.served = ch.served + 1;
        let late = match opt.timeout_ms {
            Some(limit) => reply.latency_ms > limit,
            None => false,
        };
        if late {
            Err(SdkError::DeadlineExceeded)
        } else {
            match reply.verdict {
                Verdict::Grant => Ok(()),
                Verdict::Deny(code) => Err(SdkError::Server(code)),
                Verdict::Unreachable => Err(SdkError::Transport),
            }
        }
    } else {
        Err(SdkError::Transport)
    }
}

} // verus!
