//! The typed facade over one shared channel: nine operations, each unary one
//! in a blocking and a deferred (receiver-returning) variant, with and
//! without per-call options. A successful response is handed to the caller
//! exactly as the remote side produced it, and every issued call is
//! accounted for on the channel with the method and payload it carried.
//! An executor hook that would merely submit a future to a transport's
//! thread pool is deliberately absent: it has no behaviour a contract
//! could state.

use vstd::prelude::*;
use crate::messages::{Empty, GameServer, GameServerView, KeyValue, Duration};
use crate::errors::SdkError;
use crate::channel::{
    Channel, CallOption, SentCall, SentRequest, call_made, next_verdict, no_deadline, exchange,
};
use crate::service::Method;
use crate::streams::{UnaryReceiver, HealthSender, HealthReceiver, WatchReceiver};

verus! {

/// What a call whose declared response is `Empty` returns.
pub open spec fn empty_outcome(ch: Channel, opt: CallOption) -> Result<Empty, SdkError> {
    match next_verdict(ch, opt) {
        Ok(u) => Ok(Empty {}),
        Err(e) => Err(e),
    }
}

/// What a state fetch returns, as a view: the channel's snapshot, untouched.
pub open spec fn state_outcome(ch: Channel, opt: CallOption) -> Result<GameServerView, SdkError> {
    match next_verdict(ch, opt) {
        Ok(u) => Ok(ch.snapshot@),
        Err(e) => Err(e),
    }
}

/// A state-fetch result, reduced to views.
pub open spec fn state_result_view(r: Result<GameServer, SdkError>) -> Result<
    GameServerView,
    SdkError,
> {
    match r {
        Ok(g) => Ok(g@),
        Err(e) => Err(e),
    }
}

/// Whether a deferred call gets off the ground at all: everything but an
/// unreachable channel resolves inside the returned receiver.
pub open spec fn starts(v: Result<(), SdkError>) -> bool {
    !(v matches Err(SdkError::Transport))
}

/// The snapshots a granted watch subscription delivers, as views.
pub open spec fn updates_view(ch: Channel) -> Seq<GameServerView> {
    ch.updates@.map_values(|g: GameServer| g@)
}

/// The call each operation issues: its wire method and request payload.
pub open spec fn ready_call() -> SentCall {
    SentCall { method: Method::Ready, request: SentRequest::Empty }
}

pub open spec fn allocate_call() -> SentCall {
    SentCall { method: Method::Allocate, request: SentRequest::Empty }
}

pub open spec fn shutdown_call() -> SentCall {
    SentCall { method: Method::Shutdown, request: SentRequest::Empty }
}

pub open spec fn health_call() -> SentCall {
    SentCall { method: Method::Health, request: SentRequest::Empty }
}

pub open spec fn get_game_server_call() -> SentCall {
    SentCall { method: Method::GetGameServer, request: SentRequest::Empty }
}

pub open spec fn watch_game_server_call() -> SentCall {
    SentCall { method: Method::WatchGameServer, request: SentRequest::Empty }
}

pub open spec fn set_label_call(req: crate::messages::KeyValueView) -> SentCall {
    SentCall { method: Method::SetLabel, request: SentRequest::KeyValue(req) }
}

pub open spec fn set_annotation_call(req: crate::messages::KeyValueView) -> SentCall {
    SentCall { method: Method::SetAnnotation, request: SentRequest::KeyValue(req) }
}

pub open spec fn reserve_call(seconds: u64) -> SentCall {
    SentCall { method: Method::Reserve, request: SentRequest::Duration(seconds) }
}

/// The client: a typed front over one channel, owned for the session.
pub struct SdkClient {
    pub channel: Channel,
}

fn duplicate_fates(v: &Vec<bool>) -> (r: Vec<bool>)
    ensures
        r@ == v@,
{
    let mut r: Vec<bool> = Vec::new();
    let mut i: usize = 0;
    while i < v.len()
        invariant
            i <= v.len(),
            r@ == v@.take(i as int),
        decreases v.len() - i,
    {
        r.push(v[i]);
        i = i + 1;
        assert(r@ =~= v@.take(i as int));
    }
    assert(r@ =~= v@);
    r
}

fn duplicate_feed(v: &Vec<GameServer>) -> (r: Vec<GameServer>)
    ensures
        r@.map_values(|g: GameServer| g@) == v@.map_values(|g: GameServer| g@),
{
    let mut r: Vec<GameServer> = Vec::new();
    let mut i: usize = 0;
    while i < v.len()
        invariant
            i <= v.len(),
            r@.len() == i,
            forall|j: int| 0 <= j < i ==> r@[j]@ == v@[j]@,
        decreases v.len() - i,
    {
        r.push(v[i].duplicate());
        i = i + 1;
    }
    assert(r@.map_values(|g: GameServer| g@) =~= v@.map_values(|g: GameServer| g@));
    r
}

impl SdkClient {
    /// A client over the given channel.
    pub fn new(channel: Channel) -> (c: Self)
        ensures
            c.channel == channel,
    {
        SdkClient { channel }
    }

    /// The startup step: a client over the channel that was established, or
    /// `Connect` when none was.
    pub fn connect(channel: Option<Channel>) -> (r: Result<Self, SdkError>)
        ensures
            channel matches Some(ch) ==> (r matches Ok(c) && c.channel == ch),
            channel is None ==> (r matches Err(e) && e == SdkError::Connect),
    {
        match channel {
            Some(ch) => Ok(SdkClient { channel: ch }),
            None => Err(SdkError::Connect),
        }
    }

    fn empty_unary(&mut self, opt: CallOption, call: Ghost<SentCall>) -> (r: Result<
        Empty,
        SdkError,
    >)
        ensures
            call_made(old(self).channel, final(self).channel, call@),
            r == empty_outcome(old(self).channel, opt),
    {
        match exchange(&mut self.channel, opt, call) {
            Ok(u) => Ok(Empty {}),
            Err(e) => Err(e),
        }
    }

    fn empty_unary_deferred(&mut self, opt: CallOption, call: Ghost<SentCall>) -> (r: Result<
        UnaryReceiver<Empty>,
        SdkError,
    >)
        ensures
            call_made(old(self).channel, final(self).channel, call@),
            starts(next_verdict(old(self).channel, opt)) ==> (r matches Ok(rx) && rx.outcome
                == empty_outcome(old(self).channel, opt)),
            !starts(next_verdict(old(self).channel, opt)) ==> (r matches Err(e) && e
                == SdkError::Transport),
    {
        match exchange(&mut self.channel, opt, call) {
            Ok(u) => Ok(UnaryReceiver { outcome: Ok(Empty {}) }),
            Err(SdkError::Transport) => Err(SdkError::Transport),
            Err(e) => Ok(UnaryReceiver { outcome: Err(e) }),
        }
    }

    /// Signals that the process is ready to receive traffic.
    pub fn ready_opt(&mut self, req: &Empty, opt: CallOption) -> (r: Result<Empty, SdkError>)
        ensures
            call_made(old(self).channel, final(self).channel, ready_call()),
            r == empty_outcome(old(self).channel, opt),
    {
        self.empty_unary(opt, Ghost(ready_call()))
    }

    /// Signals that the process is ready to receive traffic.
    pub fn ready(&mut self, req: &Empty) -> (r: Result<Empty, SdkError>)
        ensures
            call_made(old(self).channel, final(self).channel, ready_call()),
            r == empty_outcome(old(self).channel, no_deadline()),
    {
        self.ready_opt(req, CallOption::default())
    }

    /// `ready`, returning at once with a receiver for the response.
    pub fn ready_async_opt(&mut self, req: &Empty, opt: CallOption) -> (r: Result<
        UnaryReceiver<Empty>,
        SdkError,
    >)
        ensures
            call_made(old(self).channel, final(self).channel, ready_call()),
            starts(next_verdict(old(self).channel, opt)) ==> (r matches Ok(rx) && rx.outcome
                == empty_outcome(old(self).channel, opt)),
            !starts(next_verdict(old(self).channel, opt)) ==> (r matches Err(e) && e
                == SdkError::Transport),
    {
        self.empty_unary_deferred(opt, Ghost(ready_call()))
    }

    /// `ready`, returning at once with a receiver for the response.
    pub fn ready_async(&mut self, req: &Empty) -> (r: Result<UnaryReceiver<Empty>, SdkError>)
        ensures
            call_made(old(self).channel, final(self).channel, ready_call()),
            starts(next_verdict(old(self).channel, no_deadline())) ==> (r matches Ok(rx)
                && rx.outcome == empty_outcome(old(self).channel, no_deadline())),
            !starts(next_verdict(old(self).channel, no_deadline())) ==> (r matches Err(e) && e
                == SdkError::Transport),
    {
        self.ready_async_opt(req, CallOption::default())
    }

    /// Signals that the process has been claimed for a workload.
    pub fn allocate_opt(&mut self, req: &Empty, opt: CallOption) -> (r: Result<Empty, SdkError>)
        ensures
            call_made(old(self).channel, final(self).channel, allocate_call()),
            r == empty_outcome(old(self).channel, opt),
    {
        self.empty_unary(opt, Ghost(allocate_call()))
    }

    /// Signals that the process has been claimed for a workload.
    pub fn allocate(&mut self, req: &Empty) -> (r: Result<Empty, SdkError>)
        ensures
            call_made(old(self).channel, final(self).channel, allocate_call()),
            r == empty_outcome(old(self).channel, no_deadline()),
    {
        self.allocate_opt(req, CallOption::default())
    }

    /// `allocate`, returning at once with a receiver for the response.
    pub fn allocate_async_opt(&mut self, req: &Empty, opt: CallOption) -> (r: Result<
        UnaryReceiver<Empty>,
        SdkError,
    >)
        ensures
            call_made(old(self).channel, final(self).channel, allocate_call()),
            starts(next_verdict(old(self).channel, opt)) ==> (r matches Ok(rx) && rx.outcome
                == empty_outcome(old(self).channel, opt)),
            !starts(next_verdict(old(self).channel, opt)) ==> (r matches Err(e) && e
                == SdkError::Transport),
    {
        self.empty_unary_deferred(opt, Ghost(allocate_call()))
    }

    /// `allocate`, returning at once with a receiver for the response.
    pub fn allocate_async(&mut self, req: &Empty) -> (r: Result<UnaryReceiver<Empty>, SdkError>)
        ensures
            call_made(old(self).channel, final(self).channel, allocate_call()),
            starts(next_verdict(old(self).channel, no_deadline())) ==> (r matches Ok(rx)
                && rx.outcome == empty_outcome(old(self).channel, no_deadline())),
            !starts(next_verdict(old(self).channel, no_deadline())) ==> (r matches Err(e) && e
                == SdkError::Transport),
    {
        self.allocate_async_opt(req, CallOption::default())
    }

    /// Signals intent to terminate. Idempotent: the remote side accepts
    /// repeated shutdown requests.
    pub fn shutdown_opt(&mut self, req: &Empty, opt: CallOption) -> (r: Result<Empty, SdkError>)
        ensures
            call_made(old(self).channel, final(self).channel, shutdown_call()),
            r == empty_outcome(old(self).channel, opt),
    {
        self.empty_unary(opt, Ghost(shutdown_call()))
    }

    /// Signals intent to terminate. Idempotent: the remote side accepts
    /// repeated shutdown requests.
    pub fn shutdown(&mut self, req: &Empty) -> (r: Result<Empty, SdkError>)
        ensures
            call_made(old(self).channel, final(self).channel, shutdown_call()),
            r == empty_outcome(old(self).channel, no_deadline()),
    {
        self.shutdown_opt(req, CallOption::default())
    }

    /// `shutdown`, returning at once with a receiver for the response.
    pub fn shutdown_async_opt(&mut self, req: &Empty, opt: CallOption) -> (r: Result<
        UnaryReceiver<Empty>,
        SdkError,
    >)
        ensures
            call_made(old(self).channel, final(self).channel, shutdown_call()),
            starts(next_verdict(old(self).channel, opt)) ==> (r matches Ok(rx) && rx.outcome
                == empty_outcome(old(self).channel, opt)),
            !starts(next_verdict(old(self).channel, opt)) ==> (r matches Err(e) && e
                == SdkError::Transport),
    {
        self.empty_unary_deferred(opt, Ghost(shutdown_call()))
    }

    /// `shutdown`, returning at once with a receiver for the response.
    pub fn shutdown_async(&mut self, req: &Empty) -> (r: Result<UnaryReceiver<Empty>, SdkError>)
        ensures
            call_made(old(self).channel, final(self).channel, shutdown_call()),
            starts(next_verdict(old(self).channel, no_deadline())) ==> (r matches Ok(rx)
                && rx.outcome == empty_outcome(old(self).channel, no_deadline())),
            !starts(next_verdict(old(self).channel, no_deadline())) ==> (r matches Err(e) && e
                == SdkError::Transport),
    {
        self.shutdown_async_opt(req, CallOption::default())
    }

    /// Opens the client-streaming health call: a sender for heartbeats and
    /// a receiver for the acknowledgement.
    pub fn health_opt(&mut self, opt: CallOption) -> (r: Result<
        (HealthSender, HealthReceiver),
        SdkError,
    >)
        ensures
            call_made(old(self).channel, final(self).channel, health_call()),
            next_verdict(old(self).channel, opt) matches Ok(u) ==> (r matches Ok(p) && ({
                &&& p.0.fates@ == old(self).channel.heartbeat_fates@
                &&& p.0.cursor == 0
                &&& p.0.log@.len() == 0
                &&& p.1.response == Ok::<Empty, SdkError>(Empty {})
            })),
            next_verdict(old(self).channel, opt) matches Err(e) ==> (r matches Err(f) && f == e),
    {
        match exchange(&mut self.channel, opt, Ghost(health_call())) {
            Ok(u) => {
                let sender = HealthSender {
                    fates: duplicate_fates(&self.channel.heartbeat_fates),
                    cursor: 0,
                    log: Vec::new(),
                };
                let receiver = HealthReceiver { response: Ok(Empty {}) };
                Ok((sender, receiver))
            },
            Err(e) => Err(e),
        }
    }

    /// Opens the client-streaming health call with default options.
    pub fn health(&mut self) -> (r: Result<(HealthSender, HealthReceiver), SdkError>)
        ensures
            call_made(old(self).channel, final(self).channel, health_call()),
            next_verdict(old(self).channel, no_deadline()) matches Ok(u) ==> (r matches Ok(p) && ({
                &&& p.0.fates@ == old(self).channel.heartbeat_fates@
                &&& p.0.cursor == 0
                &&& p.0.log@.len() == 0
                &&& p.1.response == Ok::<Empty, SdkError>(Empty {})
            })),
            next_verdict(old(self).channel, no_deadline()) matches Err(e) ==> (r matches Err(f)
                && f == e),
    {
        self.health_opt(CallOption::default())
    }

    /// Fetches the current full state snapshot.
    pub fn get_game_server_opt(&mut self, req: &Empty, opt: CallOption) -> (r: Result<
        GameServer,
        SdkError,
    >)
        ensures
            call_made(old(self).channel, final(self).channel, get_game_server_call()),
            state_result_view(r) == state_outcome(old(self).channel, opt),
    {
        match exchange(&mut self.channel, opt, Ghost(get_game_server_call())) {
            Ok(u) => Ok(self.channel.snapshot.duplicate()),
            Err(e) => Err(e),
        }
    }

    /// Fetches the current full state snapshot.
    pub fn get_game_server(&mut self, req: &Empty) -> (r: Result<GameServer, SdkError>)
        ensures
            call_made(old(self).channel, final(self).channel, get_game_server_call()),
            state_result_view(r) == state_outcome(old(self).channel, no_deadline()),
    {
        self.get_game_server_opt(req, CallOption::default())
    }

    /// `get_game_server`, returning at once with a receiver for the response.
    pub fn get_game_server_async_opt(&mut self, req: &Empty, opt: CallOption) -> (r: Result<
        UnaryReceiver<GameServer>,
        SdkError,
    >)
        ensures
            call_made(old(self).channel, final(self).channel, get_game_server_call()),
            starts(next_verdict(old(self).channel, opt)) ==> (r matches Ok(rx)
                && state_result_view(rx.outcome) == state_outcome(old(self).channel, opt)),
            !starts(next_verdict(old(self).channel, opt)) ==> (r matches Err(e) && e
                == SdkError::Transport),
    {
        match exchange(&mut self.channel, opt, Ghost(get_game_server_call())) {
            Ok(u) => Ok(
                UnaryReceiver { outcome: Ok(self.channel.snapshot.duplicate()) },
            ),
            Err(SdkError::Transport) => Err(SdkError::Transport),
            Err(e) => Ok(UnaryReceiver { outcome: Err(e) }),
        }
    }

    /// `get_game_server`, returning at once with a receiver for the response.
    pub fn get_game_server_async(&mut self, req: &Empty) -> (r: Result<
        UnaryReceiver<GameServer>,
        SdkError,
    >)
        ensures
            call_made(old(self).channel, final(self).channel, get_game_server_call()),
            starts(next_verdict(old(self).channel, no_deadline())) ==> (r matches Ok(rx)
                && state_result_view(rx.outcome) == state_outcome(
                old(self).channel,
                no_deadline(),
            )),
            !starts(next_verdict(old(self).channel, no_deadline())) ==> (r matches Err(e) && e
                == SdkError::Transport),
    {
        self.get_game_server_async_opt(req, CallOption::default())
    }

    /// Opens the server-streaming watch subscription: a lazy sequence of
    /// snapshots, one per remote-side change, delivered in order.
    pub fn watch_game_server_opt(&mut self, req: &Empty, opt: CallOption) -> (r: Result<
        WatchReceiver,
        SdkError,
    >)
        ensures
            call_made(old(self).channel, final(self).channel, watch_game_server_call()),
            next_verdict(old(self).channel, opt) matches Ok(u) ==> (r matches Ok(rx)
                && rx.remaining() == updates_view(old(self).channel)),
            next_verdict(old(self).channel, opt) matches Err(e) ==> (r matches Err(f) && f == e),
    {
        match exchange(&mut self.channel, opt, Ghost(watch_game_server_call())) {
            Ok(u) => {
                let rx = WatchReceiver { feed: duplicate_feed(&self.channel.updates), cursor: 0 };
                assert(rx.remaining() =~= updates_view(old(self).channel));
                Ok(rx)
            },
            Err(e) => Err(e),
        }
    }

    /// Opens the server-streaming watch subscription with default options.
    pub fn watch_game_server(&mut self, req: &Empty) -> (r: Result<WatchReceiver, SdkError>)
        ensures
            call_made(old(self).channel, final(self).channel, watch_game_server_call()),
            next_verdict(old(self).channel, no_deadline()) matches Ok(u) ==> (r matches Ok(rx)
                && rx.remaining() == updates_view(old(self).channel)),
            next_verdict(old(self).channel, no_deadline()) matches Err(e) ==> (r matches Err(f)
                && f == e),
    {
        self.watch_game_server_opt(req, CallOption::default())
    }

    /// Applies a single label update; last write wins on the remote side.
    pub fn set_label_opt(&mut self, req: &KeyValue, opt: CallOption) -> (r: Result<
        Empty,
        SdkError,
    >)
        ensures
            call_made(old(self).channel, final(self).channel, set_label_call(req@)),
            r == empty_outcome(old(self).channel, opt),
    {
        self.empty_unary(opt, Ghost(set_label_call(req@)))
    }

    /// Applies a single label update; last write wins on the remote side.
    pub fn set_label(&mut self, req: &KeyValue) -> (r: Result<Empty, SdkError>)
        ensures
            call_made(old(self).channel, final(self).channel, set_label_call(req@)),
            r == empty_outcome(old(self).channel, no_deadline()),
    {
        self.set_label_opt(req, CallOption::default())
    }

    /// `set_label`, returning at once with a receiver for the response.
    pub fn set_label_async_opt(&mut self, req: &KeyValue, opt: CallOption) -> (r: Result<
        UnaryReceiver<Empty>,
        SdkError,
    >)
        ensures
            call_made(old(self).channel, final(self).channel, set_label_call(req@)),
            starts(next_verdict(old(self).channel, opt)) ==> (r matches Ok(rx) && rx.outcome
                == empty_outcome(old(self).channel, opt)),
            !starts(next_verdict(old(self).channel, opt)) ==> (r matches Err(e) && e
                == SdkError::Transport),
    {
        self.empty_unary_deferred(opt, Ghost(set_label_call(req@)))
    }

    /// `set_label`, returning at once with a receiver for the response.
    pub fn set_label_async(&mut self, req: &KeyValue) -> (r: Result<UnaryReceiver<Empty>, SdkError>)
        ensures
            call_made(old(self).channel, final(self).channel, set_label_call(req@)),
            starts(next_verdict(old(self).channel, no_deadline())) ==> (r matches Ok(rx)
                && rx.outcome == empty_outcome(old(self).channel, no_deadline())),
            !starts(next_verdict(old(self).channel, no_deadline())) ==> (r matches Err(e) && e
                == SdkError::Transport),
    {
        self.set_label_async_opt(req, CallOption::default())
    }

    /// Applies a single annotation update; last write wins on the remote side.
    pub fn set_annotation_opt(&mut self, req: &KeyValue, opt: CallOption) -> (r: Result<
        Empty,
        SdkError,
    >)
        ensures
            call_made(old(self).channel, final(self).channel, set_annotation_call(req@)),
            r == empty_outcome(old(self).channel, opt),
    {
        self.empty_unary(opt, Ghost(set_annotation_call(req@)))
    }

    /// Applies a single annotation update; last write wins on the remote side.
    pub fn set_annotation(&mut self, req: &KeyValue) -> (r: Result<Empty, SdkError>)
        ensures
            call_made(old(self).channel, final(self).channel, set_annotation_call(req@)),
            r == empty_outcome(old(self).channel, no_deadline()),
    {
        self.set_annotation_opt(req, CallOption::default())
    }

    /// `set_annotation`, returning at once with a receiver for the response.
    pub fn set_annotation_async_opt(&mut self, req: &KeyValue, opt: CallOption) -> (r: Result<
        UnaryReceiver<Empty>,
        SdkError,
    >)
        ensures
            call_made(old(self).channel, final(self).channel, set_annotation_call(req@)),
            starts(next_verdict(old(self).channel, opt)) ==> (r matches Ok(rx) && rx.outcome
                == empty_outcome(old(self).channel, opt)),
            !starts(next_verdict(old(self).channel, opt)) ==> (r matches Err(e) && e
                == SdkError::Transport),
    {
        self.empty_unary_deferred(opt, Ghost(set_annotation_call(req@)))
    }

    /// `set_annotation`, returning at once with a receiver for the response.
    pub fn set_annotation_async(&mut self, req: &KeyValue) -> (r: Result<
        UnaryReceiver<Empty>,
        SdkError,
    >)
        ensures
            call_made(old(self).channel, final(self).channel, set_annotation_call(req@)),
            starts(next_verdict(old(self).channel, no_deadline())) ==> (r matches Ok(rx)
                && rx.outcome == empty_outcome(old(self).channel, no_deadline())),
            !starts(next_verdict(old(self).channel, no_deadline())) ==> (r matches Err(e) && e
                == SdkError::Transport),
    {
        self.set_annotation_async_opt(req, CallOption::default())
    }

    /// Requests a temporary hold of the given length; renewable by repeated
    /// calls.
    pub fn reserve_opt(&mut self, req: &Duration, opt: CallOption) -> (r: Result<Empty, SdkError>)
        ensures
            call_made(old(self).channel, final(self).channel, reserve_call(req.seconds)),
            r == empty_outcome(old(self).channel, opt),
    {
        self.empty_unary(opt, Ghost(reserve_call(req.seconds)))
    }

    /// Requests a temporary hold of the given length; renewable by repeated
    /// calls.
    pub fn reserve(&mut self, req: &Duration) -> (r: Result<Empty, SdkError>)
        ensures
            call_made(old(self).channel, final(self).channel, reserve_call(req.seconds)),
            r == empty_outcome(old(self).channel, no_deadline()),
    {
        self.reserve_opt(req, CallOption::default())
    }

    /// `reserve`, returning at once with a receiver for the response.
    pub fn reserve_async_opt(&mut self, req: &Duration, opt: CallOption) -> (r: Result<
        UnaryReceiver<Empty>,
        SdkError,
    >)
        ensures
            call_made(old(self).channel, final(self).channel, reserve_call(req.seconds)),
            starts(next_verdict(old(self).channel, opt)) ==> (r matches Ok(rx) && rx.outcome
                == empty_outcome(old(self).channel, opt)),
            !starts(next_verdict(old(self).channel, opt)) ==> (r matches Err(e) && e
                == SdkError::Transport),
    {
        self.empty_unary_deferred(opt, Ghost(reserve_call(req.seconds)))
    }

    /// `reserve`, returning at once with a receiver for the response.
    pub fn reserve_async(&mut self, req: &Duration) -> (r: Result<UnaryReceiver<Empty>, SdkError>)
        ensures
            call_made(old(self).channel, final(self).channel, reserve_call(req.seconds)),
            starts(next_verdict(old(self).channel, no_deadline())) ==> (r matches Ok(rx)
                && rx.outcome == empty_outcome(old(self).channel, no_deadline())),
            !starts(next_verdict(old(self).channel, no_deadline())) ==> (r matches Err(e) && e
                == SdkError::Transport),
    {
        self.reserve_async_opt(req, CallOption::default())
    }
}

} // verus!
