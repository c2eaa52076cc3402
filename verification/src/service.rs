//! The service side: the nine wire methods with their names and call
//! shapes, the capability set any concrete sidecar implementation must
//! satisfy, and the registration step that binds a backend to a servable
//! dispatch unit.

use vstd::prelude::*;
use crate::messages::{Empty, GameServer, KeyValue, Duration};
use crate::errors::SdkError;

verus! {

/// Status code a dispatcher returns for a request whose payload does not
/// match the method's declared request type.
pub const INVALID_ARGUMENT: u64 = 3;

/// The nine wire methods of the SDK service.
#[derive(Clone, Copy, PartialEq, Eq, Structural, Debug)]
pub enum Method {
    Ready,
    Allocate,
    Shutdown,
    Health,
    GetGameServer,
    WatchGameServer,
    SetLabel,
    SetAnnotation,
    Reserve,
}

/// The three call shapes the transport distinguishes.
#[derive(Clone, Copy, PartialEq, Eq, Structural, Debug)]
pub enum CallKind {
    Unary,
    ClientStreaming,
    ServerStreaming,
}

/// A request payload, as the dispatcher receives it.
#[derive(Clone, Debug)]
pub enum Request {
    Empty(Empty),
    KeyValue(KeyValue),
    Duration(Duration),
}

/// A response payload, as a backend produces it.
#[derive(Clone, Debug)]
pub enum Response {
    Empty(Empty),
    GameServer(GameServer),
}

pub open spec fn spec_method_name(m: Method) -> Seq<char> {
    match m {
        Method::Ready => "/stable.agones.dev.sdk.SDK/Ready"@,
        Method::Allocate => "/stable.agones.dev.sdk.SDK/Allocate"@,
        Method::Shutdown => "/stable.agones.dev.sdk.SDK/Shutdown"@,
        Method::Health => "/stable.agones.dev.sdk.SDK/Health"@,
        Method::GetGameServer => "/stable.agones.dev.sdk.SDK/GetGameServer"@,
        Method::WatchGameServer => "/stable.agones.dev.sdk.SDK/WatchGameServer"@,
        Method::SetLabel => "/stable.agones.dev.sdk.SDK/SetLabel"@,
        Method::SetAnnotation => "/stable.agones.dev.sdk.SDK/SetAnnotation"@,
        Method::Reserve => "/stable.agones.dev.sdk.SDK/Reserve"@,
    }
}

pub open spec fn spec_method_kind(m: Method) -> CallKind {
    match m {
        Method::Health => CallKind::ClientStreaming,
        Method::WatchGameServer => CallKind::ServerStreaming,
        _ => CallKind::Unary,
    }
}

/// Whether a request payload has the shape the method declares.
pub open spec fn request_matches(m: Method, req: Request) -> bool {
    match m {
        Method::SetLabel | Method::SetAnnotation => req matches Request::KeyValue(_),
        Method::Reserve => req matches Request::Duration(_),
        _ => req matches Request::Empty(_),
    }
}

/// One backend invocation, as the capability set's abstract history
/// records it: the capability reached, with the payload it received.
pub enum Invocation {
    Ready,
    Allocate,
    Shutdown,
    Health(nat),
    GetGameServer,
    WatchGameServer,
    SetLabel(crate::messages::KeyValueView),
    SetAnnotation(crate::messages::KeyValueView),
    Reserve(u64),
}

/// The invocation a matching unary request owes: the method's own
/// capability, with the unwrapped payload.
pub open spec fn unary_invocation(m: Method, req: Request) -> Invocation {
    match (m, req) {
        (Method::Ready, _) => Invocation::Ready,
        (Method::Allocate, _) => Invocation::Allocate,
        (Method::Shutdown, _) => Invocation::Shutdown,
        (Method::GetGameServer, _) => Invocation::GetGameServer,
        (Method::SetLabel, Request::KeyValue(kv)) => Invocation::SetLabel(kv@),
        (Method::SetAnnotation, Request::KeyValue(kv)) => Invocation::SetAnnotation(kv@),
        (Method::Reserve, Request::Duration(d)) => Invocation::Reserve(d.seconds),
        _ => arbitrary(),
    }
}

/// Whether a response payload has the shape the method declares.
pub open spec fn response_matches(m: Method, resp: Response) -> bool {
    match m {
        Method::GetGameServer | Method::WatchGameServer => resp matches Response::GameServer(_),
        _ => resp matches Response::Empty(_),
    }
}

/// The wire name of a method.
pub fn method_name(m: Method) -> (r: &'static str)
    ensures
        r@ == spec_method_name(m),
{
    match m {
        Method::Ready => "/stable.agones.dev.sdk.SDK/Ready",
        Method::Allocate => "/stable.agones.dev.sdk.SDK/Allocate",
        Method::Shutdown => "/stable.agones.dev.sdk.SDK/Shutdown",
        Method::Health => "/stable.agones.dev.sdk.SDK/Health",
        Method::GetGameServer => "/stable.agones.dev.sdk.SDK/GetGameServer",
        Method::WatchGameServer => "/stable.agones.dev.sdk.SDK/WatchGameServer",
        Method::SetLabel => "/stable.agones.dev.sdk.SDK/SetLabel",
        Method::SetAnnotation => "/stable.agones.dev.sdk.SDK/SetAnnotation",
        Method::Reserve => "/stable.agones.dev.sdk.SDK/Reserve",
    }
}

/// The call shape of a method.
pub fn method_kind(m: Method) -> (r: CallKind)
    ensures
        r == spec_method_kind(m),
{
    match m {
        Method::Health => CallKind::ClientStreaming,
        Method::WatchGameServer => CallKind::ServerStreaming,
        _ => CallKind::Unary,
    }
}

/// The capability set of a sidecar implementation. The concrete behaviour
/// lives in each backend; the streaming calls take and return their whole
/// streams as values. Each backend carries an abstract history of the
/// invocations it has served, and every capability accounts for its own:
/// that is what lets a dispatcher prove it reached the right one with the
/// payload unmodified.
pub trait Sdk {
    /// The invocations this backend has served, in order.
    spec fn invocations(&self) -> Seq<Invocation>;

    fn ready(&mut self, req: Empty) -> (r: Result<Empty, SdkError>)
        ensures
            final(self).invocations() == old(self).invocations().push(Invocation::Ready),
    ;

    fn allocate(&mut self, req: Empty) -> (r: Result<Empty, SdkError>)
        ensures
            final(self).invocations() == old(self).invocations().push(Invocation::Allocate),
    ;

    fn shutdown(&mut self, req: Empty) -> (r: Result<Empty, SdkError>)
        ensures
            final(self).invocations() == old(self).invocations().push(Invocation::Shutdown),
    ;

    fn health(&mut self, heartbeats: Vec<Empty>) -> (r: Result<Empty, SdkError>)
        ensures
            final(self).invocations() == old(self).invocations().push(
                Invocation::Health(heartbeats@.len()),
            ),
    ;

    fn get_game_server(&mut self, req: Empty) -> (r: Result<GameServer, SdkError>)
        ensures
            final(self).invocations() == old(self).invocations().push(Invocation::GetGameServer),
    ;

    fn watch_game_server(&mut self, req: Empty) -> (r: Result<Vec<GameServer>, SdkError>)
        ensures
            final(self).invocations() == old(self).invocations().push(
                Invocation::WatchGameServer,
            ),
    ;

    fn set_label(&mut self, req: KeyValue) -> (r: Result<Empty, SdkError>)
        ensures
            final(self).invocations() == old(self).invocations().push(Invocation::SetLabel(req@)),
    ;

    fn set_annotation(&mut self, req: KeyValue) -> (r: Result<Empty, SdkError>)
        ensures
            final(self).invocations() == old(self).invocations().push(
                Invocation::SetAnnotation(req@),
            ),
    ;

    fn reserve(&mut self, req: Duration) -> (r: Result<Empty, SdkError>)
        ensures
            final(self).invocations() == old(self).invocations().push(
                Invocation::Reserve(req.seconds),
            ),
    ;
}

/// A servable unit: a backend bound to the nine wire methods.
pub struct Service<S> {
    pub backend: S,
}

/// Binds a backend to the wire methods, producing a servable unit.
pub fn create_sdk<S: Sdk>(s: S) -> (svc: Service<S>)
    ensures
        svc.backend == s,
{
    Service { backend: s }
}

impl<S: Sdk> Service<S> {
    /// Dispatches one unary call to the backend capability registered under
    /// the method: a matching request reaches exactly that capability, with
    /// its unwrapped payload. A payload of the wrong shape for the method,
    /// or a method that is not unary, never reaches the backend: it is
    /// answered with `INVALID_ARGUMENT` and the backend is untouched.
    pub fn handle_unary(&mut self, m: Method, req: Request) -> (r: Result<Response, SdkError>)
        ensures
            request_matches(m, req) && spec_method_kind(m) == CallKind::Unary
                ==> final(self).backend.invocations()
                == old(self).backend.invocations().push(unary_invocation(m, req)),
            !(request_matches(m, req) && spec_method_kind(m) == CallKind::Unary)
                ==> r == Err::<Response, SdkError>(SdkError::Server(INVALID_ARGUMENT))
                && final(self).backend == old(self).backend,
            r matches Ok(resp) ==> response_matches(m, resp),
    {
        match (m, req) {
            (Method::Ready, Request::Empty(e)) => match self.backend.ready(e) {
                Ok(resp) => Ok(Response::Empty(resp)),
                Err(err) => Err(err),
            },
            (Method::Allocate, Request::Empty(e)) => match self.backend.allocate(e) {
                Ok(resp) => Ok(Response::Empty(resp)),
                Err(err) => Err(err),
            },
            (Method::Shutdown, Request::Empty(e)) => match self.backend.shutdown(e) {
                Ok(resp) => Ok(Response::Empty(resp)),
                Err(err) => Err(err),
            },
            (Method::GetGameServer, Request::Empty(e)) => match self.backend.get_game_server(e) {
                Ok(resp) => Ok(Response::GameServer(resp)),
                Err(err) => Err(err),
            },
            (Method::SetLabel, Request::KeyValue(kv)) => match self.backend.set_label(kv) {
                Ok(resp) => Ok(Response::Empty(resp)),
                Err(err) => Err(err),
            },
            (Method::SetAnnotation, Request::KeyValue(kv)) => match self.backend.set_annotation(
                kv,
            ) {
                Ok(resp) => Ok(Response::Empty(resp)),
                Err(err) => Err(err),
            },
            (Method::Reserve, Request::Duration(d)) => match self.backend.reserve(d) {
                Ok(resp) => Ok(Response::Empty(resp)),
                Err(err) => Err(err),
            },
            _ => Err(SdkError::Server(INVALID_ARGUMENT)),
        }
    }

    /// Dispatches the client-streaming health call: the whole heartbeat
    /// stream goes to the health capability, whose acknowledgement comes
    /// back.
    pub fn handle_health(&mut self, heartbeats: Vec<Empty>) -> (r: Result<Empty, SdkError>)
        ensures
            final(self).backend.invocations() == old(self).backend.invocations().push(
                Invocation::Health(heartbeats@.len()),
            ),
    {
        self.backend.health(heartbeats)
    }

    /// Dispatches the server-streaming watch call: the watch capability's
    /// snapshot stream comes back whole.
    pub fn handle_watch(&mut self, req: Empty) -> (r: Result<Vec<GameServer>, SdkError>)
        ensures
            final(self).backend.invocations() == old(self).backend.invocations().push(
                Invocation::WatchGameServer,
            ),
    {
        self.backend.watch_game_server(req)
    }
}

/// A backend that records which capabilities were invoked, in order, and
/// grants every call: the test double of the capability set.
pub struct RecordingSdk {
    pub calls: Vec<Method>,
    pub snapshot: GameServer,
    pub updates: Vec<GameServer>,
    pub history: Ghost<Seq<Invocation>>,
}

impl RecordingSdk {
    /// A fresh recording backend over the given remote-side state.
    pub fn new(snapshot: GameServer, updates: Vec<GameServer>) -> (r: RecordingSdk)
        ensures
            r.calls@.len() == 0,
            r.invocations() == Seq::<Invocation>::empty(),
            r.snapshot == snapshot,
            r.updates == updates,
    {
        RecordingSdk { calls: Vec::new(), snapshot, updates, history: Ghost(Seq::empty()) }
    }
}

impl Sdk for RecordingSdk {
    open spec fn invocations(&self) -> Seq<Invocation> {
        self.history@
    }

    fn ready(&mut self, req: Empty) -> (r: Result<Empty, SdkError>) {
        self.calls.push(Method::Ready);
        proof {
            self.history@ = self.history@.push(Invocation::Ready);
        }
        Ok(Empty {})
    }

    fn allocate(&mut self, req: Empty) -> (r: Result<Empty, SdkError>) {
        self.calls.push(Method::Allocate);
        proof {
            self.history@ = self.history@.push(Invocation::Allocate);
        }
        Ok(Empty {})
    }

    fn shutdown(&mut self, req: Empty) -> (r: Result<Empty, SdkError>) {
        self.calls.push(Method::Shutdown);
        proof {
            self.history@ = self.history@.push(Invocation::Shutdown);
        }
        Ok(Empty {})
    }

    fn health(&mut self, heartbeats: Vec<Empty>) -> (r: Result<Empty, SdkError>) {
        self.calls.push(Method::Health);
        proof {
            self.history@ = self.history@.push(Invocation::Health(heartbeats@.len()));
        }
        Ok(Empty {})
    }

    fn get_game_server(&mut self, req: Empty) -> (r: Result<GameServer, SdkError>) {
        self.calls.push(Method::GetGameServer);
        proof {
            self.history@ = self.history@.push(Invocation::GetGameServer);
        }
        Ok(self.snapshot.duplicate())
    }

    fn watch_game_server(&mut self, req: Empty) -> (r: Result<Vec<GameServer>, SdkError>) {
        self.calls.push(Method::WatchGameServer);
        proof {
            self.history@ = self.history@.push(Invocation::WatchGameServer);
        }
        let ghost history_now = self.history@;
        let mut feed: Vec<GameServer> = Vec::new();
        let mut i: usize = 0;
        while i < self.updates.len()
            invariant
                self.history@ == history_now,
            decreases self.updates.len() - i,
        {
            feed.push(self.updates[i].duplicate());
            i = i + 1;
        }
        Ok(feed)
    }

    fn set_label(&mut self, req: KeyValue) -> (r: Result<Empty, SdkError>) {
        self.calls.push(Method::SetLabel);
        proof {
            self.history@ = self.history@.push(Invocation::SetLabel(req@));
        }
        Ok(Empty {})
    }

    fn set_annotation(&mut self, req: KeyValue) -> (r: Result<Empty, SdkError>) {
        self.calls.push(Method::SetAnnotation);
        proof {
            self.history@ = self.history@.push(Invocation::SetAnnotation(req@));
        }
        Ok(Empty {})
    }

    fn reserve(&mut self, req: Duration) -> (r: Result<Empty, SdkError>) {
        self.calls.push(Method::Reserve);
        proof {
            self.history@ = self.history@.push(Invocation::Reserve(req.seconds));
        }
        Ok(Empty {})
    }
}

} // verus!
