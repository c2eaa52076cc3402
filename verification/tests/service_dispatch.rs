use agones_sdk::errors::SdkError;
use agones_sdk::messages::{Duration, Empty, GameServer, GameServerStatus, KeyValue, ObjectMeta};
use agones_sdk::service::{
    create_sdk, method_kind, method_name, CallKind, Method, RecordingSdk, Request, Response,
    INVALID_ARGUMENT,
};

fn snapshot(uid: &str) -> GameServer {
    GameServer {
        object_meta: ObjectMeta {
            name: "gs".to_string(),
            uid: uid.to_string(),
            creation_timestamp: 3,
        },
        status: GameServerStatus { state: "Ready".to_string() },
    }
}

fn backend() -> RecordingSdk {
    RecordingSdk::new(snapshot("u-9"), vec![snapshot("u-10")])
}

#[test]
fn every_method_is_registered_under_its_wire_name() {
    assert_eq!(method_name(Method::Ready), "/stable.agones.dev.sdk.SDK/Ready");
    assert_eq!(method_name(Method::Allocate), "/stable.agones.dev.sdk.SDK/Allocate");
    assert_eq!(method_name(Method::Shutdown), "/stable.agones.dev.sdk.SDK/Shutdown");
    assert_eq!(method_name(Method::Health), "/stable.agones.dev.sdk.SDK/Health");
    assert_eq!(method_name(Method::GetGameServer), "/stable.agones.dev.sdk.SDK/GetGameServer");
    assert_eq!(
        method_name(Method::WatchGameServer),
        "/stable.agones.dev.sdk.SDK/WatchGameServer"
    );
    assert_eq!(method_name(Method::SetLabel), "/stable.agones.dev.sdk.SDK/SetLabel");
    assert_eq!(method_name(Method::SetAnnotation), "/stable.agones.dev.sdk.SDK/SetAnnotation");
    assert_eq!(method_name(Method::Reserve), "/stable.agones.dev.sdk.SDK/Reserve");
}

#[test]
fn every_method_has_its_declared_call_shape() {
    assert_eq!(method_kind(Method::Ready), CallKind::Unary);
    assert_eq!(method_kind(Method::Allocate), CallKind::Unary);
    assert_eq!(method_kind(Method::Shutdown), CallKind::Unary);
    assert_eq!(method_kind(Method::Health), CallKind::ClientStreaming);
    assert_eq!(method_kind(Method::GetGameServer), CallKind::Unary);
    assert_eq!(method_kind(Method::WatchGameServer), CallKind::ServerStreaming);
    assert_eq!(method_kind(Method::SetLabel), CallKind::Unary);
    assert_eq!(method_kind(Method::SetAnnotation), CallKind::Unary);
    assert_eq!(method_kind(Method::Reserve), CallKind::Unary);
}

#[test]
fn dispatch_reaches_the_capability_registered_under_each_method() {
    let mut svc = create_sdk(backend());
    let kv = KeyValue { key: "k".to_string(), value: "v".to_string() };
    assert!(matches!(
        svc.handle_unary(Method::Ready, Request::Empty(Empty {})),
        Ok(Response::Empty(_))
    ));
    assert!(matches!(
        svc.handle_unary(Method::Allocate, Request::Empty(Empty {})),
        Ok(Response::Empty(_))
    ));
    assert!(matches!(
        svc.handle_unary(Method::Shutdown, Request::Empty(Empty {})),
        Ok(Response::Empty(_))
    ));
    assert!(matches!(
        svc.handle_unary(Method::SetLabel, Request::KeyValue(kv.clone())),
        Ok(Response::Empty(_))
    ));
    assert!(matches!(
        svc.handle_unary(Method::SetAnnotation, Request::KeyValue(kv)),
        Ok(Response::Empty(_))
    ));
    assert!(matches!(
        svc.handle_unary(Method::Reserve, Request::Duration(Duration { seconds: 5 })),
        Ok(Response::Empty(_))
    ));
    match svc.handle_unary(Method::GetGameServer, Request::Empty(Empty {})) {
        Ok(Response::GameServer(gs)) => assert_eq!(gs.object_meta.uid, "u-9"),
        other => panic!("unexpected dispatch result: {:?}", other),
    }
    assert_eq!(
        svc.backend.calls,
        vec![
            Method::Ready,
            Method::Allocate,
            Method::Shutdown,
            Method::SetLabel,
            Method::SetAnnotation,
            Method::Reserve,
            Method::GetGameServer,
        ]
    );
}

#[test]
fn a_mismatched_payload_never_reaches_the_backend() {
    let mut svc = create_sdk(backend());
    let r = svc.handle_unary(Method::SetLabel, Request::Empty(Empty {}));
    assert!(matches!(r, Err(SdkError::Server(INVALID_ARGUMENT))));
    let r = svc.handle_unary(Method::Ready, Request::Duration(Duration { seconds: 1 }));
    assert!(matches!(r, Err(SdkError::Server(INVALID_ARGUMENT))));
    assert_eq!(svc.backend.calls, Vec::<Method>::new());
}

#[test]
fn a_streaming_method_is_not_served_as_unary() {
    let mut svc = create_sdk(backend());
    let r = svc.handle_unary(Method::Health, Request::Empty(Empty {}));
    assert!(matches!(r, Err(SdkError::Server(INVALID_ARGUMENT))));
    let r = svc.handle_unary(Method::WatchGameServer, Request::Empty(Empty {}));
    assert!(matches!(r, Err(SdkError::Server(INVALID_ARGUMENT))));
    assert_eq!(svc.backend.calls, Vec::<Method>::new());
}

#[test]
fn the_streaming_handlers_reach_their_capabilities() {
    let mut svc = create_sdk(backend());
    assert_eq!(svc.handle_health(vec![Empty {}, Empty {}]), Ok(Empty {}));
    let feed = svc.handle_watch(Empty {}).unwrap();
    assert_eq!(feed.len(), 1);
    assert_eq!(feed[0].object_meta.uid, "u-10");
    assert_eq!(svc.backend.calls, vec![Method::Health, Method::WatchGameServer]);
}
