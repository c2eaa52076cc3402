use agones_sdk::channel::{CallOption, Channel, ScriptedReply, Verdict};
use agones_sdk::client::SdkClient;
use agones_sdk::errors::SdkError;
use agones_sdk::messages::{Duration, Empty, GameServer, GameServerStatus, KeyValue, ObjectMeta};

fn snapshot(name: &str, uid: &str, ts: u64, state: &str) -> GameServer {
    GameServer {
        object_meta: ObjectMeta {
            name: name.to_string(),
            uid: uid.to_string(),
            creation_timestamp: ts,
        },
        status: GameServerStatus { state: state.to_string() },
    }
}

fn grant() -> ScriptedReply {
    ScriptedReply { verdict: Verdict::Grant, latency_ms: 0 }
}

fn client_with(script: Vec<ScriptedReply>) -> SdkClient {
    SdkClient::new(Channel::new(script, snapshot("gs", "uid-1", 42, "Ready"), vec![], vec![]))
}

#[test]
fn ready_returns_the_granted_empty_response() {
    let mut client = client_with(vec![grant()]);
    assert_eq!(client.ready(&Empty {}), Ok(Empty {}));
}

#[test]
fn a_spent_script_behaves_as_unreachable() {
    let mut client = client_with(vec![grant()]);
    assert_eq!(client.ready(&Empty {}), Ok(Empty {}));
    assert_eq!(client.ready(&Empty {}), Err(SdkError::Transport));
}

#[test]
fn a_denied_call_carries_the_remote_status_code() {
    let mut client = client_with(vec![ScriptedReply { verdict: Verdict::Deny(7), latency_ms: 0 }]);
    assert_eq!(client.allocate(&Empty {}), Err(SdkError::Server(7)));
}

#[test]
fn an_unreachable_channel_is_a_transport_error() {
    let mut client =
        client_with(vec![ScriptedReply { verdict: Verdict::Unreachable, latency_ms: 0 }]);
    assert_eq!(client.shutdown(&Empty {}), Err(SdkError::Transport));
}

#[test]
fn a_late_reply_misses_the_deadline() {
    let mut client = client_with(vec![ScriptedReply { verdict: Verdict::Grant, latency_ms: 50 }]);
    assert_eq!(
        client.ready_opt(&Empty {}, CallOption::with_timeout(10)),
        Err(SdkError::DeadlineExceeded)
    );
}

#[test]
fn a_reply_on_the_deadline_is_in_time() {
    let mut client = client_with(vec![ScriptedReply { verdict: Verdict::Grant, latency_ms: 50 }]);
    assert_eq!(client.ready_opt(&Empty {}, CallOption::with_timeout(50)), Ok(Empty {}));
}

#[test]
fn without_a_deadline_no_reply_is_late() {
    let mut client =
        client_with(vec![ScriptedReply { verdict: Verdict::Grant, latency_ms: 3_600_000 }]);
    assert_eq!(client.ready(&Empty {}), Ok(Empty {}));
}

#[test]
fn successive_calls_consume_the_script_in_order() {
    let mut client =
        client_with(vec![grant(), ScriptedReply { verdict: Verdict::Deny(5), latency_ms: 0 }]);
    assert_eq!(client.ready(&Empty {}), Ok(Empty {}));
    assert_eq!(client.allocate(&Empty {}), Err(SdkError::Server(5)));
}

#[test]
fn get_game_server_returns_the_snapshot_unchanged() {
    let mut client = client_with(vec![grant()]);
    let gs = client.get_game_server(&Empty {}).unwrap();
    assert_eq!(gs.object_meta.name, "gs");
    assert_eq!(gs.object_meta.uid, "uid-1");
    assert_eq!(gs.object_meta.creation_timestamp, 42);
    assert_eq!(gs.status.state, "Ready");
}

#[test]
fn set_label_and_set_annotation_and_reserve_pass_the_empty_response_through() {
    let mut client = client_with(vec![grant(), grant(), grant()]);
    let kv = KeyValue { key: "k".to_string(), value: "v".to_string() };
    assert_eq!(client.set_label(&kv), Ok(Empty {}));
    assert_eq!(client.set_annotation(&kv), Ok(Empty {}));
    assert_eq!(client.reserve(&Duration { seconds: 30 }), Ok(Empty {}));
}

#[test]
fn deferred_ready_resolves_to_the_granted_response() {
    let mut client = client_with(vec![grant()]);
    let rx = client.ready_async(&Empty {}).unwrap();
    assert_eq!(rx.recv(), Ok(Empty {}));
}

#[test]
fn deferred_call_on_an_unreachable_channel_fails_at_once() {
    let mut client = client_with(vec![]);
    assert!(matches!(client.allocate_async(&Empty {}), Err(SdkError::Transport)));
}

#[test]
fn deferred_denial_resolves_inside_the_receiver() {
    let mut client = client_with(vec![ScriptedReply { verdict: Verdict::Deny(13), latency_ms: 0 }]);
    let rx = client.shutdown_async(&Empty {}).unwrap();
    assert_eq!(rx.recv(), Err(SdkError::Server(13)));
}

#[test]
fn deferred_state_fetch_resolves_to_the_snapshot() {
    let mut client = client_with(vec![grant()]);
    let rx = client.get_game_server_async(&Empty {}).unwrap();
    let gs = rx.recv().unwrap();
    assert_eq!(gs.object_meta.uid, "uid-1");
}

#[test]
fn opening_the_health_stream_hands_out_sender_and_receiver() {
    let mut client = SdkClient::new(Channel::new(
        vec![grant()],
        snapshot("gs", "u", 0, "Ready"),
        vec![],
        vec![true, false],
    ));
    let (mut sender, receiver) = client.health().unwrap();
    assert_eq!(sender.send(&Empty {}), Ok(()));
    assert_eq!(sender.send(&Empty {}), Err(SdkError::Transport));
    assert_eq!(sender.send(&Empty {}), Err(SdkError::StreamClosed));
    assert_eq!(sender.attempts(), 3);
    assert_eq!(receiver.recv(), Ok(Empty {}));
}

#[test]
fn opening_the_health_stream_on_an_unreachable_channel_fails() {
    let mut client = client_with(vec![]);
    assert!(matches!(client.health(), Err(SdkError::Transport)));
}

#[test]
fn the_watch_stream_delivers_every_update_in_order_then_ends() {
    let updates = vec![snapshot("gs", "u1", 1, "Ready"), snapshot("gs", "u2", 2, "Allocated")];
    let mut client =
        SdkClient::new(Channel::new(vec![grant()], snapshot("gs", "u", 0, "Ready"), updates, vec![]));
    let mut rx = client.watch_game_server(&Empty {}).unwrap();
    let first = rx.next().unwrap();
    assert_eq!(first.object_meta.uid, "u1");
    assert_eq!(first.status.state, "Ready");
    let second = rx.next().unwrap();
    assert_eq!(second.object_meta.uid, "u2");
    assert_eq!(second.status.state, "Allocated");
    assert!(rx.next().is_none());
}

#[test]
fn connect_wraps_an_established_channel() {
    let ch = Channel::new(vec![grant()], snapshot("gs", "u", 0, "Ready"), vec![], vec![]);
    let mut client = SdkClient::connect(Some(ch)).unwrap();
    assert_eq!(client.ready(&Empty {}), Ok(Empty {}));
}

#[test]
fn connect_without_a_channel_is_fatal() {
    assert!(matches!(SdkClient::connect(None), Err(SdkError::Connect)));
}

#[test]
fn errors_render_their_operation_independent_message() {
    assert_eq!(SdkError::Connect.describe(), "could not connect to the sidecar");
    assert_eq!(SdkError::Transport.describe(), "transport failure");
    assert_eq!(SdkError::DeadlineExceeded.describe(), "deadline exceeded");
    assert_eq!(SdkError::Server(9).describe(), "server returned a non-OK status");
    assert_eq!(SdkError::StreamClosed.describe(), "stream closed");
}
