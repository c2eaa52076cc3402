use agones_sdk::channel::{Channel, ScriptedReply, Verdict};
use agones_sdk::client::SdkClient;
use agones_sdk::driver::{
    exit_code, first_step, next_step, run_health_loop, run_sequence, run_watch_loop, Step,
};
use agones_sdk::errors::SdkError;
use agones_sdk::format::{creation_label, uid_annotation};
use agones_sdk::messages::{Empty, GameServer, GameServerStatus, ObjectMeta};

fn snapshot(uid: &str, ts: u64) -> GameServer {
    GameServer {
        object_meta: ObjectMeta {
            name: "gs".to_string(),
            uid: uid.to_string(),
            creation_timestamp: ts,
        },
        status: GameServerStatus { state: "Ready".to_string() },
    }
}

fn grant() -> ScriptedReply {
    ScriptedReply { verdict: Verdict::Grant, latency_ms: 0 }
}

fn deny(code: u64) -> ScriptedReply {
    ScriptedReply { verdict: Verdict::Deny(code), latency_ms: 0 }
}

fn script_failing_at(n: usize) -> Vec<ScriptedReply> {
    let mut script = Vec::new();
    for _ in 1..n {
        script.push(grant());
    }
    script.push(deny(99));
    script
}

#[test]
fn the_full_sequence_succeeds_and_runs_the_steps_in_order() {
    let mut client =
        SdkClient::new(Channel::new(vec![grant(); 5], snapshot("u", 7), vec![], vec![]));
    let report = run_sequence(&mut client);
    assert!(report.outcome.is_ok());
    assert_eq!(
        report.trace,
        vec![Step::Ready, Step::Allocate, Step::GetGameServer, Step::SetLabel, Step::Shutdown]
    );
    assert_eq!(exit_code(&report), 0);
}

#[test]
fn a_failure_at_step_one_stops_the_sequence_at_once() {
    let mut client =
        SdkClient::new(Channel::new(script_failing_at(1), snapshot("u", 7), vec![], vec![]));
    let report = run_sequence(&mut client);
    assert_eq!(report.trace, vec![Step::Ready]);
    let failure = report.outcome.unwrap_err();
    assert_eq!(failure.step, Step::Ready);
    assert_eq!(failure.error, SdkError::Server(99));
    assert_eq!(client.channel.served, 1);
    assert_eq!(exit_code(&report), 1);
}

#[test]
fn a_failure_at_step_two_runs_no_later_step() {
    let mut client =
        SdkClient::new(Channel::new(script_failing_at(2), snapshot("u", 7), vec![], vec![]));
    let report = run_sequence(&mut client);
    assert_eq!(report.trace, vec![Step::Ready, Step::Allocate]);
    assert_eq!(report.outcome.unwrap_err().step, Step::Allocate);
    assert_eq!(client.channel.served, 2);
    assert_eq!(exit_code(&report), 1);
}

#[test]
fn a_failure_at_step_three_runs_no_later_step() {
    let mut client =
        SdkClient::new(Channel::new(script_failing_at(3), snapshot("u", 7), vec![], vec![]));
    let report = run_sequence(&mut client);
    assert_eq!(report.trace, vec![Step::Ready, Step::Allocate, Step::GetGameServer]);
    assert_eq!(report.outcome.unwrap_err().step, Step::GetGameServer);
    assert_eq!(client.channel.served, 3);
    assert_eq!(exit_code(&report), 1);
}

#[test]
fn a_failure_at_step_four_runs_no_later_step() {
    let mut client =
        SdkClient::new(Channel::new(script_failing_at(4), snapshot("u", 7), vec![], vec![]));
    let report = run_sequence(&mut client);
    assert_eq!(
        report.trace,
        vec![Step::Ready, Step::Allocate, Step::GetGameServer, Step::SetLabel]
    );
    assert_eq!(report.outcome.unwrap_err().step, Step::SetLabel);
    assert_eq!(exit_code(&report), 1);
}

#[test]
fn a_failure_at_step_five_fails_the_whole_sequence() {
    let mut client =
        SdkClient::new(Channel::new(script_failing_at(5), snapshot("u", 7), vec![], vec![]));
    let report = run_sequence(&mut client);
    assert_eq!(
        report.trace,
        vec![Step::Ready, Step::Allocate, Step::GetGameServer, Step::SetLabel, Step::Shutdown]
    );
    assert_eq!(report.outcome.unwrap_err().step, Step::Shutdown);
    assert_eq!(exit_code(&report), 1);
}

#[test]
fn shutdown_accepted_twice_in_succession_succeeds_twice() {
    let mut client =
        SdkClient::new(Channel::new(vec![grant(), grant()], snapshot("u", 7), vec![], vec![]));
    assert_eq!(client.shutdown(&Empty {}), Ok(Empty {}));
    assert_eq!(client.shutdown(&Empty {}), Ok(Empty {}));
}

#[test]
fn the_watch_loop_annotates_exactly_once_over_five_snapshots() {
    let updates = vec![
        snapshot("uid-first", 1),
        snapshot("uid-2", 2),
        snapshot("uid-3", 3),
        snapshot("uid-4", 4),
        snapshot("uid-5", 5),
    ];
    // One scripted reply opens the subscription; one serves the single
    // annotation write.
    let mut client =
        SdkClient::new(Channel::new(vec![grant(), grant()], snapshot("u", 7), updates, vec![]));
    let mut rx = client.watch_game_server(&Empty {}).unwrap();
    let notes = run_watch_loop(&mut client, &mut rx);
    assert_eq!(notes.len(), 1);
    assert_eq!(notes[0].key, "test-annotation");
    assert_eq!(notes[0].value, "uid-first");
    // Exactly one call went out after the subscription was opened.
    assert_eq!(client.channel.served, 2);
    assert!(rx.next().is_none());
}

#[test]
fn the_watch_loop_over_an_empty_stream_annotates_nothing() {
    let mut client =
        SdkClient::new(Channel::new(vec![grant()], snapshot("u", 7), vec![], vec![]));
    let mut rx = client.watch_game_server(&Empty {}).unwrap();
    let notes = run_watch_loop(&mut client, &mut rx);
    assert_eq!(notes.len(), 0);
    assert_eq!(client.channel.served, 1);
}

#[test]
fn the_health_loop_attempts_every_tick_when_every_third_heartbeat_fails() {
    let fates: Vec<bool> = (1..=10).map(|i| i % 3 != 0).collect();
    let mut client =
        SdkClient::new(Channel::new(vec![grant()], snapshot("u", 7), vec![], fates));
    let (mut sender, _receiver) = client.health().unwrap();
    run_health_loop(&mut sender, 10);
    assert_eq!(sender.attempts(), 10);
}

#[test]
fn the_health_loop_outlives_a_closed_stream_without_aborting() {
    let mut client =
        SdkClient::new(Channel::new(vec![grant()], snapshot("u", 7), vec![], vec![true, true]));
    let (mut sender, _receiver) = client.health().unwrap();
    run_health_loop(&mut sender, 12);
    assert_eq!(sender.attempts(), 12);
}

#[test]
fn the_creation_label_renders_the_timestamp_in_decimal() {
    assert_eq!(creation_label(0).key, "test-label");
    assert_eq!(creation_label(0).value, "0");
    assert_eq!(creation_label(7).value, "7");
    assert_eq!(creation_label(1234567890).value, "1234567890");
    assert_eq!(creation_label(u64::MAX).value, "18446744073709551615");
}

#[test]
fn the_annotation_carries_the_uid_unchanged() {
    let kv = uid_annotation(&"abc-123".to_string());
    assert_eq!(kv.key, "test-annotation");
    assert_eq!(kv.value, "abc-123");
}

#[test]
fn the_step_order_is_fixed() {
    let mut steps = Vec::new();
    let mut step = Some(first_step());
    while let Some(s) = step {
        steps.push(s);
        step = next_step(s);
    }
    assert_eq!(
        steps,
        vec![Step::Ready, Step::Allocate, Step::GetGameServer, Step::SetLabel, Step::Shutdown]
    );
}
