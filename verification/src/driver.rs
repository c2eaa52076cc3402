//! The demonstration driver's control logic: the foreground sequence of
//! five calls that aborts on the first failure, the watch loop whose
//! annotation side effect fires exactly once, and the health loop that
//! attempts a heartbeat on every tick whatever the last one's fate.

use vstd::prelude::*;
use crate::messages::{Empty, KeyValue, KeyValueView, GameServer};
use crate::errors::SdkError;
use crate::channel::{
    Channel, SentCall, advance, call_made, pending, next_verdict, no_deadline, Verdict,
};
use crate::client::{
    SdkClient, empty_outcome, ready_call, allocate_call, get_game_server_call, set_label_call,
    set_annotation_call, shutdown_call,
};
use crate::streams::{HealthSender, WatchReceiver};
use crate::format::{creation_label, uid_annotation, spec_decimal};

verus! {

/// The five steps of the foreground sequence, in their fixed order.
#[derive(Clone, Copy, PartialEq, Eq, Structural, Debug)]
pub enum Step {
    Ready,
    Allocate,
    GetGameServer,
    SetLabel,
    Shutdown,
}

/// The fixed order of the foreground sequence.
pub open spec fn spec_step_order() -> Seq<Step> {
    seq![Step::Ready, Step::Allocate, Step::GetGameServer, Step::SetLabel, Step::Shutdown]
}

pub open spec fn spec_next_step(s: Step) -> Option<Step> {
    match s {
        Step::Ready => Some(Step::Allocate),
        Step::Allocate => Some(Step::GetGameServer),
        Step::GetGameServer => Some(Step::SetLabel),
        Step::SetLabel => Some(Step::Shutdown),
        Step::Shutdown => None,
    }
}

/// The step the foreground sequence begins with.
pub fn first_step() -> (s: Step)
    ensures
        s == Step::Ready,
{
    Step::Ready
}

/// The step that follows `s` in the foreground sequence, if any.
pub fn next_step(s: Step) -> (r: Option<Step>)
    ensures
        r == spec_next_step(s),
{
    match s {
        Step::Ready => Some(Step::Allocate),
        Step::Allocate => Some(Step::GetGameServer),
        Step::GetGameServer => Some(Step::SetLabel),
        Step::SetLabel => Some(Step::Shutdown),
        Step::Shutdown => None,
    }
}

/// The channel after `k` successive calls.
pub open spec fn after_calls(ch: Channel, k: nat) -> Channel
    decreases k,
{
    if k == 0 {
        ch
    } else {
        advance(after_calls(ch, (k - 1) as nat))
    }
}

/// The verdict of the `k`-th successive deadline-free call on `ch`,
/// counting from zero.
pub open spec fn verdict_at(ch: Channel, k: int) -> Result<(), SdkError> {
    next_verdict(after_calls(ch, k as nat), no_deadline())
}

/// How many leading steps of the foreground sequence the channel grants,
/// out of five.
pub open spec fn steps_granted(ch: Channel) -> int {
    if !(verdict_at(ch, 0) is Ok) {
        0
    } else if !(verdict_at(ch, 1) is Ok) {
        1
    } else if !(verdict_at(ch, 2) is Ok) {
        2
    } else if !(verdict_at(ch, 3) is Ok) {
        3
    } else if !(verdict_at(ch, 4) is Ok) {
        4
    } else {
        5
    }
}

/// How many steps the foreground sequence attempts on `ch`: every granted
/// one, plus the failing one if any; never a step past the first failure.
pub open spec fn calls_attempted(ch: Channel) -> int {
    if steps_granted(ch) == 5 {
        5
    } else {
        steps_granted(ch) + 1
    }
}

/// The calls the foreground sequence issues on `ch`, in order: one per
/// attempted step, where the label write carries the fixed key and the
/// snapshot's creation timestamp in decimal.
pub open spec fn sequence_calls(ch: Channel) -> Seq<SentCall> {
    seq![
        ready_call(),
        allocate_call(),
        get_game_server_call(),
        set_label_call(
            KeyValueView {
                key: "test-label"@,
                value: spec_decimal(ch.snapshot@.creation_timestamp as nat),
            },
        ),
        shutdown_call(),
    ].take(calls_attempted(ch))
}

/// Two channels whose pending script is the same decide the next call the
/// same way.
proof fn lemma_same_decision(a: Channel, b: Channel)
    requires
        a.script == b.script,
        a.served == b.served,
    ensures
        next_verdict(a, no_deadline()) == next_verdict(b, no_deadline()),
        advance(a).served == advance(b).served,
{
}

/// The failure that aborted the foreground sequence: the step and the
/// error of the call that did not come back with a grant.
#[derive(Clone, Copy, PartialEq, Eq, Structural, Debug)]
pub struct SequenceFailure {
    pub step: Step,
    pub error: SdkError,
}

/// What one run of the foreground sequence did: the steps it attempted,
/// in order, and its outcome.
#[derive(Debug)]
pub struct SequenceReport {
    pub trace: Vec<Step>,
    pub outcome: Result<(), SequenceFailure>,
}

/// The process exit code a report maps to: zero exactly when the whole
/// sequence succeeded, one otherwise.
pub fn exit_code(report: &SequenceReport) -> (c: i32)
    ensures
        (c == 0) <==> (report.outcome is Ok),
        c == 0 || c == 1,
{
    match report.outcome {
        Ok(_) => 0,
        Err(_) => 1,
    }
}

/// Runs the foreground sequence: ready, allocate, state fetch, label write
/// (with the fetched creation timestamp as value), shutdown. The first
/// failure aborts the sequence; no later step is attempted, and exactly
/// the calls of `sequence_calls` go out, in order.
pub fn run_sequence(client: &mut SdkClient) -> (report: SequenceReport)
    ensures
        final(client).channel.script == old(client).channel.script,
        final(client).channel.snapshot == old(client).channel.snapshot,
        final(client).channel.updates == old(client).channel.updates,
        final(client).channel.heartbeat_fates == old(client).channel.heartbeat_fates,
        final(client).channel.served == after_calls(old(client).channel, calls_attempted(
            old(client).channel,
        ) as nat).served,
        final(client).channel.sent@ == old(client).channel.sent@ + sequence_calls(
            old(client).channel,
        ),
        report.trace@ == spec_step_order().take(calls_attempted(old(client).channel)),
        steps_granted(old(client).channel) == 5 ==> report.outcome is Ok,
        steps_granted(old(client).channel) < 5 ==> (report.outcome matches Err(f) && f.step
            == spec_step_order()[steps_granted(old(client).channel)] && (verdict_at(
            old(client).channel,
            steps_granted(old(client).channel),
        ) matches Err(e) && f.error == e)),
{
    let ghost ch0 = old(client).channel;
    proof {
        assert(after_calls(ch0, 0) == ch0);
    }
    let mut trace: Vec<Step> = Vec::new();

    trace.push(Step::Ready);
    match client.ready(&Empty {}) {
        Err(e) => {
            proof {
                assert(after_calls(ch0, 1) == advance(ch0));
                assert(trace@ =~= spec_step_order().take(1));
                assert(client.channel.sent@ =~= ch0.sent@ + sequence_calls(ch0));
            }
            return SequenceReport {
                trace,
                outcome: Err(SequenceFailure { step: Step::Ready, error: e }),
            };
        },
        Ok(_) => {},
    }
    proof {
        assert(after_calls(ch0, 1) == advance(ch0));
    }

    trace.push(Step::Allocate);
    let ghost pre2 = client.channel;
    proof {
        lemma_same_decision(pre2, after_calls(ch0, 1));
    }
    match client.allocate(&Empty {}) {
        Err(e) => {
            proof {
                assert(after_calls(ch0, 2) == advance(after_calls(ch0, 1)));
                assert(trace@ =~= spec_step_order().take(2));
                assert(client.channel.sent@ =~= ch0.sent@ + sequence_calls(ch0));
            }
            return SequenceReport {
                trace,
                outcome: Err(SequenceFailure { step: Step::Allocate, error: e }),
            };
        },
        Ok(_) => {},
    }
    proof {
        assert(after_calls(ch0, 2) == advance(after_calls(ch0, 1)));
    }

    trace.push(Step::GetGameServer);
    let ghost pre3 = client.channel;
    proof {
        lemma_same_decision(pre3, after_calls(ch0, 2));
    }
    let snapshot = match client.get_game_server(&Empty {}) {
        Err(e) => {
            proof {
                assert(after_calls(ch0, 3) == advance(after_calls(ch0, 2)));
                assert(trace@ =~= spec_step_order().take(3));
                assert(client.channel.sent@ =~= ch0.sent@ + sequence_calls(ch0));
            }
            return SequenceReport {
                trace,
                outcome: Err(SequenceFailure { step: Step::GetGameServer, error: e }),
            };
        },
        Ok(gs) => gs,
    };
    proof {
        assert(after_calls(ch0, 3) == advance(after_calls(ch0, 2)));
        assert(snapshot@ == ch0.snapshot@);
    }

    trace.push(Step::SetLabel);
    let label = creation_label(snapshot.object_meta.creation_timestamp);
    proof {
        assert(label@ == (KeyValueView {
            key: "test-label"@,
            value: spec_decimal(ch0.snapshot@.creation_timestamp as nat),
        }));
    }
    let ghost pre4 = client.channel;
    proof {
        lemma_same_decision(pre4, after_calls(ch0, 3));
    }
    match client.set_label(&label) {
        Err(e) => {
            proof {
                assert(after_calls(ch0, 4) == advance(after_calls(ch0, 3)));
                assert(trace@ =~= spec_step_order().take(4));
                assert(client.channel.sent@ =~= ch0.sent@ + sequence_calls(ch0));
            }
            return SequenceReport {
                trace,
                outcome: Err(SequenceFailure { step: Step::SetLabel, error: e }),
            };
        },
        Ok(_) => {},
    }
    proof {
        assert(after_calls(ch0, 4) == advance(after_calls(ch0, 3)));
    }

    trace.push(Step::Shutdown);
    let ghost pre5 = client.channel;
    proof {
        lemma_same_decision(pre5, after_calls(ch0, 4));
    }
    match client.shutdown(&Empty {}) {
        Err(e) => {
            proof {
                assert(after_calls(ch0, 5) == advance(after_calls(ch0, 4)));
                assert(trace@ =~= spec_step_order().take(5));
                assert(client.channel.sent@ =~= ch0.sent@ + sequence_calls(ch0));
            }
            return SequenceReport {
                trace,
                outcome: Err(SequenceFailure { step: Step::Shutdown, error: e }),
            };
        },
        Ok(_) => {},
    }
    proof {
        assert(after_calls(ch0, 5) == advance(after_calls(ch0, 4)));
        assert(trace@ =~= spec_step_order().take(5));
        assert(client.channel.sent@ =~= ch0.sent@ + sequence_calls(ch0));
    }
    SequenceReport { trace, outcome: Ok(()) }
}

/// What the watch loop does for one received snapshot: on the first one
/// only, it writes an annotation whose value is the snapshot's unique id.
pub fn annotation_action(already_sent: bool, gs: &GameServer) -> (r: Option<KeyValue>)
    ensures
        already_sent ==> r is None,
        !already_sent ==> (r matches Some(kv) && kv@.key == "test-annotation"@ && kv@.value
            == gs@.uid),
{
    if already_sent {
        None
    } else {
        Some(uid_annotation(&gs.object_meta.uid))
    }
}

/// Drains a watch subscription: every snapshot is received, and the
/// annotation side effect fires exactly once, with the first snapshot's
/// unique id, however many snapshots arrive: exactly one annotation call
/// goes out, carrying that id. The annotations written are returned.
pub fn run_watch_loop(client: &mut SdkClient, rx: &mut WatchReceiver) -> (notes: Vec<KeyValue>)
    ensures
        final(rx).remaining().len() == 0,
        old(rx).remaining().len() == 0 ==> (notes@.len() == 0 && *final(client) == *old(client)),
        old(rx).remaining().len() > 0 ==> ({
            &&& notes@.len() == 1
            &&& notes@[0]@.key == "test-annotation"@
            &&& notes@[0]@.value == old(rx).remaining()[0].uid
            &&& call_made(
                old(client).channel,
                final(client).channel,
                set_annotation_call(notes@[0]@),
            )
        }),
{
    let mut notes: Vec<KeyValue> = Vec::new();
    let mut first = true;
    loop
        invariant
            first ==> (notes@.len() == 0 && *client == *old(client) && rx.remaining() == old(
                rx,
            ).remaining()),
            !first ==> ({
                &&& old(rx).remaining().len() > 0
                &&& notes@.len() == 1
                &&& notes@[0]@.key == "test-annotation"@
                &&& notes@[0]@.value == old(rx).remaining()[0].uid
                &&& call_made(
                    old(client).channel,
                    client.channel,
                    set_annotation_call(notes@[0]@),
                )
            }),
        decreases rx.remaining().len(),
    {
        match rx.next() {
            None => {
                return notes;
            },
            Some(gs) => {
                if first {
                    let kv = uid_annotation(&gs.object_meta.uid);
                    let _ = client.set_annotation(&kv);
                    notes.push(kv);
                    first = false;
                }
            },
        }
    }
}

/// Where a sender's cursor stands after some number of heartbeats: it
/// walks forward one fate per send until the fates run out, then stays.
pub open spec fn cursor_after(s: HealthSender, ticks: int) -> int {
    if s.cursor >= s.fates@.len() {
        s.cursor as int
    } else if s.cursor + ticks <= s.fates@.len() {
        s.cursor + ticks
    } else {
        s.fates@.len() as int
    }
}

/// Runs the health loop for a bounded number of ticks: one heartbeat is
/// attempted on every tick, whatever came of the earlier ones; a failed
/// send never ends the loop.
pub fn run_health_loop(sender: &mut HealthSender, ticks: usize)
    ensures
        final(sender).log@.len() == old(sender).log@.len() + ticks,
        final(sender).fates == old(sender).fates,
        final(sender).cursor == cursor_after(*old(sender), ticks as int),
{
    let fate_count: usize = sender.fates.len();
    let mut i: usize = 0;
    while i < ticks
        invariant
            i <= ticks,
            sender.log@.len() == old(sender).log@.len() + i,
            sender.fates == old(sender).fates,
            old(sender).fates@.len() == fate_count,
            sender.cursor == cursor_after(*old(sender), i as int),
        decreases ticks - i,
    {
        let _ = sender.send(&Empty {});
        i = i + 1;
    }
}

/// Shutdown is idempotent: when the remote side grants two successive
/// shutdown requests, both calls return success.
pub proof fn lemma_shutdown_idempotent(ch: Channel)
    requires
        pending(ch),
        pending(advance(ch)),
        ch.script@[ch.served as int].verdict == Verdict::Grant,
        ch.script@[advance(ch).served as int].verdict == Verdict::Grant,
    ensures
        empty_outcome(ch, no_deadline()) == Ok::<Empty, SdkError>(Empty {}),
        empty_outcome(advance(ch), no_deadline()) == Ok::<Empty, SdkError>(Empty {}),
{
}

/// A sequence against a backend that grants the first `k` steps and fails
/// the next one attempts exactly the steps up to and including the failing
/// one, and no later step.
pub proof fn lemma_sequence_stops_at_failure(ch: Channel, k: int)
    requires
        0 <= k < 5,
        forall|j: int| 0 <= j < k ==> #[trigger] verdict_at(ch, j) is Ok,
        !(verdict_at(ch, k) is Ok),
    ensures
        steps_granted(ch) == k,
        calls_attempted(ch) == k + 1,
{
}

/// A sequence against a backend that grants every step attempts all five
/// steps and succeeds.
pub proof fn lemma_sequence_all_granted(ch: Channel)
    requires
        forall|j: int| 0 <= j < 5 ==> #[trigger] verdict_at(ch, j) is Ok,
    ensures
        steps_granted(ch) == 5,
        calls_attempted(ch) == 5,
{
}

} // verus!
