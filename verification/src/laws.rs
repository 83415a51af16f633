//! The monitor's guarantees, stated and proved once over whole runs.
//!
//! A "run" is the sequence of transitions that `run_transitions` returns:
//! position `i` is decided by `spec_step` from the previous outcome's
//! classification (or the start state at position 0).

use vstd::prelude::*;
use crate::monitor::AlertEvent;
use crate::monitor::LogEvent;
use crate::monitor::ProbeOutcome;
use crate::monitor::Reachability;
use crate::monitor::Transition;
use crate::monitor::class_of;
use crate::monitor::prev_state;
use crate::monitor::spec_step;

verus! {

/// A log line is emitted exactly on a change of classification, and an alert
/// is never emitted without a log line.
pub proof fn lemma_notification_iff_change(
    prev: Reachability,
    outcome: ProbeOutcome,
    threshold_millis: u64,
)
    ensures
        spec_step(prev, outcome, threshold_millis).log is Some <==> class_of(outcome) != prev,
        spec_step(prev, outcome, threshold_millis).alert is Some ==> spec_step(
            prev,
            outcome,
            threshold_millis,
        ).log is Some,
{
}

/// Over a run that begins before any probe: a notification stands at
/// position `i` exactly when the outcome's classification differs from the
/// immediately preceding one, and the very first probe always notifies.
pub proof fn lemma_edge_triggered_run(outcomes: Seq<ProbeOutcome>, threshold_millis: u64, i: int)
    requires
        0 <= i < outcomes.len(),
    ensures
        spec_step(
            prev_state(Reachability::Unknown, outcomes, i),
            outcomes[i],
            threshold_millis,
        ).log is Some <==> class_of(outcomes[i]) != prev_state(Reachability::Unknown, outcomes, i),
        i == 0 ==> spec_step(
            prev_state(Reachability::Unknown, outcomes, i),
            outcomes[i],
            threshold_millis,
        ).log is Some,
{
}

/// How many log lines a run beginning in `start` emits.
pub open spec fn log_count(
    start: Reachability,
    outcomes: Seq<ProbeOutcome>,
    threshold_millis: u64,
) -> nat
    decreases outcomes.len(),
{
    if outcomes.len() == 0 {
        0
    } else {
        (if spec_step(start, outcomes[0], threshold_millis).log is Some {
            1nat
        } else {
            0nat
        }) + log_count(
            spec_step(start, outcomes[0], threshold_millis).state,
            outcomes.skip(1),
            threshold_millis,
        )
    }
}

/// How many alerts a run beginning in `start` emits.
pub open spec fn alert_count(
    start: Reachability,
    outcomes: Seq<ProbeOutcome>,
    threshold_millis: u64,
) -> nat
    decreases outcomes.len(),
{
    if outcomes.len() == 0 {
        0
    } else {
        (if spec_step(start, outcomes[0], threshold_millis).alert is Some {
            1nat
        } else {
            0nat
        }) + alert_count(
            spec_step(start, outcomes[0], threshold_millis).state,
            outcomes.skip(1),
            threshold_millis,
        )
    }
}

/// A run whose every outcome repeats the classification the monitor already
/// holds emits nothing at all.
proof fn lemma_steady_state_silent(
    start: Reachability,
    outcomes: Seq<ProbeOutcome>,
    threshold_millis: u64,
)
    requires
        forall|i: int| 0 <= i < outcomes.len() ==> class_of(#[trigger] outcomes[i]) == start,
    ensures
        log_count(start, outcomes, threshold_millis) == 0,
        alert_count(start, outcomes, threshold_millis) == 0,
    decreases outcomes.len(),
{
    if outcomes.len() > 0 {
        assert(spec_step(start, outcomes[0], threshold_millis).state == start);
        assert(forall|i: int|
            0 <= i < outcomes.skip(1).len() ==> class_of(#[trigger] outcomes.skip(1)[i]) == start);
        lemma_steady_state_silent(start, outcomes.skip(1), threshold_millis);
    }
}

/// Idempotence: any number of consecutive outcomes of one classification,
/// starting before any probe, produces exactly one log line and at most one
/// alert, however long the run.
pub proof fn lemma_idempotent(outcomes: Seq<ProbeOutcome>, threshold_millis: u64)
    requires
        outcomes.len() >= 1,
        forall|i: int|
            0 <= i < outcomes.len() ==> class_of(#[trigger] outcomes[i]) == class_of(outcomes[0]),
    ensures
        log_count(Reachability::Unknown, outcomes, threshold_millis) == 1,
        alert_count(Reachability::Unknown, outcomes, threshold_millis) <= 1,
{
    let first = spec_step(Reachability::Unknown, outcomes[0], threshold_millis);
    assert(first.log is Some);
    assert(first.state == class_of(outcomes[0]));
    assert(forall|i: int|
        0 <= i < outcomes.skip(1).len() ==> class_of(#[trigger] outcomes.skip(1)[i]) == class_of(
            outcomes[0],
        ));
    lemma_steady_state_silent(class_of(outcomes[0]), outcomes.skip(1), threshold_millis);
}

/// The latency threshold is a strict boundary: on a success that changes the
/// classification, latency exactly at the threshold raises no high-latency
/// alert, latency strictly above it does — and the log line is the
/// informational success line either way; the warning travels only as the
/// alert.
pub proof fn lemma_latency_threshold_boundary(
    prev: Reachability,
    latency_millis: u64,
    threshold_millis: u64,
)
    requires
        prev != Reachability::Healthy,
    ensures
        spec_step(
            prev,
            ProbeOutcome::Success { latency_millis },
            threshold_millis,
        ).alert is Some <==> latency_millis > threshold_millis,
        latency_millis > threshold_millis ==> spec_step(
            prev,
            ProbeOutcome::Success { latency_millis },
            threshold_millis,
        ).alert == Some(AlertEvent::HighLatency { latency_millis }),
        spec_step(prev, ProbeOutcome::Success { latency_millis }, threshold_millis).log == Some(
            LogEvent::Recovered { latency_millis },
        ),
{
}

/// How many log lines a sequence of transitions carries.
pub open spec fn transition_log_count(ts: Seq<Transition>) -> nat
    decreases ts.len(),
{
    if ts.len() == 0 {
        0
    } else {
        (if ts[0].log is Some {
            1nat
        } else {
            0nat
        }) + transition_log_count(ts.skip(1))
    }
}

/// How many alerts a sequence of transitions carries.
pub open spec fn transition_alert_count(ts: Seq<Transition>) -> nat
    decreases ts.len(),
{
    if ts.len() == 0 {
        0
    } else {
        (if ts[0].alert is Some {
            1nat
        } else {
            0nat
        }) + transition_alert_count(ts.skip(1))
    }
}

/// The transitions that `run_transitions` returns carry exactly the log
/// lines and alerts that `log_count` and `alert_count` predict.
pub proof fn lemma_run_counts(
    start: Reachability,
    outcomes: Seq<ProbeOutcome>,
    threshold_millis: u64,
    ts: Seq<Transition>,
)
    requires
        ts.len() == outcomes.len(),
        forall|i: int|
            0 <= i < outcomes.len() ==> ts[i] == spec_step(
                #[trigger] prev_state(start, outcomes, i),
                outcomes[i],
                threshold_millis,
            ),
    ensures
        transition_log_count(ts) == log_count(start, outcomes, threshold_millis),
        transition_alert_count(ts) == alert_count(start, outcomes, threshold_millis),
    decreases outcomes.len(),
{
    if outcomes.len() > 0 {
        let next = spec_step(start, outcomes[0], threshold_millis).state;
        assert(prev_state(start, outcomes, 0) == start);
        assert(ts[0] == spec_step(start, outcomes[0], threshold_millis));
        assert(next == class_of(outcomes[0]));
        assert forall|i: int| 0 <= i < outcomes.skip(1).len() implies ts.skip(1)[i] == spec_step(
            #[trigger] prev_state(next, outcomes.skip(1), i),
            outcomes.skip(1)[i],
            threshold_millis,
        ) by {
            assert(prev_state(next, outcomes.skip(1), i) == prev_state(start, outcomes, i + 1));
            assert(ts.skip(1)[i] == ts[i + 1]);
            assert(outcomes.skip(1)[i] == outcomes[i + 1]);
        }
        lemma_run_counts(next, outcomes.skip(1), threshold_millis, ts.skip(1));
    }
}

} // verus!
