//! The monitor's state machine: classify one probe outcome and decide, from
//! the previous classification, which log line and which alert are due.
//!
//! Alerting is edge-triggered: a log line is emitted exactly when the
//! outcome's success/failure classification differs from the previous one,
//! and an alert is emitted on such a change when the probe failed, or when it
//! succeeded with a latency strictly above the configured threshold. The log
//! line of a success transition is always the informational success line; the
//! high-latency warning goes out only through the alert channel.

use vstd::prelude::*;

verus! {

/// The result of one bounded-duration TCP connection attempt, as classified
/// by the probing code: either the connection was established, with the
/// elapsed handshake latency, or it was not, with a description of the cause.
#[derive(Debug, Clone)]
pub enum ProbeOutcome {
    Success { latency_millis: u64 },
    Failure { cause: String },
}

/// What the monitor remembers between iterations: the classification of the
/// most recent probe, or `Unknown` before the first probe.
#[derive(Debug, Clone, Copy, PartialEq, Eq, Structural)]
pub enum Reachability {
    Unknown,
    Healthy,
    Unhealthy,
}

/// A log line that one monitor iteration asks the surrounding program to
/// emit. `Recovered` is informational, `Down` is an error.
#[derive(Debug, Clone, Copy, PartialEq, Eq, Structural)]
pub enum LogEvent {
    Recovered { latency_millis: u64 },
    Down,
}

/// An alert that one monitor iteration asks the surrounding program to send
/// through the external notification channel.
#[derive(Debug, Clone, Copy, PartialEq, Eq, Structural)]
pub enum AlertEvent {
    HighLatency { latency_millis: u64 },
    Down,
}

/// The severity of an alert on the external channel.
#[derive(Debug, Clone, Copy, PartialEq, Eq, Structural)]
pub enum Severity {
    Warning,
    Critical,
}

/// The level of a log line.
#[derive(Debug, Clone, Copy, PartialEq, Eq, Structural)]
pub enum LogLevel {
    Info,
    Error,
}

/// What one monitor iteration decides: the state to carry into the next
/// iteration, and the log line and alert due now, if any.
#[derive(Debug, Clone, Copy, PartialEq, Eq, Structural)]
pub struct Transition {
    pub state: Reachability,
    pub log: Option<LogEvent>,
    pub alert: Option<AlertEvent>,
}

/// The reachability classification of one probe outcome.
pub open spec fn class_of(outcome: ProbeOutcome) -> Reachability {
    match outcome {
        ProbeOutcome::Success { .. } => Reachability::Healthy,
        ProbeOutcome::Failure { .. } => Reachability::Unhealthy,
    }
}

/// The transition rule of the monitor, evaluated once per iteration.
///
/// A log line is due exactly when the outcome's classification differs from
/// the previous one; an alert is due on such a change when the probe failed,
/// or when it succeeded with latency strictly above `threshold_millis`. A
/// success transition always logs the informational success line; a high
/// latency adds the warning alert to it, it does not replace it.
pub open spec fn spec_step(
    prev: Reachability,
    outcome: ProbeOutcome,
    threshold_millis: u64,
) -> Transition {
    match outcome {
        ProbeOutcome::Success { latency_millis } => {
            if prev == Reachability::Healthy {
                Transition { state: Reachability::Healthy, log: None, alert: None }
            } else {
                Transition {
                    state: Reachability::Healthy,
                    log: Some(LogEvent::Recovered { latency_millis }),
                    alert: if latency_millis > threshold_millis {
                        Some(AlertEvent::HighLatency { latency_millis })
                    } else {
                        None
                    },
                }
            }
        },
        ProbeOutcome::Failure { .. } => {
            if prev == Reachability::Unhealthy {
                Transition { state: Reachability::Unhealthy, log: None, alert: None }
            } else {
                Transition {
                    state: Reachability::Unhealthy,
                    log: Some(LogEvent::Down),
                    alert: Some(AlertEvent::Down),
                }
            }
        },
    }
}

impl LogEvent {
    /// The level with which this log line goes out: recovery is
    /// informational, loss of reachability an error.
    pub fn level(&self) -> (l: LogLevel)
        ensures
            l == (match *self {
                LogEvent::Recovered { .. } => LogLevel::Info,
                LogEvent::Down => LogLevel::Error,
            }),
    {
        match self {
            LogEvent::Recovered { .. } => LogLevel::Info,
            LogEvent::Down => LogLevel::Error,
        }
    }
}

impl AlertEvent {
    /// The severity with which this alert goes out: a high-latency alert is a
    /// warning, a down alert is critical.
    pub fn severity(&self) -> (s: Severity)
        ensures
            s == (match *self {
                AlertEvent::HighLatency { .. } => Severity::Warning,
                AlertEvent::Down => Severity::Critical,
            }),
    {
        match self {
            AlertEvent::HighLatency { .. } => Severity::Warning,
            AlertEvent::Down => Severity::Critical,
        }
    }
}

/// Process one probe outcome: decide the log line and alert due now and the
/// state to carry into the next iteration.
pub fn step(prev: Reachability, outcome: &ProbeOutcome, threshold_millis: u64) -> (t: Transition)
    ensures
        t == spec_step(prev, *outcome, threshold_millis),
        t.state == class_of(*outcome),
        // edge-triggered: a log line exactly on a change of classification
        t.log is Some <==> prev != class_of(*outcome),
        // an alert is never emitted without a log line
        t.alert is Some ==> t.log is Some,
{
    match outcome {
        ProbeOutcome::Success { latency_millis } => {
            if prev == Reachability::Healthy {
                Transition { state: Reachability::Healthy, log: None, alert: None }
            } else {
                Transition {
                    state: Reachability::Healthy,
                    log: Some(LogEvent::Recovered { latency_millis: *latency_millis }),
                    alert: if *latency_millis > threshold_millis {
                        Some(AlertEvent::HighLatency { latency_millis: *latency_millis })
                    } else {
                        None
                    },
                }
            }
        },
        ProbeOutcome::Failure { .. } => {
            if prev == Reachability::Unhealthy {
                Transition { state: Reachability::Unhealthy, log: None, alert: None }
            } else {
                Transition {
                    state: Reachability::Unhealthy,
                    log: Some(LogEvent::Down),
                    alert: Some(AlertEvent::Down),
                }
            }
        },
    }
}

/// The classification that precedes position `i` of a run that began in
/// `start`: `start` itself before the first probe, and the previous
/// outcome's classification after that.
pub open spec fn prev_state(start: Reachability, outcomes: Seq<ProbeOutcome>, i: int) -> Reachability
    recommends
        0 <= i <= outcomes.len(),
{
    if i == 0 {
        start
    } else {
        class_of(outcomes[i - 1])
    }
}

/// Process a whole sequence of probe outcomes, beginning in `start`, and
/// return the transition decided at each position.
pub fn run_transitions(
    start: Reachability,
    outcomes: &Vec<ProbeOutcome>,
    threshold_millis: u64,
) -> (ts: Vec<Transition>)
    ensures
        ts@.len() == outcomes@.len(),
        forall|i: int|
            0 <= i < outcomes@.len() ==> ts@[i] == spec_step(
                prev_state(start, outcomes@, i),
                outcomes@[i],
                threshold_millis,
            ),
{
    let mut ts: Vec<Transition> = Vec::new();
    let mut state = start;
    let mut k: usize = 0;
    while k < outcomes.len()
        invariant
            k <= outcomes@.len(),
            ts@.len() == k as int,
            state == prev_state(start, outcomes@, k as int),
            forall|i: int|
                0 <= i < k as int ==> ts@[i] == spec_step(
                    prev_state(start, outcomes@, i),
                    outcomes@[i],
                    threshold_millis,
                ),
        decreases outcomes@.len() - k,
    {
        let t = step(state, &outcomes[k], threshold_millis);
        state = t.state;
        ts.push(t);
        k = k + 1;
    }
    ts
}

} // verus!
