//! The monitor's state and the decision it takes once per poll cycle.

use vstd::prelude::*;
use crate::connection::{
    count_conns, qualifying, ConnectionObservation, MonitoredPortSet, CODE_SERVER_PORT, SSH_PORT,
};
use crate::time::{elapsed_between, Span, Timestamp};

verus! {

/// Seconds between two polls unless configured otherwise.
pub const DEFAULT_POLL_INTERVAL_SECS: u64 = 5;

/// Seconds without a qualifying connection that are still tolerated unless
/// configured otherwise.
pub const DEFAULT_IDLE_THRESHOLD_SECS: u64 = 60;

/// Exit status of a process that stops because the machine was idle.
pub const EXIT_SUCCESS: i32 = 0;

/// Exit status of a process that stops because the connection table could not be read.
pub const EXIT_FAILURE: i32 = 1;

/// What the monitor is set up with. Not changed while it runs.
#[derive(Clone, Debug)]
pub struct MonitorConfig {
    /// Ports whose established connections count as activity.
    pub monitored_ports: MonitoredPortSet,
    /// Fixed delay between the end of one cycle and the start of the next.
    pub poll_interval: Span,
    /// Idle time that must be exceeded, strictly, before the machine is stopped.
    pub idle_threshold: Span,
}

/// The connection table could not be read.
#[derive(Clone, Debug)]
pub struct ConnectionSourceFailure {
    /// What the source said about the failure.
    pub detail: String,
}

/// What one call of the connection source gave.
pub type Sample = Result<Vec<ConnectionObservation>, ConnectionSourceFailure>;

/// Why the monitor stops.
#[derive(Clone, Copy, Debug, PartialEq, Eq, Structural)]
pub enum Termination {
    /// No qualifying connection for longer than the threshold. The regular end.
    IdleTimeoutReached { idle: Span },
    /// The connection source failed. Not retried.
    SourceFailed,
}

/// What the caller has to do after a poll.
#[derive(Clone, Copy, Debug, PartialEq, Eq, Structural)]
pub enum Action {
    /// A qualifying connection exists: wait `interval`, then poll again.
    Sleep { interval: Span },
    /// None exists, and the threshold is not exceeded: report `idle`, wait
    /// `interval`, then poll again.
    ReportIdle { idle: Span, interval: Span },
    /// Stop polling and end the process.
    Terminate(Termination),
}

/// The time of the most recent poll that saw a qualifying connection.
#[derive(Clone, Copy, Debug)]
pub struct ActivityState {
    last_active_at: Timestamp,
}

/// Decides once per cycle whether to go on or to stop.
#[derive(Clone, Debug)]
pub struct ActivityMonitor {
    config: MonitorConfig,
    state: ActivityState,
}

/// Whether a sample was read and holds at least one qualifying connection.
pub open spec fn is_active(sample: Sample, ports: Set<u16>) -> bool {
    sample matches Ok(entries) && qualifying(entries@, ports).len() > 0
}

/// Whether a sample was read and holds no qualifying connection.
pub open spec fn is_quiet(sample: Sample, ports: Set<u16>) -> bool {
    sample matches Ok(entries) && qualifying(entries@, ports).len() == 0
}

/// The last-active time after a poll at `now` that gave `sample`: `now` where the
/// sample is active and `now` is not before the time held so far, else unchanged.
pub open spec fn next_last_active(
    last_active_at: Timestamp,
    now: Timestamp,
    sample: Sample,
    ports: Set<u16>,
) -> Timestamp {
    if is_active(sample, ports) && now.nanos >= last_active_at.nanos {
        now
    } else {
        last_active_at
    }
}

/// The action that a poll at `now` with `sample` calls for, given the last-active
/// time before the poll.
pub open spec fn action_for(
    config: MonitorConfig,
    last_active_at: Timestamp,
    now: Timestamp,
    sample: Sample,
) -> Action {
    if sample is Err {
        Action::Terminate(Termination::SourceFailed)
    } else if is_active(sample, config.monitored_ports@) {
        Action::Sleep { interval: config.poll_interval }
    } else {
        let idle = elapsed_between(last_active_at, now);
        if idle.nanos > config.idle_threshold.nanos {
            Action::Terminate(Termination::IdleTimeoutReached { idle })
        } else {
            Action::ReportIdle { idle, interval: config.poll_interval }
        }
    }
}

impl Termination {
    /// The status to end the process with.
    pub open spec fn spec_exit_status(&self) -> i32 {
        match self {
            Termination::IdleTimeoutReached { .. } => EXIT_SUCCESS,
            Termination::SourceFailed => EXIT_FAILURE,
        }
    }

    /// The status to end the process with: success after an idle timeout, failure
    /// after a failed read.
    #[verifier::when_used_as_spec(spec_exit_status)]
    pub fn exit_status(&self) -> (status: i32)
        ensures
            status == self.spec_exit_status(),
            (status == 0) == (*self is IdleTimeoutReached),
    {
        match self {
            Termination::IdleTimeoutReached { .. } => EXIT_SUCCESS,
            Termination::SourceFailed => EXIT_FAILURE,
        }
    }
}

impl Action {
    /// Whether the action ends the monitor.
    pub open spec fn spec_is_terminal(&self) -> bool {
        *self is Terminate
    }

    /// Whether the action ends the monitor.
    #[verifier::when_used_as_spec(spec_is_terminal)]
    pub fn is_terminal(&self) -> (terminal: bool)
        ensures
            terminal == self.spec_is_terminal(),
    {
        match self {
            Action::Terminate(_) => true,
            _ => false,
        }
    }
}

impl MonitorConfig {
    /// A configuration of the three given values.
    pub fn new(
        monitored_ports: MonitoredPortSet,
        poll_interval: Span,
        idle_threshold: Span,
    ) -> (config: MonitorConfig)
        ensures
            config.monitored_ports == monitored_ports,
            config.poll_interval == poll_interval,
            config.idle_threshold == idle_threshold,
    {
        MonitorConfig { monitored_ports, poll_interval, idle_threshold }
    }

    /// The SSH and editor ports, polled every five seconds, with sixty seconds of
    /// idle time tolerated.
    pub fn standard() -> (config: MonitorConfig)
        ensures
            config.monitored_ports@ == set![SSH_PORT, CODE_SERVER_PORT],
            config.poll_interval.nanos == 5_000_000_000u128,
            config.idle_threshold.nanos == 60_000_000_000u128,
    {
        MonitorConfig {
            monitored_ports: MonitoredPortSet::standard(),
            poll_interval: Span::from_secs(DEFAULT_POLL_INTERVAL_SECS),
            idle_threshold: Span::from_secs(DEFAULT_IDLE_THRESHOLD_SECS),
        }
    }
}

impl Default for MonitorConfig {
    /// The standard configuration.
    fn default() -> (config: MonitorConfig)
        ensures
            config.monitored_ports@ == set![SSH_PORT, CODE_SERVER_PORT],
            config.poll_interval.nanos == 5_000_000_000u128,
            config.idle_threshold.nanos == 60_000_000_000u128,
    {
        MonitorConfig::standard()
    }
}

impl ActivityState {
    /// The time of the most recent poll that saw a qualifying connection, or the
    /// time the state was created at if none did.
    pub closed spec fn spec_last_active_at(&self) -> Timestamp {
        self.last_active_at
    }

    /// A state that counts `now` as the last moment of activity.
    pub fn new(now: Timestamp) -> (state: ActivityState)
        ensures
            state.last_active_at() == now,
    {
        ActivityState { last_active_at: now }
    }

    /// The time of the most recent poll that saw a qualifying connection, or the
    /// time the state was created at if none did.
    #[verifier::when_used_as_spec(spec_last_active_at)]
    pub fn last_active_at(&self) -> (t: Timestamp)
        ensures
            t == self.spec_last_active_at(),
    {
        self.last_active_at
    }

    /// Time without activity as of `now`; zero if `now` lies before the last
    /// activity.
    pub fn idle_duration(&self, now: Timestamp) -> (idle: Span)
        ensures
            idle == elapsed_between(self.last_active_at(), now),
    {
        now.saturating_duration_since(&self.last_active_at)
    }

    /// Records activity seen at `now`. The time held never moves back: a `now`
    /// before it leaves it as it is.
    pub fn mark_active(&mut self, now: Timestamp)
        ensures
            final(self).last_active_at() == if now.nanos >= old(self).last_active_at().nanos {
                now
            } else {
                old(self).last_active_at()
            },
    {
        if now.nanos >= self.last_active_at.nanos {
            self.last_active_at = now;
        }
    }
}

impl ActivityMonitor {
    /// The configuration the monitor was started with.
    pub closed spec fn spec_config(&self) -> &MonitorConfig {
        &self.config
    }

    /// The monitor's state.
    pub closed spec fn spec_state(&self) -> ActivityState {
        self.state
    }

    /// The last-active time the monitor holds.
    pub open spec fn last_active_at(&self) -> Timestamp {
        self.spec_state().last_active_at()
    }

    /// A monitor started at `now`, which counts as the first moment of activity.
    pub fn new(config: MonitorConfig, now: Timestamp) -> (monitor: ActivityMonitor)
        ensures
            *monitor.config() == config,
            monitor.last_active_at() == now,
    {
        ActivityMonitor { config, state: ActivityState::new(now) }
    }

    /// The configuration the monitor was started with.
    #[verifier::when_used_as_spec(spec_config)]
    pub fn config(&self) -> (config: &MonitorConfig)
        ensures
            config == self.spec_config(),
    {
        &self.config
    }

    /// The monitor's state.
    #[verifier::when_used_as_spec(spec_state)]
    pub fn state(&self) -> (state: ActivityState)
        ensures
            state == self.spec_state(),
    {
        self.state
    }

    /// One poll cycle: takes the sample read at `now` and says what to do next.
    ///
    /// A failed read ends the monitor at once. A sample with a qualifying
    /// connection makes `now` the last-active time. Otherwise the idle time is
    /// measured from the last-active time, and the monitor ends if and only if it
    /// is strictly greater than the threshold.
    pub fn poll(&mut self, now: Timestamp, sample: &Sample) -> (action: Action)
        ensures
            action == action_for(*old(self).config(), old(self).last_active_at(), now, *sample),
            final(self).last_active_at() == next_last_active(
                old(self).last_active_at(),
                now,
                *sample,
                old(self).config().monitored_ports@,
            ),
            final(self).config() == old(self).config(),
    {
        match sample {
            Err(_) => Action::Terminate(Termination::SourceFailed),
            Ok(entries) => {
                if count_conns(entries, &self.config.monitored_ports) > 0 {
                    self.state.mark_active(now);
                    Action::Sleep { interval: self.config.poll_interval }
                } else {
                    let idle = self.state.idle_duration(now);
                    if idle.exceeds(&self.config.idle_threshold) {
                        Action::Terminate(Termination::IdleTimeoutReached { idle })
                    } else {
                        Action::ReportIdle { idle, interval: self.config.poll_interval }
                    }
                }
            },
        }
    }
}

} // verus!
