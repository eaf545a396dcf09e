//! What holds of every run of the monitor.

use vstd::prelude::*;
use crate::monitor::{
    action_for, is_active, is_quiet, next_last_active, Action, MonitorConfig, Sample, Termination,
};
use crate::script::{last_active_after, outcome_after, RunOutcome, ScriptedPoll};
use crate::time::{Span, Timestamp};

verus! {

/// The polls of a script are in the order of a monotonic clock: none is earlier
/// than one before it.
pub open spec fn in_order(polls: Seq<ScriptedPoll>) -> bool {
    forall|i: int, j: int|
        0 <= i <= j < polls.len() ==> (#[trigger] polls[i]).at.nanos
            <= (#[trigger] polls[j]).at.nanos
}

/// The polls are in order and none is earlier than `start`, the time at which the
/// monitor was started.
pub open spec fn chronological(start: Timestamp, polls: Seq<ScriptedPoll>) -> bool {
    &&& in_order(polls)
    &&& forall|i: int| 0 <= i < polls.len() ==> start.nanos <= (#[trigger] polls[i]).at.nanos
}

impl RunOutcome {
    /// The run ended because the idle threshold was exceeded.
    pub open spec fn is_idle_shutdown(&self) -> bool {
        *self matches RunOutcome::Terminated { reason, .. } && reason is IdleTimeoutReached
    }

    /// The run ended because a read of the connection table failed.
    pub open spec fn is_source_failure(&self) -> bool {
        *self matches RunOutcome::Terminated { reason, .. } && reason is SourceFailed
    }
}

/// The idle threshold is exclusive. A poll that finds no qualifying connection ends
/// the monitor if and only if the idle time is strictly greater than the threshold:
/// at exactly the threshold the monitor reports and goes on, one nanosecond later
/// it stops.
pub proof fn lemma_threshold_is_exclusive(
    config: MonitorConfig,
    last_active_at: Timestamp,
    now: Timestamp,
    sample: Sample,
)
    requires
        is_quiet(sample, config.monitored_ports@),
        now.nanos >= last_active_at.nanos,
    ensures
        action_for(config, last_active_at, now, sample) is Terminate <==> now.nanos
            - last_active_at.nanos > config.idle_threshold.nanos,
        now.nanos - last_active_at.nanos == config.idle_threshold.nanos ==> action_for(
            config,
            last_active_at,
            now,
            sample,
        ) == (Action::ReportIdle {
            idle: config.idle_threshold,
            interval: config.poll_interval,
        }),
        now.nanos - last_active_at.nanos == config.idle_threshold.nanos + 1 ==> action_for(
            config,
            last_active_at,
            now,
            sample,
        ) == Action::Terminate(
            Termination::IdleTimeoutReached {
                idle: (Span { nanos: (config.idle_threshold.nanos + 1) as u128 }),
            },
        ),
{
}

/// The monitor stops for idleness only from an idle cycle: a poll that sees a
/// qualifying connection never ends it, whatever the clock reads, and a poll that
/// fails ends it with the failure, never as an idle timeout.
pub proof fn lemma_active_poll_never_terminates(
    config: MonitorConfig,
    last_active_at: Timestamp,
    now: Timestamp,
    sample: Sample,
)
    ensures
        is_active(sample, config.monitored_ports@) ==> action_for(
            config,
            last_active_at,
            now,
            sample,
        ) == (Action::Sleep { interval: config.poll_interval }),
        sample is Err <==> action_for(config, last_active_at, now, sample) == Action::Terminate(
            Termination::SourceFailed,
        ),
{
}

/// Polling again at the same clock reading with the same active sample changes
/// nothing: the last-active time after the second poll is that after the first, it
/// is the later of the reading and the time held before, and both polls call for
/// the same action. Activity is confirmed, not added up.
pub proof fn lemma_repeated_poll_is_idempotent(
    config: MonitorConfig,
    last_active_at: Timestamp,
    now: Timestamp,
    sample: Sample,
)
    requires
        is_active(sample, config.monitored_ports@),
    ensures
        ({
            let ports = config.monitored_ports@;
            let once = next_last_active(last_active_at, now, sample, ports);
            let twice = next_last_active(once, now, sample, ports);
            &&& twice == once
            &&& once == if now.nanos >= last_active_at.nanos {
                now
            } else {
                last_active_at
            }
            &&& action_for(config, once, now, sample) == action_for(
                config,
                last_active_at,
                now,
                sample,
            )
        }),
{
}

/// The last-active time never moves back, over any script: after more polls it is
/// the same or later.
pub proof fn lemma_last_active_never_moves_back(
    ports: Set<u16>,
    start: Timestamp,
    polls: Seq<ScriptedPoll>,
    n: nat,
    m: nat,
)
    requires
        n <= m,
    ensures
        last_active_after(ports, start, polls, n).nanos <= last_active_after(
            ports,
            start,
            polls,
            m,
        ).nanos,
    decreases m,
{
    if n < m {
        lemma_last_active_never_moves_back(ports, start, polls, n, (m - 1) as nat);
    }
}

/// On a chronological script the last-active time is never ahead of the clock: it
/// is the start time or the time of a poll already made, and so not later than the
/// latest poll made.
pub proof fn lemma_last_active_not_ahead_of_clock(
    ports: Set<u16>,
    start: Timestamp,
    polls: Seq<ScriptedPoll>,
    n: nat,
)
    requires
        chronological(start, polls),
        n <= polls.len(),
    ensures
        start.nanos <= last_active_after(ports, start, polls, n).nanos,
        n == 0 ==> last_active_after(ports, start, polls, n) == start,
        n > 0 ==> last_active_after(ports, start, polls, n).nanos <= polls[n - 1].at.nanos,
    decreases n,
{
    if n > 0 {
        lemma_last_active_not_ahead_of_clock(ports, start, polls, (n - 1) as nat);
        if n > 1 {
            assert(polls[n - 2].at.nanos <= polls[n - 1].at.nanos);
        }
        assert(start.nanos <= polls[n - 1].at.nanos);
    }
}

/// Repeated polls at one clock reading, each with an active sample, leave the
/// last-active time where the first of them put it.
pub proof fn lemma_repeated_polls_confirm_activity(
    ports: Set<u16>,
    start: Timestamp,
    polls: Seq<ScriptedPoll>,
    n: nat,
)
    requires
        1 <= n <= polls.len(),
        forall|i: int|
            0 <= i < n ==> (#[trigger] polls[i]).at == polls[0].at && is_active(
                polls[i].sample,
                ports,
            ),
    ensures
        last_active_after(ports, start, polls, n) == last_active_after(ports, start, polls, 1),
        last_active_after(ports, start, polls, n) == if polls[0].at.nanos >= start.nanos {
            polls[0].at
        } else {
            start
        },
    decreases n,
{
    assert(last_active_after(ports, start, polls, 0) == start);
    assert(is_active(polls[0].sample, ports));
    if n > 1 {
        lemma_repeated_polls_confirm_activity(ports, start, polls, (n - 1) as nat);
        assert(polls[n - 1].at == polls[0].at);
    }
}

/// Activity inside the window keeps the monitor running. If the monitor has not
/// shut down before poll `j`, poll `j` sees a qualifying connection, and poll `k`
/// comes no more than the idle threshold after poll `j`, then the monitor has not
/// shut down for idleness after poll `k` either.
pub proof fn lemma_recent_activity_prevents_shutdown(
    config: MonitorConfig,
    start: Timestamp,
    polls: Seq<ScriptedPoll>,
    j: nat,
    k: nat,
)
    requires
        in_order(polls),
        j <= k < polls.len(),
        !outcome_after(config, start, polls, j).is_idle_shutdown(),
        is_active(polls[j as int].sample, config.monitored_ports@),
        polls[k as int].at.nanos - polls[j as int].at.nanos <= config.idle_threshold.nanos,
    ensures
        !outcome_after(config, start, polls, k + 1).is_idle_shutdown(),
        last_active_after(config.monitored_ports@, start, polls, k + 1).nanos
            >= polls[j as int].at.nanos,
    decreases k,
{
    if j < k {
        assert(polls[j as int].at.nanos <= polls[k - 1].at.nanos);
        assert(polls[k - 1].at.nanos <= polls[k as int].at.nanos);
        lemma_recent_activity_prevents_shutdown(config, start, polls, j, (k - 1) as nat);
    }
}

/// A monitor started inside the window keeps running: while no poll comes more
/// than the idle threshold after the start, none shuts the monitor down.
pub proof fn lemma_no_shutdown_within_threshold_of_start(
    config: MonitorConfig,
    start: Timestamp,
    polls: Seq<ScriptedPoll>,
    n: nat,
)
    requires
        n <= polls.len(),
        forall|i: int|
            0 <= i < n ==> (#[trigger] polls[i]).at.nanos - start.nanos
                <= config.idle_threshold.nanos,
    ensures
        !outcome_after(config, start, polls, n).is_idle_shutdown(),
    decreases n,
{
    if n > 0 {
        lemma_no_shutdown_within_threshold_of_start(config, start, polls, (n - 1) as nat);
        lemma_last_active_never_moves_back(
            config.monitored_ports@,
            start,
            polls,
            0,
            (n - 1) as nat,
        );
        assert(polls[n - 1].at.nanos - start.nanos <= config.idle_threshold.nanos);
    }
}

/// Over a stretch of polls that all find no qualifying connection, the last-active
/// time stays what it was and no read fails.
proof fn lemma_quiet_stretch(
    config: MonitorConfig,
    start: Timestamp,
    polls: Seq<ScriptedPoll>,
    j: nat,
    n: nat,
)
    requires
        j <= n <= polls.len(),
        forall|i: int|
            j <= i < n ==> is_quiet((#[trigger] polls[i]).sample, config.monitored_ports@),
        !outcome_after(config, start, polls, j).is_source_failure(),
    ensures
        last_active_after(config.monitored_ports@, start, polls, n) == last_active_after(
            config.monitored_ports@,
            start,
            polls,
            j,
        ),
        !outcome_after(config, start, polls, n).is_source_failure(),
    decreases n,
{
    if j < n {
        lemma_quiet_stretch(config, start, polls, j, (n - 1) as nat);
        assert(is_quiet(polls[n - 1].sample, config.monitored_ports@));
    }
}

/// Idleness beyond the threshold stops the monitor, with success. If no read has
/// failed before poll `j`, the polls from `j` to `k` all find no qualifying
/// connection, and poll `k` comes strictly more than the idle threshold after poll
/// `j`, then after poll `k` the monitor has shut down for idleness, and its exit
/// status is zero.
pub proof fn lemma_prolonged_idleness_shuts_down(
    config: MonitorConfig,
    start: Timestamp,
    polls: Seq<ScriptedPoll>,
    j: nat,
    k: nat,
)
    requires
        chronological(start, polls),
        j <= k < polls.len(),
        !outcome_after(config, start, polls, j).is_source_failure(),
        forall|i: int|
            j <= i <= k ==> is_quiet((#[trigger] polls[i]).sample, config.monitored_ports@),
        polls[k as int].at.nanos - polls[j as int].at.nanos > config.idle_threshold.nanos,
    ensures
        outcome_after(config, start, polls, k + 1).is_idle_shutdown(),
        outcome_after(config, start, polls, k + 1) matches RunOutcome::Terminated { reason, .. }
            && reason.exit_status() == 0,
{
    let ports = config.monitored_ports@;
    lemma_quiet_stretch(config, start, polls, j, k);
    lemma_last_active_not_ahead_of_clock(ports, start, polls, j);
    assert(last_active_after(ports, start, polls, j).nanos <= polls[j as int].at.nanos) by {
        if j > 0 {
            assert(polls[j - 1].at.nanos <= polls[j as int].at.nanos);
        }
    }
    assert(polls[j as int].at.nanos <= polls[k as int].at.nanos);
    assert(is_quiet(polls[k as int].sample, ports));
}

/// A run ends at the first poll that calls for it. If the run over the first `n`
/// polls has ended, the poll it names is one of them, the run was still going
/// before that poll, and that poll's action is to terminate for the reason given.
pub proof fn lemma_run_ends_at_first_terminal_poll(
    config: MonitorConfig,
    start: Timestamp,
    polls: Seq<ScriptedPoll>,
    n: nat,
)
    requires
        n <= polls.len() <= usize::MAX,
    ensures
        outcome_after(config, start, polls, n) matches RunOutcome::Terminated { poll, reason } ==> {
            &&& poll < n
            &&& outcome_after(config, start, polls, poll as nat) is StillRunning
            &&& action_for(
                config,
                last_active_after(config.monitored_ports@, start, polls, poll as nat),
                polls[poll as int].at,
                polls[poll as int].sample,
            ) == Action::Terminate(reason)
        },
        outcome_after(config, start, polls, n) is StillRunning ==> forall|i: int|
            0 <= i < n ==> !(#[trigger] action_for(
                config,
                last_active_after(config.monitored_ports@, start, polls, i as nat),
                polls[i].at,
                polls[i].sample,
            ) is Terminate),
    decreases n,
{
    if n > 0 {
        lemma_run_ends_at_first_terminal_poll(config, start, polls, (n - 1) as nat);
    }
}

} // verus!
