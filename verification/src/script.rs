//! Running the monitor against a prepared sequence of polls.
//!
//! A script stands in for the clock and the connection source: each entry gives the
//! time of one poll and the sample read at it. The run makes the polls in order and
//! stops at the first one that ends the monitor, as the live loop does.

use vstd::prelude::*;
use crate::monitor::{
    action_for, next_last_active, Action, ActivityMonitor, MonitorConfig, Sample, Termination,
};
use crate::time::Timestamp;

verus! {

/// One prepared poll: the clock reading and what the connection source gives.
#[derive(Debug)]
pub struct ScriptedPoll {
    pub at: Timestamp,
    pub sample: Sample,
}

/// How a run over a script ended.
#[derive(Clone, Copy, Debug, PartialEq, Eq, Structural)]
pub enum RunOutcome {
    /// Every poll was made and none ended the monitor.
    StillRunning,
    /// The poll at index `poll` ended the monitor; the polls behind it were not made.
    Terminated { poll: usize, reason: Termination },
}

/// The last-active time once the first `n` polls of the script have been made by a
/// monitor that held `start` before them.
pub open spec fn last_active_after(
    ports: Set<u16>,
    start: Timestamp,
    polls: Seq<ScriptedPoll>,
    n: nat,
) -> Timestamp
    recommends
        n <= polls.len(),
    decreases n,
{
    if n == 0 {
        start
    } else {
        next_last_active(
            last_active_after(ports, start, polls, (n - 1) as nat),
            polls[n - 1].at,
            polls[n - 1].sample,
            ports,
        )
    }
}

/// The outcome of a run over the first `n` polls of the script, by a monitor that
/// held `start` as its last-active time before them. Once a poll has ended the
/// monitor, the polls behind it change nothing.
pub open spec fn outcome_after(
    config: MonitorConfig,
    start: Timestamp,
    polls: Seq<ScriptedPoll>,
    n: nat,
) -> RunOutcome
    recommends
        n <= polls.len(),
    decreases n,
{
    if n == 0 {
        RunOutcome::StillRunning
    } else {
        let before = outcome_after(config, start, polls, (n - 1) as nat);
        if before is Terminated {
            before
        } else {
            let last_active_at = last_active_after(
                config.monitored_ports@,
                start,
                polls,
                (n - 1) as nat,
            );
            match action_for(config, last_active_at, polls[n - 1].at, polls[n - 1].sample) {
                Action::Terminate(reason) => RunOutcome::Terminated {
                    poll: (n - 1) as usize,
                    reason,
                },
                _ => RunOutcome::StillRunning,
            }
        }
    }
}

impl RunOutcome {
    /// How many polls of a script of `len` entries a run with this outcome made.
    pub open spec fn polls_made(&self, len: nat) -> nat {
        match self {
            RunOutcome::StillRunning => len,
            RunOutcome::Terminated { poll, .. } => (poll + 1) as nat,
        }
    }
}

/// A run that has ended stays ended: making the script longer changes neither the
/// poll at which it ended nor the reason.
pub proof fn lemma_termination_is_final(
    config: MonitorConfig,
    start: Timestamp,
    polls: Seq<ScriptedPoll>,
    n: nat,
    m: nat,
)
    requires
        n <= m,
        outcome_after(config, start, polls, n) is Terminated,
    ensures
        outcome_after(config, start, polls, m) == outcome_after(config, start, polls, n),
    decreases m,
{
    if n < m {
        lemma_termination_is_final(config, start, polls, n, (m - 1) as nat);
    }
}

impl ActivityMonitor {
    /// Makes the polls of `script` in order until one ends the monitor or the script
    /// is used up, and says which.
    pub fn run_script(&mut self, script: &Vec<ScriptedPoll>) -> (outcome: RunOutcome)
        ensures
            outcome == outcome_after(
                *old(self).config(),
                old(self).last_active_at(),
                script@,
                script@.len(),
            ),
            final(self).last_active_at() == last_active_after(
                old(self).config().monitored_ports@,
                old(self).last_active_at(),
                script@,
                outcome.polls_made(script@.len()),
            ),
            final(self).config() == old(self).config(),
    {
        let ghost config = *self.config();
        let ghost start = self.last_active_at();
        let mut i: usize = 0;
        while i < script.len()
            invariant
                i <= script.len(),
                config == *old(self).config(),
                start == old(self).last_active_at(),
                *self.config() == config,
                outcome_after(config, start, script@, i as nat) is StillRunning,
                self.last_active_at() == last_active_after(
                    config.monitored_ports@,
                    start,
                    script@,
                    i as nat,
                ),
            decreases script.len() - i,
        {
            let action = self.poll(script[i].at, &script[i].sample);
            if let Action::Terminate(reason) = action {
                let outcome = RunOutcome::Terminated { poll: i, reason };
                proof {
                    assert(outcome_after(config, start, script@, (i + 1) as nat) == outcome);
                    lemma_termination_is_final(
                        config,
                        start,
                        script@,
                        (i + 1) as nat,
                        script@.len(),
                    );
                }
                return outcome;
            }
            i += 1;
        }
        RunOutcome::StillRunning
    }
}

} // verus!
