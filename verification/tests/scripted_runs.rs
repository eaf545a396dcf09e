use idlewatch::{
    Action, ActivityMonitor, ConnectionObservation, ConnectionSourceFailure, MonitorConfig,
    MonitoredPortSet, RunOutcome, Sample, ScriptedPoll, Span, TcpState, Termination, Timestamp,
};

fn config_60s() -> MonitorConfig {
    MonitorConfig::new(
        MonitoredPortSet::new(vec![22, 8080]),
        Span::from_secs(5),
        Span::from_secs(60),
    )
}

fn established(port: u16) -> ConnectionObservation {
    ConnectionObservation::new(TcpState::Established, port)
}

fn poll_at(secs: u64, entries: Vec<ConnectionObservation>) -> ScriptedPoll {
    ScriptedPoll { at: Timestamp::from_secs(secs), sample: Ok(entries) }
}

fn failed_poll_at(secs: u64, detail: &str) -> ScriptedPoll {
    ScriptedPoll {
        at: Timestamp::from_secs(secs),
        sample: Err(ConnectionSourceFailure { detail: detail.to_string() }),
    }
}

#[test]
fn one_connection_at_start_then_none_terminates_at_65s() {
    let mut monitor = ActivityMonitor::new(config_60s(), Timestamp::from_secs(0));
    let mut script = vec![poll_at(0, vec![established(8080)])];
    for step in 1..=20u64 {
        script.push(poll_at(5 * step, vec![]));
    }
    let outcome = monitor.run_script(&script);
    assert_eq!(
        outcome,
        RunOutcome::Terminated {
            poll: 13,
            reason: Termination::IdleTimeoutReached { idle: Span::from_secs(65) },
        }
    );
    assert_eq!(script[13].at, Timestamp::from_secs(65));
    assert_eq!(monitor.state().last_active_at(), Timestamp::from_secs(0));
}

#[test]
fn idle_reports_grow_until_shutdown_at_65s() {
    let mut monitor = ActivityMonitor::new(config_60s(), Timestamp::from_secs(0));
    let first: Sample = Ok(vec![established(8080)]);
    assert_eq!(
        monitor.poll(Timestamp::from_secs(0), &first),
        Action::Sleep { interval: Span::from_secs(5) }
    );
    let none: Sample = Ok(vec![]);
    for step in 1..=12u64 {
        let action = monitor.poll(Timestamp::from_secs(5 * step), &none);
        assert_eq!(
            action,
            Action::ReportIdle { idle: Span::from_secs(5 * step), interval: Span::from_secs(5) }
        );
    }
    let last = monitor.poll(Timestamp::from_secs(65), &none);
    assert_eq!(
        last,
        Action::Terminate(Termination::IdleTimeoutReached { idle: Span::from_secs(65) })
    );
    match last {
        Action::Terminate(reason) => assert_eq!(reason.exit_status(), 0),
        _ => panic!("the monitor should have stopped"),
    }
}

#[test]
fn connection_every_50s_never_terminates() {
    let mut monitor = ActivityMonitor::new(config_60s(), Timestamp::from_secs(0));
    let mut script = Vec::new();
    for step in 0..=400u64 {
        let t = 5 * step;
        let entries = if t % 50 == 0 { vec![established(8080)] } else { vec![] };
        script.push(poll_at(t, entries));
    }
    assert_eq!(monitor.run_script(&script), RunOutcome::StillRunning);
    assert_eq!(monitor.state().last_active_at(), Timestamp::from_secs(2000));
}

#[test]
fn with_connection_every_50s_idle_time_never_passes_45s() {
    let mut monitor = ActivityMonitor::new(config_60s(), Timestamp::from_secs(0));
    let mut longest: u128 = 0;
    for step in 0..=100u64 {
        let t = 5 * step;
        let sample: Sample =
            if t % 50 == 0 { Ok(vec![established(8080)]) } else { Ok(vec![]) };
        match monitor.poll(Timestamp::from_secs(t), &sample) {
            Action::Sleep { interval } => assert_eq!(interval, Span::from_secs(5)),
            Action::ReportIdle { idle, .. } => {
                assert_eq!(idle, Span::from_secs(t % 50));
                if idle.nanos > longest {
                    longest = idle.nanos;
                }
            }
            Action::Terminate(_) => panic!("stopped at {t}s"),
        }
    }
    assert_eq!(longest, 45_000_000_000);
}

#[test]
fn unmonitored_port_is_treated_as_no_connection() {
    let mut monitor = ActivityMonitor::new(config_60s(), Timestamp::from_secs(0));
    let mut script = Vec::new();
    for step in 0..=20u64 {
        script.push(poll_at(5 * step, vec![established(443)]));
    }
    let outcome = monitor.run_script(&script);
    assert_eq!(
        outcome,
        RunOutcome::Terminated {
            poll: 13,
            reason: Termination::IdleTimeoutReached { idle: Span::from_secs(65) },
        }
    );
    assert_eq!(monitor.state().last_active_at(), Timestamp::from_secs(0));
}

#[test]
fn unmonitored_port_first_poll_reports_idle() {
    let mut monitor = ActivityMonitor::new(config_60s(), Timestamp::from_secs(0));
    let sample: Sample = Ok(vec![established(443)]);
    assert_eq!(
        monitor.poll(Timestamp::from_secs(5), &sample),
        Action::ReportIdle { idle: Span::from_secs(5), interval: Span::from_secs(5) }
    );
}

#[test]
fn source_failure_stops_at_once_with_failure_status() {
    let mut monitor = ActivityMonitor::new(config_60s(), Timestamp::from_secs(0));
    let script = vec![
        poll_at(0, vec![established(22)]),
        poll_at(5, vec![]),
        failed_poll_at(10, "connection table unreadable"),
        poll_at(15, vec![established(22)]),
        poll_at(20, vec![established(22)]),
    ];
    let outcome = monitor.run_script(&script);
    assert_eq!(outcome, RunOutcome::Terminated { poll: 2, reason: Termination::SourceFailed });
    match outcome {
        RunOutcome::Terminated { reason, .. } => assert_ne!(reason.exit_status(), 0),
        RunOutcome::StillRunning => panic!("the monitor should have stopped"),
    }
    // the polls behind the failure were not made
    assert_eq!(monitor.state().last_active_at(), Timestamp::from_secs(0));
}

#[test]
fn failure_while_active_and_below_threshold() {
    let mut monitor = ActivityMonitor::new(config_60s(), Timestamp::from_secs(0));
    let failure: Sample = Err(ConnectionSourceFailure { detail: "boom".to_string() });
    let action = monitor.poll(Timestamp::from_secs(1), &failure);
    assert_eq!(action, Action::Terminate(Termination::SourceFailed));
    assert!(action.is_terminal());
    assert_eq!(monitor.state().last_active_at(), Timestamp::from_secs(0));
}

#[test]
fn failure_on_first_poll_of_script() {
    let mut monitor = ActivityMonitor::new(config_60s(), Timestamp::from_secs(0));
    let script = vec![failed_poll_at(0, "no table"), poll_at(100, vec![])];
    assert_eq!(
        monitor.run_script(&script),
        RunOutcome::Terminated { poll: 0, reason: Termination::SourceFailed }
    );
}

#[test]
fn failure_is_reported_even_when_idle_past_threshold() {
    let mut monitor = ActivityMonitor::new(config_60s(), Timestamp::from_secs(0));
    let failure: Sample = Err(ConnectionSourceFailure { detail: "late".to_string() });
    assert_eq!(
        monitor.poll(Timestamp::from_secs(500), &failure),
        Action::Terminate(Termination::SourceFailed)
    );
}

#[test]
fn empty_script_leaves_monitor_running() {
    let mut monitor = ActivityMonitor::new(config_60s(), Timestamp::from_secs(7));
    assert_eq!(monitor.run_script(&Vec::new()), RunOutcome::StillRunning);
    assert_eq!(monitor.state().last_active_at(), Timestamp::from_secs(7));
}

#[test]
fn run_stops_at_first_terminal_poll_and_ignores_later_activity() {
    let mut monitor = ActivityMonitor::new(config_60s(), Timestamp::from_secs(0));
    let script = vec![
        poll_at(30, vec![]),
        poll_at(61, vec![]),
        poll_at(62, vec![established(22)]),
        poll_at(200, vec![]),
    ];
    assert_eq!(
        monitor.run_script(&script),
        RunOutcome::Terminated {
            poll: 1,
            reason: Termination::IdleTimeoutReached { idle: Span::from_secs(61) },
        }
    );
    assert_eq!(monitor.state().last_active_at(), Timestamp::from_secs(0));
}

#[test]
fn activity_within_window_prevents_shutdown() {
    let mut monitor = ActivityMonitor::new(config_60s(), Timestamp::from_secs(0));
    let script = vec![
        poll_at(55, vec![]),
        poll_at(60, vec![established(22)]),
        poll_at(90, vec![]),
        poll_at(120, vec![]),
    ];
    assert_eq!(monitor.run_script(&script), RunOutcome::StillRunning);
    assert_eq!(monitor.state().last_active_at(), Timestamp::from_secs(60));
}

#[test]
fn quiet_stretch_longer_than_threshold_shuts_down_with_success() {
    let mut monitor = ActivityMonitor::new(config_60s(), Timestamp::from_secs(0));
    let script = vec![
        poll_at(10, vec![established(8080)]),
        poll_at(20, vec![]),
        poll_at(50, vec![]),
        poll_at(81, vec![]),
    ];
    let outcome = monitor.run_script(&script);
    assert_eq!(
        outcome,
        RunOutcome::Terminated {
            poll: 3,
            reason: Termination::IdleTimeoutReached { idle: Span::from_secs(71) },
        }
    );
    match outcome {
        RunOutcome::Terminated { reason, .. } => assert_eq!(reason.exit_status(), 0),
        RunOutcome::StillRunning => panic!("the monitor should have stopped"),
    }
}
