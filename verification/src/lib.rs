//! Activity-based idle-shutdown monitoring.
//!
//! A supervisor samples the machine's TCP connections at a fixed interval. While at
//! least one established connection exists on a monitored port the machine counts as
//! in use; once no such connection has been seen for longer than the idle threshold,
//! the supervisor is told to shut the machine down.
//!
//! The crate holds the decisions only. Reading the clock, reading the connection
//! table, sleeping and exiting are the caller's part: it hands each sample to
//! [`ActivityMonitor::poll`] and carries out the [`Action`] that comes back.

pub mod connection;
pub mod laws;
pub mod monitor;
pub mod script;
pub mod time;

pub use connection::{
    count_conns, ConnectionObservation, MonitoredPortSet, TcpState, CODE_SERVER_PORT, SSH_PORT,
};
pub use monitor::{
    Action, ActivityMonitor, ActivityState, ConnectionSourceFailure, MonitorConfig, Sample,
    Termination,
};
pub use script::{RunOutcome, ScriptedPoll};
pub use time::{Span, Timestamp};
