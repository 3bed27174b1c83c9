//! Messages exchanged between the agent and the command-line tool.
use vstd::prelude::*;

verus! {

/// A system metrics sample.  The CPU and disk usage percentages are held by
/// the bit patterns of their `f32` values; the timestamp is in milliseconds
/// since the Unix epoch.
#[derive(Debug, Clone)]
pub struct SystemSnapshot {
    pub timestamp_millis: i64,
    pub cpu_usage_bits: u32,
    pub memory_used: u64,
    pub memory_total: u64,
    pub disk_usage_bits: u32,
}

/// A named metric sample; `value_bits` is the bit pattern of the `f64` value.
#[derive(Debug, Clone)]
pub struct Metric {
    pub timestamp_millis: i64,
    pub name: String,
    pub value_bits: u64,
    pub labels: Vec<(String, String)>,
}

/// Messages sent from the agent.
#[derive(Debug, Clone)]
pub enum AgentMessage {
    /// Initial handshake from agent to CLI.
    Connect { agent_id: String, hostname: String, version: String },
    /// Periodic metrics update.
    Metrics(SystemSnapshot),
    /// Health check result.
    HealthResult { check_name: String, success: bool, message: Option<String>, duration_ms: u64 },
    /// Log line stream.
    LogLine { container_name: String, line: String, timestamp: String },
    /// Error notification.
    Error(String),
    /// Build status update.
    BuildUpdate { project_name: String, event: BuildEvent },
    /// Rollback status update.
    RollbackUpdate { project_name: String, event: RollbackEvent },
}

/// Build progress.
#[derive(Debug, Clone)]
pub enum BuildEvent {
    Started,
    Log(String),
    Success,
    Failed(String),
}

/// Rollback progress.
#[derive(Debug, Clone)]
pub enum RollbackEvent {
    SnapshotStarted { snapshot_id: String, strategy: String },
    SnapshotCreated { snapshot_id: String, strategy: String },
    RollbackStarted { from_snapshot_id: String, to_snapshot_id: String, reason: String },
    RollbackProgress(String),
    RollbackSuccess { snapshot_id: String, duration_secs: u64 },
    RollbackFailed { error: String },
}

/// Commands sent from the CLI.
#[derive(Debug)]
pub enum CliCommand {
    /// Request a health check (`check_type`: http, tcp, command).
    RunHealthCheck { check_type: String, target: String },
    /// Start streaming logs.
    StreamLogs { container_name: String, follow: bool },
    /// Execute a remote command.
    Execute(String),
}

} // verus!
