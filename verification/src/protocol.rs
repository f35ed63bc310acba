//! The status snapshot that the agent writes and the tray viewer reads.
use vstd::prelude::*;

verus! {

/// Who the agent is and how it reports itself: `status` is "ok", "error" or "unknown".
#[derive(Debug, Clone)]
pub struct AgentInfo {
    pub name: String,
    pub version: String,
    pub status: String,
}

/// A capture port (a printer or a serial port) the agent watches.
#[derive(Debug, Clone)]
pub struct PortInfo {
    pub id: String,
    pub name: String,
    pub description: String,
    pub status: String,
    pub last_activity_at: String,
}

/// A captured ticket. Reading the ticket (description, amount) happens in the cloud;
/// here it is only known that something was captured.
#[derive(Debug, Clone)]
pub struct TicketEvent {
    pub id: String,
    pub timestamp: String,
    pub port: String,
}

/// The agent's state as written to `status.json` under the shared data folder.
#[derive(Debug, Clone)]
pub struct StatusFile {
    pub written_at: String,
    pub agent: AgentInfo,
    pub status_message: Option<String>,
    pub ports: Vec<PortInfo>,
    pub recent_events: Vec<TicketEvent>,
}

} // verus!
