//! Status and supervision logic of the InnoApp print-capture agent: the Windows
//! service that keeps the agent running, and the tray viewer that shows its state.
pub mod timestamp;
pub mod calendar;
pub mod clock;
pub mod connection;
pub mod protocol;
pub mod state;
pub mod tray;
pub mod supervisor;
pub mod service;
pub mod agent_runtime;
