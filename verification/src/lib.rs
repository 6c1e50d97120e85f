//! Supervision of a single long-running MCP server binary: building its
//! command line from structured options, planning its launch, decoding its
//! output streams into line events, and racing cancellation against exit.
//!
//! The library holds the pure, verified core. Launching a real process and
//! pumping its streams is the host application's job; it drives the state
//! machines and decoders defined here.

pub mod command;
pub mod events;
pub mod forwarder;
pub mod monitor;
pub mod options;
pub mod supervisor;

pub use events::ExitInfo;
pub use events::McpServerLog;
pub use events::McpServerLogView;
pub use events::RunMcpServerBinaryError;
pub use events::StreamKind;
pub use forwarder::LineSplitter;
pub use forwarder::StreamForwarder;
pub use monitor::MonitorAction;
pub use monitor::MonitorEvent;
pub use monitor::MonitorState;
pub use options::McpServerOpts;
pub use options::MutationMode;
pub use supervisor::BinaryVersion;
pub use supervisor::LaunchOutcome;
pub use supervisor::LaunchPlan;
pub use supervisor::McpServerBinary;
pub use supervisor::RunMcpServerBinary;
pub use supervisor::StdioMode;
