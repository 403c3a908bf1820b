//! The options that the daemon is started with.

use vstd::prelude::*;

verus! {

/// How much is written to the log.
#[derive(Clone, Copy, Debug, PartialEq, Eq, Structural)]
pub enum LevelFilter {
    /// A level lower than all log levels.
    Off,
    /// Corresponds to the `Error` log level.
    Error,
    /// Corresponds to the `Warn` log level.
    Warn,
    /// Corresponds to the `Info` log level.
    Info,
    /// Corresponds to the `Debug` log level.
    Debug,
    /// Corresponds to the `Trace` log level.
    Trace,
}

/// The options that the daemon is started with.
#[derive(Debug)]
pub struct Cli {
    /// Minimum log level to print out
    pub log_level: LevelFilter,
    /// Location of the daemon configuration file on disk
    pub config: String,
    /// Disable the HTTP Server and Client Web UI
    pub http_disable: bool,
    /// Define the port the HTTP Server should listen on
    pub http_port: u16,
    /// Enable CORS on the HTTP Server to allow cross-origin communication
    pub http_enable_cors: bool,
    /// Set the HTTP Bind Address (0.0.0.0 for all interfaces)
    pub http_bind_address: String,
    /// Disable the Tray Icon
    pub disable_tray: bool,
    /// Force Run the Daemon as Root
    pub force_root: bool,
    /// Automatically Launch the UI on Start
    pub start_ui: bool,
}

} // verus!
