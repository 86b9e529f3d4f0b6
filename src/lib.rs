//! File-based logging for a desktop application: where the log files live,
//! how the backend and frontend log lines read, and which severities are kept.
pub mod commands;
pub mod logging;
