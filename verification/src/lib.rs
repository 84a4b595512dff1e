//! A log-monitoring engine in the manner of an intrusion-prevention
//! tool. It follows log files as they grow, hands what is new to
//! detector modules that are loaded at run time, and reads the host
//! firewall's status report into structured rules.
//!
//! The library holds the rules and the parsers; opening files, loading
//! code and running commands is left to the program around it, which
//! hands the library plain values and carries out what it asks for.

pub mod engine;
pub mod net;
pub mod nginx_plugin;
pub mod output_log;
pub mod pattern;
pub mod ssh_log;
pub mod storage;
pub mod text;
pub mod time;
pub mod ufw;
