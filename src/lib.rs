//! A command-line client library for a continuous-integration server's REST
//! interface: job-tree resolution, build triggering with queue tracking,
//! progressive console-log streaming, and the host/alias configuration store.
pub mod text;
pub mod urls;
pub mod model;
pub mod formatting;
pub mod resolver;
pub mod trigger;
pub mod logs;
pub mod table;
pub mod config;
pub mod params;
pub mod validation;
pub mod client;
pub mod cli;
pub mod listing;
pub mod commands;
