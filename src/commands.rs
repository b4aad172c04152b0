//! What the listing commands show, computed from the configuration.
pub mod alias;
pub mod config;
