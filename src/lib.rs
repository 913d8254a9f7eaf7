//! Posts standard-input text as a note on a preselected issue of an
//! issue tracker, after a one-time interactive setup.
//!
//! The library holds the decisions: when a stored configuration is
//! complete, which requests go to the tracker and with what bodies, how a
//! response status is judged, the steps of the setup wizard and the routing
//! of the two subcommands. Prompts, requests and the configuration file are
//! left to the caller.
pub mod api;
pub mod config;
pub mod dispatch;
pub mod issue_id;
pub mod send;
pub mod text;
pub mod wizard;

pub use config::{CompleteConfig, Config};
