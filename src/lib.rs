//! A single owner-controlled agent: a configuration set once, an on/off gate,
//! and an append-only log of the actions the agent has been told to perform.
//!
//! The host platform (storage, authorization, clock and notifications) stays
//! outside this crate: callers load the state, authenticate the owner, pass in
//! the current time, and persist what the operations leave behind.
pub mod types;
pub mod model;
pub mod agent;
pub mod laws;

pub use types::{Address, AgentConfig, Error, Execution};
pub use model::AgentState;
pub use agent::AIAgent;
