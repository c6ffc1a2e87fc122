//! Plain data carried by the agent: its configuration, its log entries and
//! the errors its operations report.
use vstd::prelude::*;

verus! {

/// Recoverable failures of the agent's operations.
#[derive(Copy, Clone, Debug, PartialEq, Eq, Structural, PartialOrd, Ord)]
pub enum Error {
    /// The operation needs a configuration and none has been created yet.
    NotInitialized,
    /// `execute` was called while the agent is switched off.
    AgentInactive,
    /// `execute` was called with an amount that is zero or negative.
    InvalidAmount,
    /// `initialize` was called on an agent that already has a configuration.
    AlreadyInitialized,
}

/// The identity of a principal (an owner or a recipient), held as its
/// textual account id. The agent never looks inside it.
#[derive(Clone, Debug, PartialEq, Eq)]
pub struct Address {
    pub id: String,
}

impl Address {
    pub fn new(id: String) -> (r: Address)
        ensures
            r.id == id,
    {
        Address { id }
    }

    pub fn as_str(&self) -> (r: &str)
        ensures
            r@ == self.id@,
    {
        self.id.as_str()
    }
}

/// The agent's configuration: who owns it, what it is called, the strategy
/// tag it was given, whether it is switched on, and how many actions it has
/// carried out.
#[derive(Clone, Debug, PartialEq, Eq)]
pub struct AgentConfig {
    pub owner: Address,
    pub name: String,
    pub strategy: String,
    pub active: bool,
    pub executions: u32,
}

/// One entry of the action log.
#[derive(Clone, Debug, PartialEq, Eq)]
pub struct Execution {
    pub timestamp: u64,
    pub recipient: Address,
    pub amount: i128,
    pub success: bool,
}

} // verus!
