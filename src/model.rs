//! The agent as a mathematical state machine: a state and the transition
//! each operation makes on it.
use vstd::prelude::*;
use crate::types::{Address, AgentConfig, Error, Execution};

verus! {

/// What the agent holds: its configuration, once there is one, and its log.
pub struct AgentState {
    pub config: Option<AgentConfig>,
    pub history: Seq<Execution>,
}

impl AgentState {
    /// The state before `initialize`.
    pub open spec fn empty() -> AgentState {
        AgentState { config: None, history: Seq::empty() }
    }

    /// The log entry that a successful `execute` appends.
    pub open spec fn entry(recipient: Address, amount: i128, timestamp: u64) -> Execution {
        Execution { timestamp, recipient, amount, success: true }
    }

    /// Every logged entry was a successful action on a positive amount.
    pub open spec fn entries_valid(history: Seq<Execution>) -> bool {
        forall|i: int| 0 <= i < history.len() ==> #[trigger] history[i].amount > 0 && history[i].success
    }

    /// The invariant: no log without a configuration, the counter equals the
    /// length of the log, and every entry is valid.
    pub open spec fn wf(self) -> bool {
        &&& Self::entries_valid(self.history)
        &&& match self.config {
            None => self.history.len() == 0,
            Some(c) => c.executions as int == self.history.len(),
        }
    }

    pub open spec fn initialize(self, owner: Address, name: String, strategy: String) -> (
        AgentState,
        Result<(), Error>,
    ) {
        match self.config {
            Some(_) => (self, Err(Error::AlreadyInitialized)),
            None => (
                AgentState {
                    config: Some(AgentConfig { owner, name, strategy, active: true, executions: 0 }),
                    history: self.history,
                },
                Ok(()),
            ),
        }
    }

    pub open spec fn execute(self, recipient: Address, amount: i128, timestamp: u64) -> (
        AgentState,
        Result<(), Error>,
    ) {
        match self.config {
            None => (self, Err(Error::NotInitialized)),
            Some(c) => if !c.active {
                (self, Err(Error::AgentInactive))
            } else if amount <= 0 {
                (self, Err(Error::InvalidAmount))
            } else {
                (
                    AgentState {
                        config: Some(AgentConfig { executions: (c.executions + 1) as u32, ..c }),
                        history: self.history.push(Self::entry(recipient, amount, timestamp)),
                    },
                    Ok(()),
                )
            },
        }
    }

    pub open spec fn toggle_active(self) -> (AgentState, Result<bool, Error>) {
        match self.config {
            None => (self, Err(Error::NotInitialized)),
            Some(c) => (
                AgentState {
                    config: Some(AgentConfig { active: !c.active, ..c }),
                    history: self.history,
                },
                Ok(!c.active),
            ),
        }
    }

    pub open spec fn get_config(self) -> Result<AgentConfig, Error> {
        match self.config {
            None => Err(Error::NotInitialized),
            Some(c) => Ok(c),
        }
    }

    pub open spec fn get_executions(self) -> Result<u32, Error> {
        match self.config {
            None => Err(Error::NotInitialized),
            Some(c) => Ok(c.executions),
        }
    }

    /// Room for one more log entry: the counter cannot pass `u32::MAX`.
    pub open spec fn can_record(self) -> bool {
        self.history.len() < u32::MAX as int
    }
}

} // verus!
