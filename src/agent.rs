//! The executable agent. Each operation is a single atomic step of the state
//! machine in `model`: it either fails before touching anything, or makes the
//! whole transition.
//!
//! Authorization is the host's: before `initialize` the caller must have proved
//! control of the new owner, and before `execute` or `toggle_active` control of
//! the stored owner (see `get_config`). A denial aborts the call on the host
//! side and never reaches these functions.
use vstd::prelude::*;
use crate::model::AgentState;
use crate::types::{Address, AgentConfig, Error, Execution};

verus! {

/// The agent: its configuration, once initialized, and its action log.
pub struct AIAgent {
    config: Option<AgentConfig>,
    history: Vec<Execution>,
}

impl View for AIAgent {
    type V = AgentState;

    closed spec fn view(&self) -> AgentState {
        AgentState { config: self.config, history: self.history@ }
    }
}

impl AIAgent {
    pub open spec fn wf(&self) -> bool {
        self@.wf()
    }

    /// An agent that has not been initialized yet.
    pub fn new() -> (r: AIAgent)
        ensures
            r@ == AgentState::empty(),
            r.wf(),
    {
        AIAgent { config: None, history: Vec::new() }
    }

    /// Rebuilds an agent from a persisted configuration and log. Returns `None`
    /// when the two do not form a well-formed state.
    pub fn from_parts(config: Option<AgentConfig>, history: Vec<Execution>) -> (r: Option<AIAgent>)
        ensures
            r is Some <==> (AgentState { config, history: history@ }).wf(),
            r matches Some(a) ==> a@ == (AgentState { config, history: history@ }),
    {
        let mut i: usize = 0;
        while i < history.len()
            invariant
                0 <= i <= history.len(),
                AgentState::entries_valid(history@.subrange(0, i as int)),
            decreases history.len() - i,
        {
            if history[i].amount <= 0 || !history[i].success {
                assert(history@.subrange(0, i as int + 1)[i as int] == history@[i as int]);
                return None;
            }
            assert(history@.subrange(0, i as int + 1) =~= history@.subrange(0, i as int).push(history@[i as int]));
            i = i + 1;
        }
        assert(history@.subrange(0, i as int) =~= history@);
        let consistent = match &config {
            None => history.len() == 0,
            Some(c) => c.executions as usize == history.len(),
        };
        if consistent {
            Some(AIAgent { config, history })
        } else {
            None
        }
    }

    /// Creates the configuration: owned by `owner`, switched on, with no
    /// actions counted. Fails with `AlreadyInitialized`, changing nothing, if a
    /// configuration exists.
    pub fn initialize(&mut self, owner: Address, name: String, strategy: String) -> (r: Result<(), Error>)
        requires
            old(self).wf(),
        ensures
            final(self).wf(),
            (final(self)@, r) == old(self)@.initialize(owner, name, strategy),
    {
        if self.config.is_some() {
            return Err(Error::AlreadyInitialized);
        }
        self.config = Some(AgentConfig { owner, name, strategy, active: true, executions: 0 });
        Ok(())
    }

    /// Records one action of `amount` towards `recipient` at `timestamp`:
    /// appends a successful entry to the log and counts it. Fails, changing
    /// nothing, with `NotInitialized`, then `AgentInactive`, then
    /// `InvalidAmount` for an amount that is not positive.
    pub fn execute(&mut self, recipient: Address, amount: i128, timestamp: u64) -> (r: Result<(), Error>)
        requires
            old(self).wf(),
            old(self)@.can_record(),
        ensures
            final(self).wf(),
            (final(self)@, r) == old(self)@.execute(recipient, amount, timestamp),
    {
        match &mut self.config {
            None => Err(Error::NotInitialized),
            Some(c) => {
                if !c.active {
                    return Err(Error::AgentInactive);
                }
                if amount <= 0 {
                    return Err(Error::InvalidAmount);
                }
                c.executions = c.executions + 1;
                self.history.push(Execution { timestamp, recipient, amount, success: true });
                Ok(())
            },
        }
    }

    /// Flips the active gate and returns its new value; the counter and the
    /// log stay as they are.
    pub fn toggle_active(&mut self) -> (r: Result<bool, Error>)
        requires
            old(self).wf(),
        ensures
            final(self).wf(),
            (final(self)@, r) == old(self)@.toggle_active(),
    {
        match &mut self.config {
            None => Err(Error::NotInitialized),
            Some(c) => {
                c.active = !c.active;
                Ok(c.active)
            },
        }
    }

    /// The configuration, or `NotInitialized`.
    pub fn get_config(&self) -> (r: Result<&AgentConfig, Error>)
        ensures
            match r {
                Ok(c) => self@.get_config() == Ok::<AgentConfig, Error>(*c),
                Err(e) => self@.get_config() == Err::<AgentConfig, Error>(e),
            },
    {
        match &self.config {
            None => Err(Error::NotInitialized),
            Some(c) => Ok(c),
        }
    }

    /// The number of recorded actions, or `NotInitialized`.
    pub fn get_executions(&self) -> (r: Result<u32, Error>)
        ensures
            r == self@.get_executions(),
    {
        match &self.config {
            None => Err(Error::NotInitialized),
            Some(c) => Ok(c.executions),
        }
    }

    /// The log in the order the actions were recorded; empty before the first.
    pub fn get_history(&self) -> (r: &Vec<Execution>)
        ensures
            r@ == self@.history,
    {
        &self.history
    }
}

} // verus!
