//! Properties of the agent's state machine that span several operations or
//! hold for every input, stated over the model that the executable
//! operations are proved to follow.
use vstd::prelude::*;
use crate::model::AgentState;
use crate::types::{Address, AgentConfig, Error};

verus! {

/// Initializing a fresh agent yields a configuration that is switched on,
/// has counted no actions, and holds the given owner, name and strategy.
pub proof fn lemma_initialize_then_get_config(
    s: AgentState,
    owner: Address,
    name: String,
    strategy: String,
)
    requires
        s.config is None,
    ensures
        ({
            let (s1, r) = s.initialize(owner, name, strategy);
            &&& r == Ok::<(), Error>(())
            &&& s1.get_config() matches Ok(c)
            &&& c.active
            &&& c.executions == 0
            &&& c.owner == owner
            &&& c.name == name
            &&& c.strategy == strategy
            &&& s1.get_executions() == Ok::<u32, Error>(0)
        }),
{
}

/// A successful `execute` on an active agent counts exactly one more action
/// and appends exactly one entry, the one that matches its arguments.
pub proof fn lemma_execute_records_one(s: AgentState, recipient: Address, amount: i128, timestamp: u64)
    requires
        s.wf(),
        s.can_record(),
        s.config matches Some(c) && c.active,
        amount > 0,
    ensures
        ({
            let (s1, r) = s.execute(recipient, amount, timestamp);
            &&& r == Ok::<(), Error>(())
            &&& s1.get_executions() == Ok::<u32, Error>((s.config->Some_0.executions + 1) as u32)
            &&& s1.history.len() == s.history.len() + 1
            &&& s1.history == s.history.push(AgentState::entry(recipient, amount, timestamp))
            &&& s1.history.last().recipient == recipient
            &&& s1.history.last().amount == amount
            &&& s1.history.last().timestamp == timestamp
            &&& s1.history.last().success
        }),
{
}

/// The empty state is well formed, and every operation keeps the state well
/// formed: so after any sequence of operations the counter equals the length
/// of the log.
pub proof fn lemma_operations_keep_counter_equal_to_log(
    s: AgentState,
    owner: Address,
    name: String,
    strategy: String,
    recipient: Address,
    amount: i128,
    timestamp: u64,
)
    requires
        s.wf(),
    ensures
        AgentState::empty().wf(),
        s.initialize(owner, name, strategy).0.wf(),
        s.can_record() ==> s.execute(recipient, amount, timestamp).0.wf(),
        s.toggle_active().0.wf(),
        s.config matches Some(c) ==> c.executions as int == s.history.len(),
{
}

/// `execute` with an amount that is not positive never changes the state; on
/// an initialized, active agent it fails with `InvalidAmount`.
pub proof fn lemma_execute_rejects_nonpositive_amount(
    s: AgentState,
    recipient: Address,
    amount: i128,
    timestamp: u64,
)
    requires
        amount <= 0,
    ensures
        s.execute(recipient, amount, timestamp).0 == s,
        (s.config matches Some(c) && c.active) ==> s.execute(recipient, amount, timestamp).1
            == Err::<(), Error>(Error::InvalidAmount),
{
}

/// `execute` on an agent that is switched off changes nothing and fails with
/// `AgentInactive`, whatever its arguments.
pub proof fn lemma_execute_when_inactive(s: AgentState, recipient: Address, amount: i128, timestamp: u64)
    requires
        s.config matches Some(c) && !c.active,
    ensures
        s.execute(recipient, amount, timestamp) == (s, Err::<(), Error>(Error::AgentInactive)),
{
}

/// Before `initialize`, every other operation fails with `NotInitialized`
/// and changes nothing.
pub proof fn lemma_uninitialized_rejects(s: AgentState, recipient: Address, amount: i128, timestamp: u64)
    requires
        s.config is None,
    ensures
        s.execute(recipient, amount, timestamp) == (s, Err::<(), Error>(Error::NotInitialized)),
        s.toggle_active() == (s, Err::<bool, Error>(Error::NotInitialized)),
        s.get_config() == Err::<AgentConfig, Error>(Error::NotInitialized),
        s.get_executions() == Err::<u32, Error>(Error::NotInitialized),
{
}

/// Toggling twice restores the state exactly; each toggle leaves the counter
/// and the log alone, and the second one reports the original gate value.
pub proof fn lemma_toggle_twice_restores(s: AgentState)
    ensures
        ({
            let (s1, r1) = s.toggle_active();
            let (s2, r2) = s1.toggle_active();
            &&& s2 == s
            &&& s1.history == s.history
            &&& s1.get_executions() == s.get_executions()
            &&& (s.config matches Some(c) ==> r1 == Ok::<bool, Error>(!c.active) && r2 == Ok::<
                bool,
                Error,
            >(c.active))
        }),
{
}

} // verus!
