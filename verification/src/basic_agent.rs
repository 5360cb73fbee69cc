//! The minimal mutable agent record shared by every concrete agent: an
//! objective, a role label, a lifecycle state and an append-only message
//! memory.

use vstd::prelude::*;
use crate::llm::Message;

verus! {

/// Lifecycle state of an agent. `Finished` is terminal: no handler ever
/// leaves it.
#[derive(Debug, PartialEq, Eq, Structural, Clone, Copy)]
pub enum AgentState {
    Discovery,
    Finished,
    UnitTesting,
    Working,
}

/// The agent state primitive: identity plus current state. `update_state`
/// is the only mutator of `state`.
#[derive(Debug)]
pub struct BasicAgent {
    pub objective: String,
    pub position: String,
    pub state: AgentState,
    pub memory: Vec<Message>,
}

/// The operations every agent record offers.
pub trait BasicTraits: Sized {
    fn new(objective: String, position: String) -> Self;

    fn update_state(&mut self, new_state: AgentState);

    fn get_objective(&mut self) -> &String;

    fn get_position(&mut self) -> &String;

    fn get_state(&mut self) -> &AgentState;

    fn get_memory(&mut self) -> &Vec<Message>;
}

impl BasicTraits for BasicAgent {
    fn new(objective: String, position: String) -> (r: Self)
        ensures
            r.objective == objective,
            r.position == position,
            r.state == AgentState::Discovery,
            r.memory@ == Seq::<Message>::empty(),
    {
        Self { objective, position, state: AgentState::Discovery, memory: Vec::new() }
    }

    fn update_state(&mut self, new_state: AgentState)
        ensures
            final(self).state == new_state,
            final(self).objective == old(self).objective,
            final(self).position == old(self).position,
            final(self).memory == old(self).memory,
    {
        self.state = new_state;
    }

    fn get_objective(&mut self) -> (r: &String)
        ensures
            r == &old(self).objective,
            *final(self) == *old(self),
    {
        &self.objective
    }

    fn get_position(&mut self) -> (r: &String)
        ensures
            r == &old(self).position,
            *final(self) == *old(self),
    {
        &self.position
    }

    fn get_state(&mut self) -> (r: &AgentState)
        ensures
            r == &old(self).state,
            *final(self) == *old(self),
    {
        &self.state
    }

    fn get_memory(&mut self) -> (r: &Vec<Message>)
        ensures
            r == &old(self).memory,
            *final(self) == *old(self),
    {
        &self.memory
    }
}

} // verus!
