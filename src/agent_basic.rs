use vstd::prelude::*;

use crate::llm::Message;

verus! {

/// The phase an agent is in. `Discovery` is where every agent starts and
/// `Finished` is where its loop stops.
#[derive(Debug, Clone, Copy, PartialEq, Eq, Structural)]
pub enum AgentState {
    Discovery,
    Working,
    UnitTesting,
    Finished,
}

/// What every agent has: its objective, its position, its state and its memory.
#[derive(Debug)]
pub struct BasicAgent {
    pub objective: String,
    pub position: String,
    pub state: AgentState,
    pub memory: Option<Vec<Message>>,
}

pub trait BasicTraits: Sized {
    spec fn spec_objective(&self) -> Seq<char>;

    spec fn spec_position(&self) -> Seq<char>;

    spec fn spec_state(&self) -> AgentState;

    spec fn spec_memory(&self) -> Option<Seq<Message>>;

    fn new(objective: &str, position: &str) -> (r: Self)
        ensures
            r.spec_objective() == objective@,
            r.spec_position() == position@,
            r.spec_state() == AgentState::Discovery,
            r.spec_memory() == Some(Seq::<Message>::empty()),
    ;

    fn update_state(&mut self, new_state: AgentState)
        ensures
            final(self).spec_state() == new_state,
            final(self).spec_objective() == old(self).spec_objective(),
            final(self).spec_position() == old(self).spec_position(),
            final(self).spec_memory() == old(self).spec_memory(),
    ;

    fn get_objective(&self) -> (r: &str)
        ensures
            r@ == self.spec_objective(),
    ;

    fn get_position(&self) -> (r: &str)
        ensures
            r@ == self.spec_position(),
    ;

    fn get_state(&self) -> (r: &AgentState)
        ensures
            *r == self.spec_state(),
    ;

    fn get_memory(&self) -> (r: Option<&Vec<Message>>)
        ensures
            r is None <==> self.spec_memory() is None,
            r matches Some(m) ==> self.spec_memory() == Some(m@),
    ;
}

impl BasicTraits for BasicAgent {
    open spec fn spec_objective(&self) -> Seq<char> {
        self.objective@
    }

    open spec fn spec_position(&self) -> Seq<char> {
        self.position@
    }

    open spec fn spec_state(&self) -> AgentState {
        self.state
    }

    open spec fn spec_memory(&self) -> Option<Seq<Message>> {
        match self.memory {
            Some(m) => Some(m@),
            None => None,
        }
    }

    fn new(objective: &str, position: &str) -> (r: Self) {
        BasicAgent {
            objective: String::from_str(objective),
            position: String::from_str(position),
            state: AgentState::Discovery,
            memory: Some(Vec::new()),
        }
    }

    fn update_state(&mut self, new_state: AgentState) {
        self.state = new_state;
    }

    fn get_objective(&self) -> (r: &str) {
        self.objective.as_str()
    }

    fn get_position(&self) -> (r: &str) {
        self.position.as_str()
    }

    fn get_state(&self) -> (r: &AgentState) {
        &self.state
    }

    fn get_memory(&self) -> (r: Option<&Vec<Message>>) {
        match &self.memory {
            Some(m) => Some(m),
            None => None,
        }
    }
}

} // verus!
