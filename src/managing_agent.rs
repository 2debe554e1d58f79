use vstd::prelude::*;

use crate::agent_architect::AgentSolutionArchitect;
use crate::agent_backend::AgentBackendDeveloper;
use crate::agent_basic::{AgentState, BasicAgent};
use crate::agent_traits::FactSheet;
use crate::general::PipelineError;

verus! {

/// One agent of the pipeline.
#[derive(Debug)]
pub enum PipelineAgent {
    Architect(AgentSolutionArchitect),
    Backend(AgentBackendDeveloper),
}

/// The orchestrator: it owns the record of the run and lends it to one agent
/// at a time, in order. The first agent that fails ends the run.
#[derive(Debug)]
pub struct ManagingAgent {
    pub attributes: BasicAgent,
    pub factsheet: FactSheet,
    pub agents: Vec<PipelineAgent>,
}

impl ManagingAgent {
    pub open spec fn state(&self) -> AgentState {
        self.attributes.state
    }

    /// An orchestrator for the goal `project_description`, with no agent yet.
    pub fn new(project_description: String) -> (r: Self)
        ensures
            r.state() == AgentState::Discovery,
            r.factsheet.project_description == project_description,
            r.factsheet.project_scope is None,
            r.factsheet.external_urls is None,
            r.factsheet.backend_code is None,
            r.factsheet.api_endpoint_schema is None,
            r.agents@.len() == 0,
    {
        let attributes = BasicAgent {
            objective: String::from_str(
                "Manage agents who are building an excellent website for the user",
            ),
            position: String::from_str("Project Manager"),
            state: AgentState::Discovery,
            memory: None,
        };
        ManagingAgent { attributes, factsheet: FactSheet::new(project_description), agents: Vec::new() }
    }

    fn add_agent(&mut self, agent: PipelineAgent)
        ensures
            final(self).agents@ == old(self).agents@.push(agent),
            final(self).factsheet == old(self).factsheet,
            final(self).state() == old(self).state(),
    {
        self.agents.push(agent);
    }

    /// Lines up the agents in the order they run: scoping and URL checks,
    /// then code generation.
    pub fn create_agents(&mut self)
        ensures
            final(self).agents@.len() == old(self).agents@.len() + 2,
            forall|i: int|
                0 <= i < old(self).agents@.len() ==> final(self).agents@[i] == old(self).agents@[i],
            ({
                let a = final(self).agents@[old(self).agents@.len() as int];
                a matches PipelineAgent::Architect(x) && x.state() == AgentState::Discovery
            }),
            ({
                let b = final(self).agents@[old(self).agents@.len() + 1int];
                b matches PipelineAgent::Backend(y) && y.state() == AgentState::Discovery && y.inv()
            }),
            final(self).factsheet == old(self).factsheet,
            final(self).state() == old(self).state(),
    {
        self.add_agent(PipelineAgent::Architect(AgentSolutionArchitect::new()));
        self.add_agent(PipelineAgent::Backend(AgentBackendDeveloper::new()));
    }

    /// Takes the result of the agent that just ran and says whether the run
    /// goes on to the next one. A failed phase ends the run.
    pub fn record_agent_result(&mut self, result: Result<(), PipelineError>) -> (go_on: bool)
        ensures
            go_on == result is Ok,
            final(self).state() == if go_on {
                AgentState::Working
            } else {
                AgentState::Finished
            },
            final(self).factsheet == old(self).factsheet,
            final(self).agents == old(self).agents,
    {
        match result {
            Ok(()) => {
                self.attributes.state = AgentState::Working;
                true
            },
            Err(_) => {
                self.attributes.state = AgentState::Finished;
                false
            },
        }
    }

    /// Marks the run as complete.
    pub fn finish(&mut self)
        ensures
            final(self).state() == AgentState::Finished,
            final(self).factsheet == old(self).factsheet,
            final(self).agents == old(self).agents,
    {
        self.attributes.state = AgentState::Finished;
    }

    pub fn get_attributes(&self) -> (r: &BasicAgent)
        ensures
            r.state == self.state(),
    {
        &self.attributes
    }
}

} // verus!
