use vstd::prelude::*;

use crate::agent_basic::BasicAgent;

verus! {

#[verifier::external_type_specification]
#[verifier::external_body]
pub struct ExJsonValue(serde_json::Value);

/// The record that a pipeline run fills in, phase by phase.
#[derive(Debug)]
pub struct FactSheet {
    pub project_description: String,
    pub project_scope: Option<ProjectScope>,
    pub external_urls: Option<Vec<String>>,
    pub backend_code: Option<String>,
    pub api_endpoint_schema: Option<Vec<RouteObject>>,
}

/// What the scoping phase decided the project needs.
#[derive(Debug, Clone, Copy, PartialEq, Eq, Structural)]
pub struct ProjectScope {
    pub is_crud_required: bool,
    pub is_user_login_and_logout: bool,
    pub is_external_urls_required: bool,
}

/// One route of the generated web server. Its bodies are untyped JSON trees.
#[derive(Debug)]
pub struct RouteObject {
    pub is_route_dynamic: String,
    pub method: String,
    pub request_body: serde_json::Value,
    pub response: serde_json::Value,
    pub route: String,
}

impl FactSheet {
    /// A record with only its description set.
    pub fn new(project_description: String) -> (r: FactSheet)
        ensures
            r.project_description == project_description,
            r.project_scope is None,
            r.external_urls is None,
            r.backend_code is None,
            r.api_endpoint_schema is None,
    {
        FactSheet {
            project_description,
            project_scope: None,
            external_urls: None,
            backend_code: None,
            api_endpoint_schema: None,
        }
    }
}

/// What the orchestrator asks of every agent it runs.
pub trait SpecialFunctions {
    /// The agent's own attributes.
    spec fn attributes(&self) -> BasicAgent;

    fn get_attributes_from_agent(&self) -> (r: &BasicAgent)
        ensures
            *r == self.attributes(),
    ;
}

} // verus!
