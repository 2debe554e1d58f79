pub mod llm;
pub mod agent_basic;
pub mod ai_functions;
pub mod general;
pub mod extract;
pub mod agent_traits;
pub mod agent_architect;
pub mod agent_backend;
pub mod managing_agent;
pub mod cli;
