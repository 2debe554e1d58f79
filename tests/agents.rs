use rustptty::agent_architect::{filter_urls, AgentSolutionArchitect, ArchitectStep};
use rustptty::agent_backend::{
    fix_code_context, improved_code_context, initial_code_context, rest_api_endpoints_context,
    AgentBackendDeveloper, BackendStep, MAX_BUG_FIXES,
};
use rustptty::agent_basic::{AgentState, BasicAgent, BasicTraits};
use rustptty::agent_traits::{FactSheet, ProjectScope, SpecialFunctions};
use rustptty::ai_functions::AiFunction;
use rustptty::general::PipelineError;
use rustptty::managing_agent::{ManagingAgent, PipelineAgent};

fn urls(list: &[&str]) -> Vec<String> {
    list.iter().map(|u| u.to_string()).collect()
}

#[test]
fn basic_agent_starts_in_discovery() {
    let mut agent = BasicAgent::new("build things", "builder");
    assert_eq!(agent.get_objective(), "build things");
    assert_eq!(agent.get_position(), "builder");
    assert_eq!(*agent.get_state(), AgentState::Discovery);
    assert_eq!(agent.get_memory().map(|m| m.len()), Some(0));
    agent.update_state(AgentState::Working);
    assert_eq!(*agent.get_state(), AgentState::Working);
}

#[test]
fn scope_without_external_urls_finishes_scoping() {
    let mut agent = AgentSolutionArchitect::new();
    let mut sheet = FactSheet::new("Build a todo app with login".to_string());
    match agent.next_step(&sheet) {
        ArchitectStep::Call(f, text) => {
            assert_eq!(f, AiFunction::PrintProjectScope);
            assert_eq!(text, "Build a todo app with login");
        }
        other => panic!("unexpected step {:?}", other),
    }
    let scope = ProjectScope {
        is_crud_required: true,
        is_user_login_and_logout: true,
        is_external_urls_required: false,
    };
    agent.call_project_scope(&mut sheet, scope);
    assert_eq!(sheet.project_scope, Some(scope));
    assert!(sheet.external_urls.is_none());
    assert!(matches!(agent.next_step(&sheet), ArchitectStep::Done));
    assert_eq!(agent.get_attributes_from_agent().state, AgentState::Finished);
}

#[test]
fn unreachable_url_is_dropped() {
    let mut agent = AgentSolutionArchitect::new();
    let mut sheet = FactSheet::new("Show stock prices".to_string());
    let scope = ProjectScope {
        is_crud_required: false,
        is_user_login_and_logout: false,
        is_external_urls_required: true,
    };
    agent.call_project_scope(&mut sheet, scope);
    match agent.next_step(&sheet) {
        ArchitectStep::Call(f, text) => {
            assert_eq!(f, AiFunction::PrintSiteUrls);
            assert_eq!(text, "Show stock prices");
        }
        other => panic!("unexpected step {:?}", other),
    }
    agent
        .call_determine_external_urls(&mut sheet, "[\"https://a.example\", \"https://b.example\"]")
        .unwrap();
    let probed = match agent.next_step(&sheet) {
        ArchitectStep::ProbeUrls(v) => v,
        other => panic!("unexpected step {:?}", other),
    };
    assert_eq!(probed, urls(&["https://a.example", "https://b.example"]));
    agent.validate_urls(&mut sheet, &vec![Some(200), Some(404)]);
    assert_eq!(sheet.external_urls, Some(urls(&["https://a.example"])));
    assert!(matches!(agent.next_step(&sheet), ArchitectStep::Done));
}

#[test]
fn undecodable_url_list_is_fatal() {
    let mut agent = AgentSolutionArchitect::new();
    let mut sheet = FactSheet::new("x".to_string());
    let scope = ProjectScope {
        is_crud_required: false,
        is_user_login_and_logout: false,
        is_external_urls_required: true,
    };
    agent.call_project_scope(&mut sheet, scope);
    let r = agent.call_determine_external_urls(&mut sheet, "no urls here");
    assert_eq!(r, Err(PipelineError::DecodeFailed));
    assert!(sheet.external_urls.is_none());
    assert!(matches!(agent.next_step(&sheet), ArchitectStep::Done));
}

#[test]
fn empty_url_list_is_a_no_op_pass() {
    let mut agent = AgentSolutionArchitect::new();
    let mut sheet = FactSheet::new("x".to_string());
    let scope = ProjectScope {
        is_crud_required: false,
        is_user_login_and_logout: false,
        is_external_urls_required: true,
    };
    agent.call_project_scope(&mut sheet, scope);
    agent.call_determine_external_urls(&mut sheet, "[]").unwrap();
    agent.validate_urls(&mut sheet, &vec![]);
    assert_eq!(sheet.external_urls, Some(vec![]));
    assert!(matches!(agent.next_step(&sheet), ArchitectStep::Done));
}

#[test]
fn url_filter_keeps_order_and_drops_failures() {
    let list = urls(&["u1", "u2", "u3", "u4", "u2"]);
    let kept = filter_urls(&list, &vec![Some(200), Some(200), None, Some(200), Some(500)]);
    assert_eq!(kept, urls(&["u1", "u4"]));
    let again = filter_urls(&kept, &vec![Some(200), Some(200)]);
    assert_eq!(again, kept);
    assert_eq!(filter_urls(&vec![], &vec![]), Vec::<String>::new());
}

#[test]
fn context_texts_are_exact() {
    assert_eq!(
        initial_code_context("fn main() {}", "todo app"),
        "CODE_TEMPLATE : fn main() {} \n PROJECT_DESCRIPTION: todo app \n"
    );
    assert_eq!(
        fix_code_context("let x = ;", "expected expression"),
        "BROKEN_CODE : let x = ; \n ERROR_BUGS: expected expression \n THIS FUNCTION ONLY OUTPUTS CODE. JUST OUTPUT THE CODE"
    );
    assert_eq!(rest_api_endpoints_context("code"), "CODE INPUT: code");
    let mut sheet = FactSheet::new("todo app".to_string());
    sheet.backend_code = Some("fn main() {}".to_string());
    sheet.project_scope = Some(ProjectScope {
        is_crud_required: true,
        is_user_login_and_logout: false,
        is_external_urls_required: true,
    });
    sheet.external_urls = Some(urls(&["https://a.example", "https://b.example"]));
    assert_eq!(
        improved_code_context(&sheet),
        "CODE_TEMPLATE : fn main() {} \n PROJECT_DESCRIPTION: description: todo app\n scope: crud: true, login and logout: false, external urls: true\n external urls:\nhttps://a.example\nhttps://b.example\n \n"
    );
}

#[test]
fn backend_agent_runs_to_routes() {
    let mut agent = AgentBackendDeveloper::new();
    let mut sheet = FactSheet::new("todo app".to_string());
    match agent.next_step(&sheet, "TEMPLATE") {
        BackendStep::Call(f, text) => {
            assert_eq!(f, AiFunction::PrintBackendWebserverCode);
            assert_eq!(text, initial_code_context("TEMPLATE", "todo app"));
        }
        other => panic!("unexpected step {:?}", other),
    }
    agent.store_code(&mut sheet, "v1".to_string());
    match agent.next_step(&sheet, "TEMPLATE") {
        BackendStep::Call(f, _) => assert_eq!(f, AiFunction::PrintImprovedWebserverCode),
        other => panic!("unexpected step {:?}", other),
    }
    agent.store_code(&mut sheet, "v2".to_string());
    assert_eq!(sheet.backend_code.as_deref(), Some("v2"));
    assert!(matches!(agent.next_step(&sheet, "TEMPLATE"), BackendStep::RunTests));
    agent.record_test_report(Some("error[E0425]".to_string())).unwrap();
    match agent.next_step(&sheet, "TEMPLATE") {
        BackendStep::Call(f, text) => {
            assert_eq!(f, AiFunction::PrintFixedCode);
            assert_eq!(text, fix_code_context("v2", "error[E0425]"));
        }
        other => panic!("unexpected step {:?}", other),
    }
    agent.store_code(&mut sheet, "v3".to_string());
    agent.record_test_report(None).unwrap();
    match agent.next_step(&sheet, "TEMPLATE") {
        BackendStep::Call(f, text) => {
            assert_eq!(f, AiFunction::PrintRestApiEndpoints);
            assert_eq!(text, "CODE INPUT: v3");
        }
        other => panic!("unexpected step {:?}", other),
    }
    agent.store_endpoints(&mut sheet, vec![]);
    assert_eq!(sheet.api_endpoint_schema.as_ref().map(|r| r.len()), Some(0));
    assert!(matches!(agent.next_step(&sheet, "TEMPLATE"), BackendStep::Done));
}

#[test]
fn bug_loop_halts_at_bound() {
    let mut agent = AgentBackendDeveloper::new();
    let mut sheet = FactSheet::new("todo app".to_string());
    agent.store_code(&mut sheet, "v1".to_string());
    agent.store_code(&mut sheet, "v2".to_string());
    let mut reports = 0;
    let outcome = loop {
        assert!(reports <= MAX_BUG_FIXES as usize + 1);
        reports += 1;
        match agent.record_test_report(Some("still broken".to_string())) {
            Ok(()) => agent.store_code(&mut sheet, format!("fix {}", reports)),
            Err(e) => break e,
        }
    };
    assert_eq!(outcome, PipelineError::RepairExhausted);
    assert_eq!(reports, MAX_BUG_FIXES as usize + 1);
    assert!(matches!(agent.next_step(&sheet, ""), BackendStep::Done));
}

#[test]
fn orchestrator_lines_up_agents_and_stops_on_failure() {
    let mut manager = ManagingAgent::new("Need a full stack app to track my habits".to_string());
    assert_eq!(manager.factsheet.project_description, "Need a full stack app to track my habits");
    manager.create_agents();
    assert_eq!(manager.agents.len(), 2);
    assert!(matches!(manager.agents[0], PipelineAgent::Architect(_)));
    assert!(matches!(manager.agents[1], PipelineAgent::Backend(_)));
    assert!(manager.record_agent_result(Ok(())));
    assert_eq!(manager.get_attributes().state, AgentState::Working);
    assert!(!manager.record_agent_result(Err(PipelineError::CallFailed)));
    assert_eq!(manager.get_attributes().state, AgentState::Finished);
}

#[test]
fn agents_start_with_their_attributes() {
    let architect = AgentSolutionArchitect::new();
    let a = architect.get_attributes_from_agent();
    assert_eq!(a.objective, "Gathers information and designs solutions for website development");
    assert_eq!(a.position, "solutions architect");
    assert_eq!(a.state, AgentState::Discovery);
    assert_eq!(a.memory.as_ref().map(|m| m.len()), Some(0));
    let backend = AgentBackendDeveloper::new();
    let b = backend.get_attributes_from_agent();
    assert_eq!(b.objective, "Develops backend code for webserver and json database");
    assert_eq!(b.position, "Backend developer");
    assert_eq!(b.state, AgentState::Discovery);
    assert_eq!(b.memory.as_ref().map(|m| m.len()), Some(0));
}
