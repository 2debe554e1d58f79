use vstd::prelude::*;

use crate::agent_basic::{AgentState, BasicAgent};
use crate::agent_traits::{FactSheet, ProjectScope, RouteObject, SpecialFunctions};
use crate::ai_functions::AiFunction;
use crate::general::PipelineError;

verus! {

/// How many fixes the agent tries; the failing report after the last of them
/// ends the phase.
pub const MAX_BUG_FIXES: u8 = 2;

pub open spec fn bool_text(b: bool) -> Seq<char> {
    if b {
        "true"@
    } else {
        "false"@
    }
}

pub open spec fn scope_text(scope: Option<ProjectScope>) -> Seq<char> {
    match scope {
        Some(s) => "crud: "@ + bool_text(s.is_crud_required) + ", login and logout: "@ + bool_text(
            s.is_user_login_and_logout,
        ) + ", external urls: "@ + bool_text(s.is_external_urls_required),
        None => "undecided"@,
    }
}

/// Each URL on a line of its own.
pub open spec fn urls_text(urls: Seq<Seq<char>>) -> Seq<char>
    decreases urls.len(),
{
    if urls.len() == 0 {
        Seq::empty()
    } else {
        urls_text(urls.drop_last()) + urls.last() + "\n"@
    }
}

pub open spec fn code_text(code: Option<String>) -> Seq<char> {
    match code {
        Some(c) => c@,
        None => Seq::empty(),
    }
}

/// The project record as the improvement request shows it.
pub open spec fn record_text(f: FactSheet) -> Seq<char> {
    "description: "@ + f.project_description@ + "\n scope: "@ + scope_text(f.project_scope)
        + "\n external urls:\n"@ + match f.external_urls {
        Some(v) => urls_text(v.deep_view()),
        None => Seq::empty(),
    }
}

pub open spec fn initial_context(template: Seq<char>, description: Seq<char>) -> Seq<char> {
    "CODE_TEMPLATE : "@ + template + " \n PROJECT_DESCRIPTION: "@ + description + " \n"@
}

pub open spec fn improved_context(f: FactSheet) -> Seq<char> {
    "CODE_TEMPLATE : "@ + code_text(f.backend_code) + " \n PROJECT_DESCRIPTION: "@ + record_text(f)
        + " \n"@
}

pub open spec fn fix_context(code: Seq<char>, errors: Seq<char>) -> Seq<char> {
    "BROKEN_CODE : "@ + code + " \n ERROR_BUGS: "@ + errors
        + " \n THIS FUNCTION ONLY OUTPUTS CODE. JUST OUTPUT THE CODE"@
}

pub open spec fn endpoints_context(code: Seq<char>) -> Seq<char> {
    "CODE INPUT: "@ + code
}

/// What a failing test report does to a bug counter: the next count where
/// another fix may be tried, `None` where the phase is lost.
pub open spec fn after_failing_report(count: u8) -> Option<u8> {
    if count < MAX_BUG_FIXES {
        Some((count + 1) as u8)
    } else {
        None
    }
}

/// The counter after `k` failing reports in a row, `None` once the phase is lost.
pub open spec fn after_failing_reports(count: u8, k: nat) -> Option<u8>
    decreases k,
{
    if k == 0 {
        Some(count)
    } else {
        match after_failing_reports(count, (k - 1) as nat) {
            Some(c) => after_failing_report(c),
            None => None,
        }
    }
}

/// The next thing that the code-generation agent needs done.
#[derive(Debug)]
pub enum BackendStep {
    /// Send this generation request and hand its answer back.
    Call(AiFunction, String),
    /// Persist the current code, build and test it, and hand back the error
    /// report, if any.
    RunTests,
    /// The agent has finished.
    Done,
}

/// Whether `s` asks for a generation request with this intent and this text.
pub open spec fn is_call(s: BackendStep, f: AiFunction, text: Seq<char>) -> bool {
    match s {
        BackendStep::Call(g, t) => g == f && t@ == text,
        _ => false,
    }
}

/// The agent that writes the backend code, improves it, fixes its bugs and
/// lists its routes.
#[derive(Debug)]
pub struct AgentBackendDeveloper {
    attributes: BasicAgent,
    bug_errors: Option<String>,
    bug_count: u8,
    tests_passed: bool,
}

impl AgentBackendDeveloper {
    pub open spec fn state(&self) -> AgentState {
        self.attributes().state
    }

    pub closed spec fn bug_count(&self) -> u8 {
        self.bug_count
    }

    pub closed spec fn bug_errors(&self) -> Option<Seq<char>> {
        match self.bug_errors {
            Some(e) => Some(e@),
            None => None,
        }
    }

    pub closed spec fn tests_passed(&self) -> bool {
        self.tests_passed
    }

    pub closed spec fn inv(&self) -> bool {
        self.bug_count <= MAX_BUG_FIXES
    }

    pub fn new() -> (r: Self)
        ensures
            r.inv(),
            r.state() == AgentState::Discovery,
            r.attributes().objective@ == "Develops backend code for webserver and json database"@,
            r.attributes().position@ == "Backend developer"@,
            (r.attributes().memory matches Some(m) && m@.len() == 0),
            r.bug_count() == 0,
            r.bug_errors() is None,
            !r.tests_passed(),
    {
        let attributes = BasicAgent {
            objective: String::from_str("Develops backend code for webserver and json database"),
            position: String::from_str("Backend developer"),
            state: AgentState::Discovery,
            memory: Some(Vec::new()),
        };
        AgentBackendDeveloper { attributes, bug_errors: None, bug_count: 0, tests_passed: false }
    }

    /// What the agent needs next: the first code from the template, then an
    /// improved version (or, after a failing report, a fix), then a test run,
    /// and once the tests pass, the list of routes.
    pub fn next_step(&self, factsheet: &FactSheet, template: &str) -> (s: BackendStep)
        requires
            self.inv(),
        ensures
            self.state() == AgentState::Discovery ==> is_call(
                s,
                AiFunction::PrintBackendWebserverCode,
                initial_context(template@, factsheet.project_description@),
            ),
            self.state() == AgentState::Working && self.bug_count() == 0 ==> is_call(
                s,
                AiFunction::PrintImprovedWebserverCode,
                improved_context(*factsheet),
            ),
            self.state() == AgentState::Working && self.bug_count() > 0 ==> is_call(
                s,
                AiFunction::PrintFixedCode,
                fix_context(
                    code_text(factsheet.backend_code),
                    match self.bug_errors() {
                        Some(e) => e,
                        None => Seq::empty(),
                    },
                ),
            ),
            self.state() == AgentState::UnitTesting && !self.tests_passed() ==> s is RunTests,
            self.state() == AgentState::UnitTesting && self.tests_passed() ==> is_call(
                s,
                AiFunction::PrintRestApiEndpoints,
                endpoints_context(code_text(factsheet.backend_code)),
            ),
            self.state() == AgentState::Finished ==> s is Done,
    {
        match self.attributes.state {
            AgentState::Discovery => BackendStep::Call(
                AiFunction::PrintBackendWebserverCode,
                initial_code_context(template, factsheet.project_description.as_str()),
            ),
            AgentState::Working => if self.bug_count == 0 {
                BackendStep::Call(
                    AiFunction::PrintImprovedWebserverCode,
                    improved_code_context(factsheet),
                )
            } else {
                let code = code_of(&factsheet.backend_code);
                let errors = match &self.bug_errors {
                    Some(e) => e.as_str(),
                    None => {
                        proof {
                            reveal_strlit("");
                        }
                        ""
                    },
                };
                BackendStep::Call(AiFunction::PrintFixedCode, fix_code_context(code, errors))
            },
            AgentState::UnitTesting => if self.tests_passed {
                BackendStep::Call(
                    AiFunction::PrintRestApiEndpoints,
                    rest_api_endpoints_context(code_of(&factsheet.backend_code)),
                )
            } else {
                BackendStep::RunTests
            },
            AgentState::Finished => BackendStep::Done,
        }
    }

    /// Stores newly generated code in the record, replacing the earlier
    /// version. The first code is improved next; improved or fixed code is
    /// tested next.
    pub fn store_code(&mut self, factsheet: &mut FactSheet, code: String)
        requires
            old(self).inv(),
            old(self).state() == AgentState::Discovery || old(self).state() == AgentState::Working,
        ensures
            final(self).inv(),
            final(factsheet).backend_code == Some(code),
            final(factsheet).project_description == old(factsheet).project_description,
            final(factsheet).project_scope == old(factsheet).project_scope,
            final(factsheet).external_urls == old(factsheet).external_urls,
            final(factsheet).api_endpoint_schema == old(factsheet).api_endpoint_schema,
            final(self).state() == if old(self).state() == AgentState::Discovery {
                AgentState::Working
            } else {
                AgentState::UnitTesting
            },
            final(self).bug_count() == old(self).bug_count(),
            final(self).bug_errors() == old(self).bug_errors(),
            !final(self).tests_passed(),
    {
        factsheet.backend_code = Some(code);
        self.tests_passed = false;
        if self.attributes.state == AgentState::Discovery {
            self.attributes.state = AgentState::Working;
        } else {
            self.attributes.state = AgentState::UnitTesting;
        }
    }

    /// Takes the report of a test run: `None` where the code built and passed.
    /// A failing report counts one more bug and asks for a fix, unless the
    /// fixes are used up: then the phase fails and the agent finishes.
    pub fn record_test_report(&mut self, report: Option<String>) -> (r: Result<(), PipelineError>)
        requires
            old(self).inv(),
            old(self).state() == AgentState::UnitTesting,
            !old(self).tests_passed(),
        ensures
            final(self).inv(),
            report is None ==> r is Ok && final(self).tests_passed() && final(self).state()
                == AgentState::UnitTesting && final(self).bug_count() == old(self).bug_count(),
            report is Some ==> match after_failing_report(old(self).bug_count()) {
                Some(c) => r is Ok && final(self).bug_count() == c && final(self).state()
                    == AgentState::Working && final(self).bug_errors() == Some(report->Some_0@)
                    && !final(self).tests_passed(),
                None => r == Err::<(), PipelineError>(PipelineError::RepairExhausted)
                    && final(self).state() == AgentState::Finished,
            },
    {
        match report {
            None => {
                self.tests_passed = true;
                Ok(())
            },
            Some(errors) => {
                if self.bug_count < MAX_BUG_FIXES {
                    self.bug_count = self.bug_count + 1;
                    self.bug_errors = Some(errors);
                    self.attributes.state = AgentState::Working;
                    Ok(())
                } else {
                    self.attributes.state = AgentState::Finished;
                    Err(PipelineError::RepairExhausted)
                }
            },
        }
    }

    /// Stores the routes read from the tested code, and finishes.
    pub fn store_endpoints(&mut self, factsheet: &mut FactSheet, routes: Vec<RouteObject>)
        requires
            old(self).inv(),
            old(self).state() == AgentState::UnitTesting,
            old(self).tests_passed(),
        ensures
            final(self).inv(),
            final(factsheet).api_endpoint_schema == Some(routes),
            final(factsheet).project_description == old(factsheet).project_description,
            final(factsheet).project_scope == old(factsheet).project_scope,
            final(factsheet).external_urls == old(factsheet).external_urls,
            final(factsheet).backend_code == old(factsheet).backend_code,
            final(self).state() == AgentState::Finished,
    {
        factsheet.api_endpoint_schema = Some(routes);
        self.attributes.state = AgentState::Finished;
    }
}

impl SpecialFunctions for AgentBackendDeveloper {
    closed spec fn attributes(&self) -> BasicAgent {
        self.attributes
    }

    fn get_attributes_from_agent(&self) -> &BasicAgent {
        &self.attributes
    }
}

fn code_of(code: &Option<String>) -> (r: &str)
    ensures
        r@ == code_text(*code),
{
    match code {
        Some(c) => c.as_str(),
        None => {
            proof {
                reveal_strlit("");
            }
            ""
        },
    }
}

fn bool_string(b: bool) -> (r: &'static str)
    ensures
        r@ == bool_text(b),
{
    if b {
        "true"
    } else {
        "false"
    }
}

fn append_scope(out: &mut String, scope: &Option<ProjectScope>)
    ensures
        final(out)@ == old(out)@ + scope_text(*scope),
{
    match scope {
        Some(s) => {
            out.append("crud: ");
            out.append(bool_string(s.is_crud_required));
            out.append(", login and logout: ");
            out.append(bool_string(s.is_user_login_and_logout));
            out.append(", external urls: ");
            out.append(bool_string(s.is_external_urls_required));
        },
        None => out.append("undecided"),
    }
}

fn append_urls(out: &mut String, urls: &Vec<String>)
    ensures
        final(out)@ == old(out)@ + urls_text(urls.deep_view()),
{
    let ghost start = out@;
    let n = urls.len();
    let mut i: usize = 0;
    while i < n
        invariant
            n == urls@.len(),
            i <= n,
            out@ == start + urls_text(urls.deep_view().take(i as int)),
        decreases n - i,
    {
        assert(urls.deep_view().take(i + 1).drop_last() =~= urls.deep_view().take(i as int));
        out.append(urls[i].as_str());
        out.append("\n");
        i += 1;
    }
    assert(urls.deep_view().take(n as int) =~= urls.deep_view());
}

/// The request context for the first code: the template and the description.
pub fn initial_code_context(template: &str, description: &str) -> (r: String)
    ensures
        r@ == initial_context(template@, description@),
{
    let mut out = String::from_str("CODE_TEMPLATE : ");
    out.append(template);
    out.append(" \n PROJECT_DESCRIPTION: ");
    out.append(description);
    out.append(" \n");
    out
}

/// The request context for an improved version: the current code and the
/// whole record.
pub fn improved_code_context(factsheet: &FactSheet) -> (r: String)
    ensures
        r@ == improved_context(*factsheet),
{
    let mut out = String::from_str("CODE_TEMPLATE : ");
    out.append(code_of(&factsheet.backend_code));
    out.append(" \n PROJECT_DESCRIPTION: ");
    out.append("description: ");
    out.append(factsheet.project_description.as_str());
    out.append("\n scope: ");
    append_scope(&mut out, &factsheet.project_scope);
    out.append("\n external urls:\n");
    if let Some(urls) = &factsheet.external_urls {
        append_urls(&mut out, urls);
    }
    out.append(" \n");
    out
}

/// The request context for a fix: the broken code and its errors.
pub fn fix_code_context(code: &str, errors: &str) -> (r: String)
    ensures
        r@ == fix_context(code@, errors@),
{
    let mut out = String::from_str("BROKEN_CODE : ");
    out.append(code);
    out.append(" \n ERROR_BUGS: ");
    out.append(errors);
    out.append(" \n THIS FUNCTION ONLY OUTPUTS CODE. JUST OUTPUT THE CODE");
    out
}

/// The request context for the list of routes: the code itself.
pub fn rest_api_endpoints_context(code: &str) -> (r: String)
    ensures
        r@ == endpoints_context(code@),
{
    let mut out = String::from_str("CODE INPUT: ");
    out.append(code);
    out
}

/// Bug-fix reports that never clear end the phase: from a fresh counter the
/// first `MAX_BUG_FIXES` failing reports each ask for another fix, and the
/// next one makes the phase fail, so the loop cannot go on for ever.
pub proof fn lemma_repair_is_bounded(k: nat)
    ensures
        k <= MAX_BUG_FIXES ==> after_failing_reports(0, k) == Some(k as u8),
        k > MAX_BUG_FIXES ==> after_failing_reports(0, k) is None,
    decreases k,
{
    if k > 0 {
        lemma_repair_is_bounded((k - 1) as nat);
    }
}

} // verus!
