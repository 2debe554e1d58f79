use vstd::prelude::*;

use crate::agent_basic::{AgentState, BasicAgent};
use crate::agent_traits::{FactSheet, ProjectScope, SpecialFunctions};
use crate::ai_functions::AiFunction;
use crate::extract::{decode_string_list, json_slice, json_string_list};
use crate::general::PipelineError;

verus! {

/// The URLs that some probe found unreachable: every URL of the list with a
/// status other than 200, or with no status at all (a transport error).
pub open spec fn excluded_urls(urls: Seq<Seq<char>>, statuses: Seq<Option<u16>>) -> Set<Seq<char>> {
    Set::new(
        |u: Seq<char>|
            exists|j: int| 0 <= j < urls.len() && urls[j] == u && statuses[j] != Some(200u16),
    )
}

/// The URLs of `urls` that are not in `bad`, in their order.
pub open spec fn kept_urls(urls: Seq<Seq<char>>, bad: Set<Seq<char>>) -> Seq<Seq<char>>
    decreases urls.len(),
{
    if urls.len() == 0 {
        Seq::empty()
    } else {
        let rest = kept_urls(urls.drop_last(), bad);
        if bad.contains(urls.last()) {
            rest
        } else {
            rest.push(urls.last())
        }
    }
}

/// Whether `a` is `b` with some entries left out, the others in their order.
pub open spec fn is_subsequence(a: Seq<Seq<char>>, b: Seq<Seq<char>>) -> bool
    decreases b.len(),
{
    if a.len() == 0 {
        true
    } else if b.len() == 0 {
        false
    } else if a.last() == b.last() {
        is_subsequence(a.drop_last(), b.drop_last())
    } else {
        is_subsequence(a, b.drop_last())
    }
}

/// The next thing that the scoping agent needs done.
#[derive(Debug)]
pub enum ArchitectStep {
    /// Send this generation request and hand its answer back.
    Call(AiFunction, String),
    /// Probe each of these URLs and hand back one status per URL.
    ProbeUrls(Vec<String>),
    /// The agent has finished.
    Done,
}

/// The agent that scopes the project and gathers and checks its external URLs.
#[derive(Debug)]
pub struct AgentSolutionArchitect {
    attributes: BasicAgent,
}

pub open spec fn urls_view(urls: Option<Vec<String>>) -> Option<Seq<Seq<char>>> {
    match urls {
        Some(v) => Some(v.deep_view()),
        None => None,
    }
}

/// The URLs of a record, or none where it holds no list.
pub open spec fn urls_or_empty(urls: Option<Vec<String>>) -> Seq<Seq<char>> {
    match urls {
        Some(v) => v.deep_view(),
        None => Seq::empty(),
    }
}

/// The parts of the record that this agent leaves alone.
pub open spec fn same_code_and_routes(a: FactSheet, b: FactSheet) -> bool {
    &&& a.project_description == b.project_description
    &&& a.backend_code == b.backend_code
    &&& a.api_endpoint_schema == b.api_endpoint_schema
}

impl AgentSolutionArchitect {
    pub open spec fn state(&self) -> AgentState {
        self.attributes().state
    }

    pub fn new() -> (r: Self)
        ensures
            r.state() == AgentState::Discovery,
            r.attributes().objective@ == "Gathers information and designs solutions for website development"@,
            r.attributes().position@ == "solutions architect"@,
            (r.attributes().memory matches Some(m) && m@.len() == 0),
    {
        let attributes = BasicAgent {
            objective: String::from_str(
                "Gathers information and designs solutions for website development",
            ),
            position: String::from_str("solutions architect"),
            state: AgentState::Discovery,
            memory: Some(Vec::new()),
        };
        AgentSolutionArchitect { attributes }
    }

    /// What the agent needs next, by its state: the scope of the project, then
    /// (only where the scope asks for them) its external URLs, then their probes.
    pub fn next_step(&self, factsheet: &FactSheet) -> (s: ArchitectStep)
        ensures
            self.state() == AgentState::Discovery ==> s == ArchitectStep::Call(
                AiFunction::PrintProjectScope,
                factsheet.project_description,
            ),
            self.state() == AgentState::Working ==> s == ArchitectStep::Call(
                AiFunction::PrintSiteUrls,
                factsheet.project_description,
            ),
            self.state() == AgentState::UnitTesting ==> (s matches ArchitectStep::ProbeUrls(v)
                && v.deep_view() == urls_or_empty(factsheet.external_urls)),
            self.state() == AgentState::Finished ==> s is Done,
    {
        match self.attributes.state {
            AgentState::Discovery => ArchitectStep::Call(
                AiFunction::PrintProjectScope,
                factsheet.project_description.clone(),
            ),
            AgentState::Working => ArchitectStep::Call(
                AiFunction::PrintSiteUrls,
                factsheet.project_description.clone(),
            ),
            AgentState::UnitTesting => {
                let urls = match &factsheet.external_urls {
                    Some(v) => v.clone(),
                    None => Vec::new(),
                };
                proof {
                    assert(urls.deep_view() =~= urls_or_empty(factsheet.external_urls));
                }
                ArchitectStep::ProbeUrls(urls)
            },
            AgentState::Finished => ArchitectStep::Done,
        }
    }

    /// Stores the decided scope. The agent goes on to ask for URLs only where
    /// the scope needs external URLs; otherwise it has finished.
    pub fn call_project_scope(&mut self, factsheet: &mut FactSheet, scope: ProjectScope)
        requires
            old(self).state() == AgentState::Discovery,
        ensures
            final(factsheet).project_scope == Some(scope),
            final(factsheet).external_urls == old(factsheet).external_urls,
            same_code_and_routes(*final(factsheet), *old(factsheet)),
            final(self).state() == if scope.is_external_urls_required {
                AgentState::Working
            } else {
                AgentState::Finished
            },
    {
        factsheet.project_scope = Some(scope);
        if scope.is_external_urls_required {
            self.attributes.state = AgentState::Working;
        } else {
            self.attributes.state = AgentState::Finished;
        }
    }

    /// Decodes the answer that lists the external URLs and stores them; the
    /// agent then goes on to probe them. An answer that does not decode is fatal.
    pub fn call_determine_external_urls(&mut self, factsheet: &mut FactSheet, response: &str) -> (r:
        Result<(), PipelineError>)
        requires
            old(self).state() == AgentState::Working,
        ensures
            r is Err <==> json_string_list(json_slice(response@)) is None,
            r matches Err(e) ==> e == PipelineError::DecodeFailed && final(self).state()
                == AgentState::Finished && final(factsheet).external_urls
                == old(factsheet).external_urls,
            r is Ok ==> urls_view(final(factsheet).external_urls) == json_string_list(
                json_slice(response@),
            ) && final(self).state() == AgentState::UnitTesting,
            final(factsheet).project_scope == old(factsheet).project_scope,
            same_code_and_routes(*final(factsheet), *old(factsheet)),
    {
        match decode_string_list(response) {
            Ok(urls) => {
                factsheet.external_urls = Some(urls);
                self.attributes.state = AgentState::UnitTesting;
                Ok(())
            },
            Err(e) => {
                self.attributes.state = AgentState::Finished;
                Err(e)
            },
        }
    }

    /// Takes the probes' results, one per URL in the order of the list
    /// (`None` for a transport error), drops every URL that some probe of it
    /// did not find at status 200, and finishes.
    pub fn validate_urls(&mut self, factsheet: &mut FactSheet, statuses: &Vec<Option<u16>>)
        requires
            old(self).state() == AgentState::UnitTesting,
            old(factsheet).external_urls matches Some(v) ==> statuses@.len() == v@.len(),
        ensures
            final(self).state() == AgentState::Finished,
            old(factsheet).external_urls is None ==> final(factsheet).external_urls is None,
            old(factsheet).external_urls matches Some(v) ==> urls_view(
                final(factsheet).external_urls,
            ) == Some(kept_urls(v.deep_view(), excluded_urls(v.deep_view(), statuses@))),
            final(factsheet).project_scope == old(factsheet).project_scope,
            same_code_and_routes(*final(factsheet), *old(factsheet)),
    {
        if let Some(urls) = &factsheet.external_urls {
            let kept = filter_urls(urls, statuses);
            factsheet.external_urls = Some(kept);
        }
        self.attributes.state = AgentState::Finished;
    }
}

impl SpecialFunctions for AgentSolutionArchitect {
    closed spec fn attributes(&self) -> BasicAgent {
        self.attributes
    }

    fn get_attributes_from_agent(&self) -> &BasicAgent {
        &self.attributes
    }
}

fn is_excluded(urls: &Vec<String>, statuses: &Vec<Option<u16>>, u: &String) -> (r: bool)
    requires
        statuses@.len() == urls@.len(),
    ensures
        r == excluded_urls(urls.deep_view(), statuses@).contains(u@),
{
    let n = urls.len();
    let mut j: usize = 0;
    while j < n
        invariant
            n == urls@.len(),
            statuses@.len() == n,
            j <= n,
            forall|k: int|
                0 <= k < j ==> !(urls.deep_view()[k] == u@ && #[trigger] statuses@[k] != Some(
                    200u16,
                )),
        decreases n - j,
    {
        let failed = match statuses[j] {
            Some(code) => code != 200,
            None => true,
        };
        if failed && urls[j] == *u {
            assert(urls.deep_view()[j as int] == u@);
            return true;
        }
        j += 1;
    }
    assert(!excluded_urls(urls.deep_view(), statuses@).contains(u@)) by {
        if excluded_urls(urls.deep_view(), statuses@).contains(u@) {
            let k = choose|k: int|
                0 <= k < n && urls.deep_view()[k] == u@ && statuses@[k] != Some(200u16);
            assert(statuses@[k] != Some(200u16));
        }
    }
    false
}

/// The URLs of `urls` that no probe excluded, in their order.
pub fn filter_urls(urls: &Vec<String>, statuses: &Vec<Option<u16>>) -> (r: Vec<String>)
    requires
        statuses@.len() == urls@.len(),
    ensures
        r.deep_view() == kept_urls(urls.deep_view(), excluded_urls(urls.deep_view(), statuses@)),
{
    let ghost bad = excluded_urls(urls.deep_view(), statuses@);
    let n = urls.len();
    let mut kept: Vec<String> = Vec::new();
    let mut i: usize = 0;
    while i < n
        invariant
            n == urls@.len(),
            statuses@.len() == n,
            i <= n,
            bad == excluded_urls(urls.deep_view(), statuses@),
            kept.deep_view() == kept_urls(urls.deep_view().take(i as int), bad),
        decreases n - i,
    {
        let ghost before = kept.deep_view();
        assert(urls.deep_view().take(i + 1).drop_last() =~= urls.deep_view().take(i as int));
        if !is_excluded(urls, statuses, &urls[i]) {
            kept.push(urls[i].clone());
            assert(kept.deep_view() =~= before.push(urls.deep_view()[i as int]));
        }
        i += 1;
    }
    assert(urls.deep_view().take(n as int) =~= urls.deep_view());
    kept
}


proof fn lemma_subsequence_extend(a: Seq<Seq<char>>, b: Seq<Seq<char>>, x: Seq<char>)
    requires
        is_subsequence(a, b),
    ensures
        is_subsequence(a, b.push(x)),
    decreases b.len(), 1nat,
{
    assert(b.push(x).drop_last() =~= b);
    if a.len() > 0 && a.last() == x {
        lemma_subsequence_shrink(a, b);
    }
}

proof fn lemma_subsequence_shrink(a: Seq<Seq<char>>, b: Seq<Seq<char>>)
    requires
        is_subsequence(a, b),
        a.len() > 0,
    ensures
        is_subsequence(a.drop_last(), b),
    decreases b.len(), 0nat,
{
    if a.len() > 0 && b.len() > 0 {
        if a.last() == b.last() {
            lemma_subsequence_extend(a.drop_last(), b.drop_last(), b.last());
        } else {
            lemma_subsequence_shrink(a, b.drop_last());
            lemma_subsequence_extend(a.drop_last(), b.drop_last(), b.last());
        }
        assert(b.drop_last().push(b.last()) =~= b);
    }
}

proof fn lemma_kept_in_order(urls: Seq<Seq<char>>, bad: Set<Seq<char>>)
    ensures
        is_subsequence(kept_urls(urls, bad), urls),
        forall|u: Seq<char>| #[trigger]
            kept_urls(urls, bad).contains(u) ==> urls.contains(u) && !bad.contains(u),
    decreases urls.len(),
{
    if urls.len() > 0 {
        let d = urls.drop_last();
        let x = urls.last();
        let k = kept_urls(d, bad);
        lemma_kept_in_order(d, bad);
        assert(d.push(x) =~= urls);
        if bad.contains(x) {
            lemma_subsequence_extend(k, d, x);
        } else {
            assert(k.push(x).drop_last() =~= k);
        }
        assert forall|u: Seq<char>| #[trigger]
            kept_urls(urls, bad).contains(u) implies urls.contains(u) && !bad.contains(u) by {
            let i = choose|i: int| 0 <= i < kept_urls(urls, bad).len() && kept_urls(urls, bad)[i] == u;
            if i < k.len() {
                assert(k.contains(u));
                let j = choose|j: int| 0 <= j < d.len() && d[j] == u;
                assert(urls[j] == u);
            } else {
                assert(urls[urls.len() - 1] == u);
            }
        }
    }
}

proof fn lemma_kept_all(urls: Seq<Seq<char>>, bad: Set<Seq<char>>)
    requires
        forall|i: int| 0 <= i < urls.len() ==> !bad.contains(#[trigger] urls[i]),
    ensures
        kept_urls(urls, bad) == urls,
    decreases urls.len(),
{
    if urls.len() > 0 {
        let d = urls.drop_last();
        assert forall|i: int| 0 <= i < d.len() implies !bad.contains(#[trigger] d[i]) by {
            assert(d[i] == urls[i]);
        }
        lemma_kept_all(d, bad);
        assert(urls[urls.len() - 1] == urls.last());
        assert(d.push(urls.last()) =~= urls);
    }
}

/// One validation pass keeps the URLs that it keeps in their order, keeps
/// only URLs of the list, and never keeps a URL that a probe excluded. A second
/// pass over its result, in which no URL's status has changed (each URL has
/// one status, `status`, in both passes), excludes nothing more.
pub proof fn lemma_url_validation(
    urls: Seq<Seq<char>>,
    statuses: Seq<Option<u16>>,
    again: Seq<Option<u16>>,
    status: spec_fn(Seq<char>) -> Option<u16>,
)
    requires
        statuses.len() == urls.len(),
        forall|j: int| 0 <= j < urls.len() ==> #[trigger] statuses[j] == status(urls[j]),
        again.len() == kept_urls(urls, excluded_urls(urls, statuses)).len(),
        forall|k: int|
            0 <= k < again.len() ==> #[trigger] again[k] == status(
                kept_urls(urls, excluded_urls(urls, statuses))[k],
            ),
    ensures
        is_subsequence(kept_urls(urls, excluded_urls(urls, statuses)), urls),
        forall|u: Seq<char>| #[trigger]
            kept_urls(urls, excluded_urls(urls, statuses)).contains(u) ==> urls.contains(u)
                && !excluded_urls(urls, statuses).contains(u),
        ({
            let once = kept_urls(urls, excluded_urls(urls, statuses));
            kept_urls(once, excluded_urls(once, again)) == once
        }),
{
    let bad = excluded_urls(urls, statuses);
    let once = kept_urls(urls, bad);
    lemma_kept_in_order(urls, bad);
    assert forall|k: int| 0 <= k < once.len() implies #[trigger] again[k] == Some(200u16) by {
        let u = once[k];
        assert(once.contains(u));
        assert(urls.contains(u) && !bad.contains(u));
        let j = choose|j: int| 0 <= j < urls.len() && urls[j] == u;
        assert(statuses[j] == status(urls[j]));
        if statuses[j] != Some(200u16) {
            assert(bad.contains(u));
        }
        assert(again[k] == status(once[k]));
    }
    assert forall|i: int| 0 <= i < once.len() implies !excluded_urls(once, again).contains(
        #[trigger] once[i],
    ) by {
        if excluded_urls(once, again).contains(once[i]) {
            let j = choose|j: int|
                0 <= j < once.len() && once[j] == once[i] && again[j] != Some(200u16);
            assert(again[j] == Some(200u16));
        }
    }
    lemma_kept_all(once, excluded_urls(once, again));
}

} // verus!
