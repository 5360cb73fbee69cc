//! The engine's global guarantees, stated and proved over the transition
//! relations: termination of every agent, the backend's bounded bug
//! budget, the endpoint filter, URL exclusion, and fail-fast decoding.

use vstd::prelude::*;
use crate::agent_architect::{arch_run, arch_step, kept_urls, ArchConfig, ArchPhaseView};
use crate::agent_backend::{backend_step, checkable_routes, BackendConfig, BackendPhaseView, CodeTask};
use crate::agent_frontend::{frontend_step, FrontendConfig, FrontendPhaseView};
use crate::agent_trait::RouteObjectView;
use crate::basic_agent::AgentState;
use crate::decode::scope_decode_of;
use crate::errors::AgentError;
use crate::events::{AgentEventView, BuildOutcomeView, ProbeOutcome, StepStatus, TextOutcomeView};
use crate::managing_agent::{manager_step, ManagerConfig, ManagerStageView};
use crate::agent_trait::ProjectScope;

verus! {

/// Strict decrease of a pair, ordered lexicographically.
pub open spec fn lex2_lt(a: (int, int), b: (int, int)) -> bool {
    a.0 < b.0 || (a.0 == b.0 && a.1 < b.1)
}

/// Strict decrease of a quadruple, ordered lexicographically.
pub open spec fn lex4_lt(a: (int, int, int, int), b: (int, int, int, int)) -> bool {
    a.0 < b.0 || (a.0 == b.0 && (a.1 < b.1 || (a.1 == b.1 && (a.2 < b.2 || (a.2 == b.2 && a.3
        < b.3)))))
}

/// Strict decrease of a triple, ordered lexicographically.
pub open spec fn lex3_lt(a: (int, int, int), b: (int, int, int)) -> bool {
    a.0 < b.0 || (a.0 == b.0 && (a.1 < b.1 || (a.1 == b.1 && a.2 < b.2)))
}

/// The architect's phase, ordered along its run.
pub open spec fn arch_rank_phase(p: ArchPhaseView) -> int {
    match p {
        ArchPhaseView::ScopeRequest { retried } => if retried {
            4
        } else {
            5
        },
        ArchPhaseView::UrlsRequest { retried } => if retried {
            2
        } else {
            3
        },
        ArchPhaseView::Probing { .. } => 1,
        ArchPhaseView::Idle => 0,
    }
}

/// How many probes the architect still owes.
pub open spec fn arch_rank_probe(c: ArchConfig) -> int {
    match c.phase {
        ArchPhaseView::Probing { index, .. } => match c.fact.external_urls {
            Some(urls) => urls.len() - index,
            None => 0,
        },
        _ => 0,
    }
}

/// Liveness of the Solutions Architect: every step that keeps the agent
/// running strictly decreases a well-founded rank, so no infinite run
/// exists — the only repetition is the probe pass, bounded by the URL
/// count.
pub proof fn lemma_architect_progress(c: ArchConfig, ev: AgentEventView)
    ensures
        ({
            let (c2, res) = arch_step(c, ev);
            res == Ok::<StepStatus, AgentError>(StepStatus::Running) ==> lex2_lt(
                (arch_rank_phase(c2.phase), arch_rank_probe(c2)),
                (arch_rank_phase(c.phase), arch_rank_probe(c)),
            )
        }),
{
}

/// Whether the backend phase belongs to the generate-build-repair region;
/// once the build succeeds, the run leaves it for good.
pub open spec fn backend_rank_region(p: BackendPhaseView) -> int {
    match p {
        BackendPhaseView::ReadTemplate => 1,
        BackendPhaseView::GenCode { .. } => 1,
        BackendPhaseView::SavingCode { .. } => 1,
        BackendPhaseView::AwaitGate => 1,
        BackendPhaseView::AwaitBuild => 1,
        _ => 0,
    }
}

/// How many build failures the backend may still absorb.
pub open spec fn backend_rank_budget(c: BackendConfig) -> int {
    if backend_rank_region(c.phase) == 1 {
        3 - c.bug_count
    } else {
        0
    }
}

/// The backend's phase, ordered along its run.
pub open spec fn backend_rank_phase(p: BackendPhaseView) -> int {
    match p {
        BackendPhaseView::ReadTemplate => 13,
        BackendPhaseView::GenCode { task, retried, .. } => (match task {
            CodeTask::Initial => 12int,
            _ => 8int,
        }) - (if retried {
            1int
        } else {
            0int
        }),
        BackendPhaseView::SavingCode { task, .. } => match task {
            CodeTask::Initial => 10,
            _ => 6,
        },
        BackendPhaseView::AwaitGate => 5,
        BackendPhaseView::AwaitBuild => 4,
        BackendPhaseView::ReadMain => 5,
        BackendPhaseView::GenSchema { retried, .. } => if retried {
            3
        } else {
            4
        },
        BackendPhaseView::Launching { .. } => 2,
        BackendPhaseView::Probing { .. } => 1,
        BackendPhaseView::Killing { .. } => 1,
        BackendPhaseView::SavingSchema { .. } => 0,
        BackendPhaseView::Idle => 0,
    }
}

/// How much of the probe pass, kills counted, the backend still owes.
pub open spec fn backend_rank_probe(p: BackendPhaseView) -> int {
    match p {
        BackendPhaseView::Probing { checks, index, .. } => 2 * (checks.len() - index) + 1,
        BackendPhaseView::Killing { checks, index, .. } => 2 * (checks.len() - index),
        _ => 0,
    }
}

/// The backend's whole rank.
pub open spec fn backend_rank(c: BackendConfig) -> (int, int, int, int) {
    (
        backend_rank_region(c.phase),
        backend_rank_budget(c),
        backend_rank_phase(c.phase),
        backend_rank_probe(c.phase),
    )
}

/// Liveness of the Backend Developer: every step that keeps the agent
/// running strictly decreases a well-founded rank. The only reachable
/// cycle, Working to UnitTesting and back on a failed build, spends one
/// unit of the bug budget per lap and so ends within the configured
/// attempt budget.
pub proof fn lemma_backend_progress(c: BackendConfig, ev: AgentEventView)
    ensures
        ({
            let (c2, res) = backend_step(c, ev);
            res == Ok::<StepStatus, AgentError>(StepStatus::Running) ==> lex4_lt(
                backend_rank(c2),
                backend_rank(c),
            )
        }),
{
}

/// The backend's bug accounting, exactly as the repair loop keeps it:
/// each absorbed build failure strictly increases `bug_count`; the run
/// aborts as soon as the count would pass two; and the count returns to
/// zero only through a successful build.
pub proof fn lemma_backend_bug_budget(c: BackendConfig, ev: AgentEventView)
    ensures
        ({
            let (c2, res) = backend_step(c, ev);
            let build_failed = c.phase is AwaitBuild && (ev matches AgentEventView::Built(
                BuildOutcomeView::Failure(_),
            ));
            let build_succeeded = c.phase is AwaitBuild && (ev matches AgentEventView::Built(
                BuildOutcomeView::Success,
            ));
            &&& (build_failed && c.bug_count <= 2 ==> c2.bug_count == c.bug_count + 1)
            &&& (build_failed && c.bug_count + 1 > 2 ==> res == Err::<StepStatus, AgentError>(
                AgentError::TooManyBugs,
            ))
            &&& (build_succeeded ==> c2.bug_count == 0)
            &&& (c2.bug_count == 0 && c.bug_count != 0 ==> build_succeeded)
        }),
{
}

/// The frontend's phase group: planning first, then the component loop.
pub open spec fn frontend_rank_region(p: FrontendPhaseView) -> int {
    match p {
        FrontendPhaseView::ReadBackendMain => 1,
        FrontendPhaseView::GenPages { .. } => 1,
        FrontendPhaseView::ReadSchemaForAssign => 1,
        FrontendPhaseView::GenAssignments { .. } => 1,
        FrontendPhaseView::GenColours { .. } => 1,
        _ => 0,
    }
}

/// The position of the component a frontend phase works on.
pub open spec fn frontend_phase_component(p: FrontendPhaseView) -> int {
    match p {
        FrontendPhaseView::GenSvg { .. } => 0,
        FrontendPhaseView::GenLogoWrap { .. } => 0,
        FrontendPhaseView::GenNav { header, .. } => if header {
            1
        } else {
            2
        },
        FrontendPhaseView::ReadHookSchema => 3,
        FrontendPhaseView::GenHook { .. } => 3,
        FrontendPhaseView::ReadHookForPage { page_index } => 4 + page_index,
        FrontendPhaseView::GenWireframe { page_index, .. } => 4 + page_index,
        FrontendPhaseView::GenApiComponent { page_index, .. } => 4 + page_index,
        FrontendPhaseView::GenMerge { page_index, .. } => 4 + page_index,
        FrontendPhaseView::GenStyle { page_index, .. } => 4 + page_index,
        FrontendPhaseView::SavingComponent { component_index, .. } => component_index,
        FrontendPhaseView::Testing { component_index, .. } => component_index,
        FrontendPhaseView::ReadForFix { component_index, .. } => component_index,
        FrontendPhaseView::GenFixFrontend { component_index, .. } => component_index,
        FrontendPhaseView::SavingFix { component_index, .. } => component_index,
        _ => 6,
    }
}

/// The frontend's phase, ordered along one component's recipe and repair
/// pass, and along the planning stage.
pub open spec fn frontend_rank_phase(p: FrontendPhaseView) -> int {
    match p {
        FrontendPhaseView::ReadBackendMain => 9,
        FrontendPhaseView::GenPages { retried, .. } => if retried {
            7
        } else {
            8
        },
        FrontendPhaseView::ReadSchemaForAssign => 6,
        FrontendPhaseView::GenAssignments { retried, .. } => if retried {
            4
        } else {
            5
        },
        FrontendPhaseView::GenColours { retried, .. } => if retried {
            2
        } else {
            3
        },
        FrontendPhaseView::GenSvg { retried, .. } => if retried {
            17
        } else {
            18
        },
        FrontendPhaseView::GenLogoWrap { retried, .. } => if retried {
            15
        } else {
            16
        },
        FrontendPhaseView::GenNav { retried, .. } => if retried {
            15
        } else {
            16
        },
        FrontendPhaseView::ReadHookSchema => 18,
        FrontendPhaseView::GenHook { retried, .. } => if retried {
            16
        } else {
            17
        },
        FrontendPhaseView::ReadHookForPage { .. } => 18,
        FrontendPhaseView::GenWireframe { retried, .. } => if retried {
            16
        } else {
            17
        },
        FrontendPhaseView::GenApiComponent { retried, .. } => if retried {
            14
        } else {
            15
        },
        FrontendPhaseView::GenMerge { retried, .. } => if retried {
            12
        } else {
            13
        },
        FrontendPhaseView::GenStyle { retried, .. } => if retried {
            10
        } else {
            11
        },
        FrontendPhaseView::SavingComponent { .. } => 7,
        FrontendPhaseView::Testing { repaired, .. } => if repaired {
            1
        } else {
            6
        },
        FrontendPhaseView::ReadForFix { .. } => 5,
        FrontendPhaseView::GenFixFrontend { retried, .. } => if retried {
            3
        } else {
            4
        },
        FrontendPhaseView::SavingFix { .. } => 2,
        FrontendPhaseView::Idle => 0,
    }
}

/// The frontend's whole rank.
pub open spec fn frontend_rank(c: FrontendConfig) -> (int, int, int) {
    (
        frontend_rank_region(c.phase),
        6 - frontend_phase_component(c.phase),
        frontend_rank_phase(c.phase),
    )
}

/// Liveness of the Frontend Developer: every step that keeps the agent
/// running strictly decreases a well-founded rank; each component allows
/// at most one repair pass, so the component loop advances.
pub proof fn lemma_frontend_progress(c: FrontendConfig, ev: AgentEventView)
    ensures
        ({
            let (c2, res) = frontend_step(c, ev);
            res == Ok::<StepStatus, AgentError>(StepStatus::Running) ==> lex3_lt(
                frontend_rank(c2),
                frontend_rank(c),
            )
        }),
{
}

/// The manager's whole rank: its own stage first, then the rank of the
/// agent holding the floor.
pub open spec fn manager_rank(c: ManagerConfig) -> (int, int, int, int, int) {
    match c.stage {
        ManagerStageView::Describing { retried, .. } => (
            if retried {
                6
            } else {
                7
            },
            0,
            0,
            0,
            0,
        ),
        ManagerStageView::RunArchitect { state, phase } => {
            let ac = ArchConfig { state, phase, fact: c.fact };
            (5, arch_rank_phase(phase), arch_rank_probe(ac), 0, 0)
        },
        ManagerStageView::RunBackend { state, bug_count, bug_errors, phase } => {
            let bc = BackendConfig { state, bug_count, bug_errors, phase, fact: c.fact };
            (
                4,
                backend_rank_region(phase),
                backend_rank_budget(bc),
                backend_rank_phase(phase),
                backend_rank_probe(phase),
            )
        },
        ManagerStageView::Done => (0, 0, 0, 0, 0),
    }
}

/// Strict decrease of a quintuple, ordered lexicographically.
pub open spec fn lex5_lt(a: (int, int, int, int, int), b: (int, int, int, int, int)) -> bool {
    a.0 < b.0 || (a.0 == b.0 && (a.1 < b.1 || (a.1 == b.1 && (a.2 < b.2 || (a.2 == b.2 && (a.3
        < b.3 || (a.3 == b.3 && a.4 < b.4)))))))
}

/// Liveness of the whole pipeline: every manager step that keeps the run
/// going strictly decreases a well-founded rank, so `execute_project`
/// terminates for every outcome feed.
pub proof fn lemma_manager_progress(c: ManagerConfig, ev: AgentEventView)
    ensures
        ({
            let (c2, res) = manager_step(c, ev);
            res == Ok::<StepStatus, AgentError>(StepStatus::Running) ==> lex5_lt(
                manager_rank(c2),
                manager_rank(c),
            )
        }),
{
    match c.stage {
        ManagerStageView::RunArchitect { state, phase } => {
            lemma_architect_progress(ArchConfig { state, phase, fact: c.fact }, ev);
        },
        ManagerStageView::RunBackend { state, bug_count, bug_errors, phase } => {
            lemma_backend_progress(
                BackendConfig { state, bug_count, bug_errors, phase, fact: c.fact },
                ev,
            );
        },
        _ => {},
    }
}

/// The endpoint filter keeps only what it should: every probed route is a
/// non-dynamic GET route, every non-dynamic GET route of the schema is
/// probed, and no route from outside the schema appears. The order is the
/// schema's own, since the probed subset is a filter of it.
pub proof fn lemma_endpoint_filter(routes: Seq<RouteObjectView>)
    ensures
        forall|i: int|
            0 <= i < checkable_routes(routes).len() ==> (#[trigger] checkable_routes(
                routes,
            )[i]).is_checkable(),
        forall|i: int|
            0 <= i < routes.len() && (#[trigger] routes[i]).is_checkable() ==> checkable_routes(
                routes,
            ).contains(routes[i]),
        forall|x: RouteObjectView| #[trigger]
            checkable_routes(routes).contains(x) ==> routes.contains(x),
{
    routes.filter_lemma(|r: RouteObjectView| r.is_checkable());
    lemma_filter_element_of(routes, |r: RouteObjectView| r.is_checkable());
}

proof fn lemma_filter_element_of(s: Seq<RouteObjectView>, pred: spec_fn(RouteObjectView) -> bool)
    ensures
        forall|x: RouteObjectView| #[trigger] s.filter(pred).contains(x) ==> s.contains(x),
    decreases s.len(),
{
    reveal(Seq::filter);
    if s.len() > 0 {
        lemma_filter_element_of(s.drop_last(), pred);
        assert forall|x: RouteObjectView| #[trigger] s.filter(pred).contains(x) implies s.contains(
            x,
        ) by {
            if s.drop_last().filter(pred).contains(x) {
                assert(s.drop_last().contains(x));
                let j = choose|j: int| 0 <= j < s.drop_last().len() && s.drop_last()[j] == x;
                assert(s[j] == x);
            } else {
                assert(x == s.last());
                assert(s[s.len() - 1] == x);
            }
        }
    }
}

/// The URLs a probe pass excludes, starting at `index`: exactly those
/// whose probe answered with a status other than 200. A probe transport
/// error excludes nothing — it is logged, never fatal.
pub open spec fn excluded_by_probes(
    urls: Seq<Seq<char>>,
    evs: Seq<AgentEventView>,
    index: int,
) -> Seq<Seq<char>>
    decreases evs.len(),
{
    if evs.len() == 0 {
        Seq::empty()
    } else {
        let head = match evs[0] {
            AgentEventView::Probe(ProbeOutcome::Status(code)) => if code != 200 && 0 <= index
                < urls.len() {
                seq![urls[index]]
            } else {
                Seq::empty()
            },
            _ => Seq::empty(),
        };
        head + excluded_by_probes(urls, evs.drop_first(), index + 1)
    }
}

proof fn lemma_probe_pass(
    c: ArchConfig,
    evs: Seq<AgentEventView>,
    urls: Seq<Seq<char>>,
    index: int,
    excluded: Seq<Seq<char>>,
)
    requires
        c.state == AgentState::UnitTesting,
        c.phase == (ArchPhaseView::Probing { index, excluded }),
        c.fact.external_urls == Some(urls),
        0 <= index < urls.len(),
        evs.len() == urls.len() - index,
        forall|i: int| 0 <= i < evs.len() ==> (#[trigger] evs[i]) is Probe,
    ensures
        ({
            let (c2, res, used) = arch_run(c, evs);
            &&& res == Ok::<(), AgentError>(())
            &&& used == evs.len()
            &&& c2.state == AgentState::Finished
            &&& c2.fact.external_urls == Some(
                kept_urls(urls, excluded + excluded_by_probes(urls, evs, index)),
            )
            &&& c2.fact.project_scope == c.fact.project_scope
            &&& c2.fact.project_description == c.fact.project_description
        }),
    decreases evs.len(),
{
    let ev = evs[0];
    assert(evs[0] is Probe);
    let (c1, r1) = arch_step(c, ev);
    let outcome = ev->Probe_0;
    let failing = outcome matches ProbeOutcome::Status(code) && code != 200;
    let excluded2 = if failing {
        excluded.push(urls[index])
    } else {
        excluded
    };
    if index + 1 < urls.len() {
        assert(c1.phase == (ArchPhaseView::Probing { index: index + 1, excluded: excluded2 }));
        assert(c1.fact == c.fact);
        assert(forall|i: int|
            0 <= i < evs.drop_first().len() ==> (#[trigger] evs.drop_first()[i]) is Probe);
        lemma_probe_pass(c1, evs.drop_first(), urls, index + 1, excluded2);
        assert(excluded2 + excluded_by_probes(urls, evs.drop_first(), index + 1) =~= excluded
            + excluded_by_probes(urls, evs, index));
    } else {
        assert(c1.state == AgentState::Finished);
        assert(evs.drop_first().len() == 0);
        assert(excluded_by_probes(urls, evs.drop_first(), index + 1) =~= Seq::<Seq<char>>::empty());
        assert(excluded2 =~= excluded + excluded_by_probes(urls, evs, index));
        assert(arch_run(c, evs).2 == 1);
    }
}

/// URL exclusion: over a whole probe pass, the post-probe URL list is the
/// candidate list with exactly the non-200 URLs removed — order preserved,
/// nothing added — and the pass always ends in `Finished`, consuming one
/// probe outcome per URL.
pub proof fn lemma_url_exclusion(c: ArchConfig, evs: Seq<AgentEventView>, urls: Seq<Seq<char>>)
    requires
        c.state == AgentState::UnitTesting,
        c.phase == (ArchPhaseView::Probing { index: 0, excluded: Seq::empty() }),
        c.fact.external_urls == Some(urls),
        urls.len() > 0,
        evs.len() == urls.len(),
        forall|i: int| 0 <= i < evs.len() ==> (#[trigger] evs[i]) is Probe,
    ensures
        ({
            let (c2, res, used) = arch_run(c, evs);
            &&& res == Ok::<(), AgentError>(())
            &&& used == urls.len()
            &&& c2.state == AgentState::Finished
            &&& c2.fact.external_urls == Some(kept_urls(urls, excluded_by_probes(urls, evs, 0)))
        }),
{
    lemma_probe_pass(c, evs, urls, 0, Seq::empty());
    assert(Seq::<Seq<char>>::empty() + excluded_by_probes(urls, evs, 0) =~= excluded_by_probes(
        urls,
        evs,
        0,
    ));
}

/// Exclusion removes, never adds: every kept URL is one of the candidate
/// URLs, and a duplicate-free URL list stays duplicate-free through
/// exclusion.
pub proof fn lemma_kept_urls_distinct(urls: Seq<Seq<char>>, excluded: Seq<Seq<char>>)
    ensures
        forall|x: Seq<char>| #[trigger]
            kept_urls(urls, excluded).contains(x) ==> urls.contains(x),
        urls.no_duplicates() ==> kept_urls(urls, excluded).no_duplicates(),
    decreases urls.len(),
{
    reveal(Seq::filter);
    if urls.len() > 0 {
        let d = urls.drop_last();
        lemma_kept_urls_distinct(d, excluded);
        let kd = kept_urls(d, excluded);
        let k = kept_urls(urls, excluded);
        assert forall|x: Seq<char>| #[trigger] k.contains(x) implies urls.contains(x) by {
            let j = choose|j: int| 0 <= j < k.len() && k[j] == x;
            if j < kd.len() {
                assert(kd[j] == x);
                assert(kd.contains(x));
                assert(d.contains(x));
                let i = choose|i: int| 0 <= i < d.len() && d[i] == x;
                assert(urls[i] == x);
            } else {
                assert(x == urls.last());
                assert(urls[urls.len() - 1] == x);
            }
        }
        if urls.no_duplicates() {
            assert(d.no_duplicates());
            if !excluded.contains(urls.last()) {
                assert(k =~= kd.push(urls.last()));
                assert(!kd.contains(urls.last())) by {
                    if kd.contains(urls.last()) {
                        assert(d.contains(urls.last()));
                        let i = choose|i: int| 0 <= i < d.len() && d[i] == urls.last();
                        assert(urls[i] == urls[urls.len() - 1]);
                    }
                }
                assert forall|i: int, j: int| 0 <= i < j < k.len() implies k[i] != k[j] by {
                    if j == k.len() - 1 {
                        assert(k[i] == kd[i]);
                        assert(kd.contains(kd[i]));
                    }
                }
            }
        }
    }
}

/// Decode robustness at the engine's first decode path: text that does
/// not decode as a scope record fails fast as a schema-decode error and
/// changes nothing — no silent defaulting. The other decode paths carry
/// the same clause in their transition relations.
pub proof fn lemma_scope_decode_fails_fast(c: ArchConfig, s: Seq<char>, retried: bool)
    requires
        c.phase == (ArchPhaseView::ScopeRequest { retried }),
        scope_decode_of(s) is None,
    ensures
        arch_step(c, AgentEventView::Text(TextOutcomeView::Delivered(s))) == (
            c,
            Err::<StepStatus, AgentError>(AgentError::SchemaDecode),
        ),
{
}

/// The same fail-fast clause at the backend's schema decode path: text
/// that does not decode as an endpoint schema aborts the run unchanged.
pub proof fn lemma_schema_decode_fails_fast(
    c: BackendConfig,
    s: Seq<char>,
    context: Seq<char>,
    retried: bool,
)
    requires
        c.phase == (BackendPhaseView::GenSchema { context, retried }),
        crate::decode::routes_views_of(s) is None,
    ensures
        backend_step(c, AgentEventView::Text(TextOutcomeView::Delivered(s))) == (
            c,
            Err::<StepStatus, AgentError>(AgentError::SchemaDecode),
        ),
{
}

/// Scenario law: when the decoded scope does not require external URLs,
/// the architect records the scope, skips probing entirely, and finishes
/// in one step with the URL list untouched.
pub proof fn lemma_scope_without_urls(c: ArchConfig, s: Seq<char>, crud: bool, login: bool)
    requires
        c.state == AgentState::Discovery,
        c.phase == (ArchPhaseView::ScopeRequest { retried: false }),
        scope_decode_of(s) == Some((crud, login, false)),
    ensures
        ({
            let (c2, res, used) = arch_run(c, seq![AgentEventView::Text(TextOutcomeView::Delivered(s))]);
            &&& res == Ok::<(), AgentError>(())
            &&& used == 1
            &&& c2.state == AgentState::Finished
            &&& c2.fact.project_scope == Some(
                ProjectScope {
                    is_crud_required: crud,
                    is_user_login_and_logout: login,
                    is_external_urls_required: false,
                },
            )
            &&& c2.fact.external_urls == c.fact.external_urls
        }),
{
    let evs = seq![AgentEventView::Text(TextOutcomeView::Delivered(s))];
    assert(evs.len() == 1);
    assert(evs[0] == AgentEventView::Text(TextOutcomeView::Delivered(s)));
    let (c1, r1) = arch_step(c, evs[0]);
    assert(c1.state == AgentState::Finished);
    assert(evs.drop_first().len() == 0);
    assert(arch_run(c1, evs.drop_first()) == (c1, Ok::<(), AgentError>(()), 0int));
    assert(arch_run(c, evs).2 == 1);
}

} // verus!
