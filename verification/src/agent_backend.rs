//! The Backend Developer: generates a backend artifact from a code
//! template, then repeatedly builds, repairs and finally live-probes it
//! under a bounded retry budget.
//!
//! Lifecycle: Discovery (initial artifact from the template), Working
//! (a refinement rewrite when no bugs are recorded, a targeted fix
//! otherwise), UnitTesting (confirmation gate, build, and on success:
//! schema read-back, decode, launch, per-endpoint probes, schema
//! persistence), Finished. Each build failure increments `bug_count`; more
//! than two accumulated failures abort the run. The launched subprocess is
//! released exactly once — at the first probe transport error or at the end
//! of the probe pass — while later probes of the same pass proceed
//! regardless of process liveness, as the pipeline always did.

use vstd::prelude::*;
use vstd::string::StringExecFns;
use crate::agent_trait::{FactSheet, FactSheetView, RouteObject, RouteObjectView};
use crate::basic_agent::{AgentState, BasicAgent, BasicTraits};
use crate::decode::{parse_route_objects, routes_views_of};
use crate::errors::AgentError;
use crate::events::{
    AgentAction,
    AgentActionView,
    AgentEvent,
    AgentEventView,
    AiFunction,
    EventFeed,
    ProbeOutcome,
    StepStatus,
    TextOutcome,
    TextOutcomeView,
    BuildOutcome,
    BuildOutcomeView,
};

verus! {

/// Which artifact text the agent is asking the service for.
#[derive(Debug, Clone, Copy, PartialEq, Eq, Structural)]
pub enum CodeTask {
    /// First artifact, from the code template.
    Initial,
    /// Refinement rewrite of a building artifact.
    Improved,
    /// Targeted fix from the last captured build errors.
    Fix,
}

impl CodeTask {
    /// The prompt template each task applies.
    pub open spec fn spec_ai_function(self) -> AiFunction {
        match self {
            CodeTask::Initial => AiFunction::PrintBackendWebserverCode,
            CodeTask::Improved => AiFunction::PrintImprovedWebserverCode,
            CodeTask::Fix => AiFunction::PrintFixedCode,
        }
    }

    pub fn ai_function(&self) -> (r: AiFunction)
        ensures
            r == self.spec_ai_function(),
    {
        match self {
            CodeTask::Initial => AiFunction::PrintBackendWebserverCode,
            CodeTask::Improved => AiFunction::PrintImprovedWebserverCode,
            CodeTask::Fix => AiFunction::PrintFixedCode,
        }
    }
}

/// Where the backend developer stands between two outside actions.
#[derive(Debug)]
pub enum BackendPhase {
    /// Awaiting the code template's contents.
    ReadTemplate,
    /// Awaiting a generated artifact for `task`, requested with `context`.
    GenCode { task: CodeTask, context: String, retried: bool },
    /// Awaiting the acknowledgement that the artifact text was persisted.
    SavingCode { task: CodeTask, code: String },
    /// Awaiting the human confirmation gate's answer.
    AwaitGate,
    /// Awaiting the build toolchain's outcome.
    AwaitBuild,
    /// Awaiting the persisted artifact source, to be read back.
    ReadMain,
    /// Awaiting the self-described endpoint schema text.
    GenSchema { context: String, retried: bool },
    /// Awaiting the acknowledgement that the server subprocess is up and
    /// warmed.
    Launching { json: String, checks: Vec<RouteObject> },
    /// Awaiting the probe outcome for `checks[index]`; `killed` says
    /// whether the subprocess was already released.
    Probing { json: String, checks: Vec<RouteObject>, index: usize, killed: bool },
    /// Awaiting the acknowledgement that the subprocess was released,
    /// after probing `checks[index]`.
    Killing { json: String, checks: Vec<RouteObject>, index: usize },
    /// Awaiting the acknowledgement that the schema JSON was persisted.
    SavingSchema { json: String },
    /// No handler applies any more.
    Idle,
}

#[verifier::ext_equal]
pub enum BackendPhaseView {
    ReadTemplate,
    GenCode { task: CodeTask, context: Seq<char>, retried: bool },
    SavingCode { task: CodeTask, code: Seq<char> },
    AwaitGate,
    AwaitBuild,
    ReadMain,
    GenSchema { context: Seq<char>, retried: bool },
    Launching { json: Seq<char>, checks: Seq<RouteObjectView> },
    Probing { json: Seq<char>, checks: Seq<RouteObjectView>, index: int, killed: bool },
    Killing { json: Seq<char>, checks: Seq<RouteObjectView>, index: int },
    SavingSchema { json: Seq<char> },
    Idle,
}

impl View for BackendPhase {
    type V = BackendPhaseView;

    open spec fn view(&self) -> BackendPhaseView {
        match self {
            BackendPhase::ReadTemplate => BackendPhaseView::ReadTemplate,
            BackendPhase::GenCode { task, context, retried } => (BackendPhaseView::GenCode {
                task: *task,
                context: context@,
                retried: *retried,
            }),
            BackendPhase::SavingCode { task, code } => (BackendPhaseView::SavingCode {
                task: *task,
                code: code@,
            }),
            BackendPhase::AwaitGate => BackendPhaseView::AwaitGate,
            BackendPhase::AwaitBuild => BackendPhaseView::AwaitBuild,
            BackendPhase::ReadMain => BackendPhaseView::ReadMain,
            BackendPhase::GenSchema { context, retried } => (BackendPhaseView::GenSchema {
                context: context@,
                retried: *retried,
            }),
            BackendPhase::Launching { json, checks } => (BackendPhaseView::Launching {
                json: json@,
                checks: checks.deep_view(),
            }),
            BackendPhase::Probing { json, checks, index, killed } => (BackendPhaseView::Probing {
                json: json@,
                checks: checks.deep_view(),
                index: *index as int,
                killed: *killed,
            }),
            BackendPhase::Killing { json, checks, index } => (BackendPhaseView::Killing {
                json: json@,
                checks: checks.deep_view(),
                index: *index as int,
            }),
            BackendPhase::SavingSchema { json } => (BackendPhaseView::SavingSchema { json: json@ }),
            BackendPhase::Idle => BackendPhaseView::Idle,
        }
    }
}

/// Everything the backend developer's transition relation reads and
/// writes.
#[verifier::ext_equal]
pub struct BackendConfig {
    pub state: AgentState,
    pub bug_count: u8,
    pub bug_errors: Option<Seq<char>>,
    pub phase: BackendPhaseView,
    pub fact: FactSheetView,
}

/// The context asking for the first artifact.
pub open spec fn initial_context_of(template: Seq<char>, description: Seq<char>) -> Seq<char> {
    "CODE TEMPLATE: "@ + template + " \n PROJECT DESCRIPTION: "@ + description
}

/// The context asking for a refinement rewrite.
pub open spec fn improved_context_of(code: Seq<char>, description: Seq<char>) -> Seq<char> {
    "CODE TEMPLATE: "@ + code + " \n PROJECT DESCRIPTION: "@ + description
}

/// The context asking for a targeted fix.
pub open spec fn fix_context_of(code: Seq<char>, errors: Seq<char>) -> Seq<char> {
    "BROKEN CODE: "@ + code + " \n ERROR BUGS: "@ + errors
        + " \n THIS FUNCTION JUST OUTPUTS THE CODE. JUST OUTPUT THE CODE."@
}

/// The context asking the service to read the built source back and
/// enumerate its REST endpoints.
pub open spec fn schema_context_of(code: Seq<char>) -> Seq<char> {
    "CODE INPUT: "@ + code + " \n"@
}

/// The probed address of one endpoint on the freshly launched server.
pub open spec fn endpoint_url_of(route: Seq<char>) -> Seq<char> {
    "http://127.0.0.1:8080"@ + route
}

/// The probed subset of a schema: exactly the non-dynamic GET routes, in
/// order.
pub open spec fn checkable_routes(routes: Seq<RouteObjectView>) -> Seq<RouteObjectView> {
    routes.filter(|r: RouteObjectView| r.is_checkable())
}

/// The blackboard's code, or nothing, as text.
pub open spec fn code_or_empty(code: Option<Seq<char>>) -> Seq<char> {
    match code {
        Some(c) => c,
        None => Seq::empty(),
    }
}

/// The backend developer's transition relation. Total: an event of a kind
/// the current phase did not ask for changes nothing and is an error.
pub open spec fn backend_step(c: BackendConfig, ev: AgentEventView) -> (BackendConfig, Result<
    StepStatus,
    AgentError,
>) {
    match (c.phase, ev) {
        (BackendPhaseView::ReadTemplate, AgentEventView::FileRead(template)) => (
            BackendConfig {
                phase: BackendPhaseView::GenCode {
                    task: CodeTask::Initial,
                    context: initial_context_of(template, c.fact.project_description),
                    retried: false,
                },
                ..c
            },
            Ok(StepStatus::Running),
        ),
        (BackendPhaseView::GenCode { task, context, retried }, AgentEventView::Text(outcome)) => match outcome {
            TextOutcomeView::Delivered(code) => (
                BackendConfig { phase: BackendPhaseView::SavingCode { task, code }, ..c },
                Ok(StepStatus::Running),
            ),
            TextOutcomeView::Failed => {
                if !retried {
                    (
                        BackendConfig {
                            phase: BackendPhaseView::GenCode { task, context, retried: true },
                            ..c
                        },
                        Ok(StepStatus::Running),
                    )
                } else {
                    (c, Err(AgentError::TransientService))
                }
            },
        },
        (BackendPhaseView::SavingCode { task, code }, AgentEventView::Done) => {
            let fact2 = FactSheetView { backend_code: Some(code), ..c.fact };
            match task {
                CodeTask::Initial => (
                    BackendConfig {
                        state: AgentState::Working,
                        phase: BackendPhaseView::GenCode {
                            task: CodeTask::Improved,
                            context: improved_context_of(code, c.fact.project_description),
                            retried: false,
                        },
                        fact: fact2,
                        ..c
                    },
                    Ok(StepStatus::Running),
                ),
                _ => (
                    BackendConfig {
                        state: AgentState::UnitTesting,
                        phase: BackendPhaseView::AwaitGate,
                        fact: fact2,
                        ..c
                    },
                    Ok(StepStatus::Running),
                ),
            }
        },
        (BackendPhaseView::AwaitGate, AgentEventView::Confirmed(yes)) => {
            if yes {
                (
                    BackendConfig { phase: BackendPhaseView::AwaitBuild, ..c },
                    Ok(StepStatus::Running),
                )
            } else {
                (c, Err(AgentError::OperatorAbort))
            }
        },
        (BackendPhaseView::AwaitBuild, AgentEventView::Built(outcome)) => match outcome {
            BuildOutcomeView::Success => (
                BackendConfig { bug_count: 0, phase: BackendPhaseView::ReadMain, ..c },
                Ok(StepStatus::Running),
            ),
            BuildOutcomeView::Failure(stderr) => {
                if c.bug_count > 2 {
                    (c, Err(AgentError::TooManyBugs))
                } else {
                    let c2 = BackendConfig {
                        bug_count: (c.bug_count + 1) as u8,
                        bug_errors: Some(stderr),
                        ..c
                    };
                    if c.bug_count + 1 > 2 {
                        (c2, Err(AgentError::TooManyBugs))
                    } else {
                        (
                            BackendConfig {
                                state: AgentState::Working,
                                phase: BackendPhaseView::GenCode {
                                    task: CodeTask::Fix,
                                    context: fix_context_of(
                                        code_or_empty(c.fact.backend_code),
                                        stderr,
                                    ),
                                    retried: false,
                                },
                                ..c2
                            },
                            Ok(StepStatus::Running),
                        )
                    }
                }
            },
        },
        (BackendPhaseView::ReadMain, AgentEventView::FileRead(code)) => (
            BackendConfig {
                phase: BackendPhaseView::GenSchema {
                    context: schema_context_of(code),
                    retried: false,
                },
                ..c
            },
            Ok(StepStatus::Running),
        ),
        (BackendPhaseView::GenSchema { context, retried }, AgentEventView::Text(outcome)) => match outcome {
            TextOutcomeView::Delivered(s) => match routes_views_of(s) {
                Some(routes) => (
                    BackendConfig {
                        phase: BackendPhaseView::Launching {
                            json: s,
                            checks: checkable_routes(routes),
                        },
                        fact: FactSheetView { api_endpoint_schema: Some(routes), ..c.fact },
                        ..c
                    },
                    Ok(StepStatus::Running),
                ),
                None => (c, Err(AgentError::SchemaDecode)),
            },
            TextOutcomeView::Failed => {
                if !retried {
                    (
                        BackendConfig {
                            phase: BackendPhaseView::GenSchema { context, retried: true },
                            ..c
                        },
                        Ok(StepStatus::Running),
                    )
                } else {
                    (c, Err(AgentError::TransientService))
                }
            },
        },
        (BackendPhaseView::Launching { json, checks }, AgentEventView::Done) => {
            if checks.len() == 0 {
                (
                    BackendConfig {
                        phase: BackendPhaseView::Killing { json, checks, index: 0 },
                        ..c
                    },
                    Ok(StepStatus::Running),
                )
            } else {
                (
                    BackendConfig {
                        phase: BackendPhaseView::Probing { json, checks, index: 0, killed: false },
                        ..c
                    },
                    Ok(StepStatus::Running),
                )
            }
        },
        (
            BackendPhaseView::Probing { json, checks, index, killed },
            AgentEventView::Probe(outcome),
        ) => {
            if 0 <= index < checks.len() {
                if outcome is Failed && !killed {
                    (
                        BackendConfig {
                            phase: BackendPhaseView::Killing { json, checks, index },
                            ..c
                        },
                        Ok(StepStatus::Running),
                    )
                } else if index + 1 < checks.len() {
                    (
                        BackendConfig {
                            phase: BackendPhaseView::Probing {
                                json,
                                checks,
                                index: index + 1,
                                killed,
                            },
                            ..c
                        },
                        Ok(StepStatus::Running),
                    )
                } else if !killed {
                    (
                        BackendConfig {
                            phase: BackendPhaseView::Killing { json, checks, index },
                            ..c
                        },
                        Ok(StepStatus::Running),
                    )
                } else {
                    (
                        BackendConfig { phase: BackendPhaseView::SavingSchema { json }, ..c },
                        Ok(StepStatus::Running),
                    )
                }
            } else {
                (c, Err(AgentError::UnexpectedEvent))
            }
        },
        (BackendPhaseView::Killing { json, checks, index }, AgentEventView::Done) => {
            if index + 1 < checks.len() {
                (
                    BackendConfig {
                        phase: BackendPhaseView::Probing {
                            json,
                            checks,
                            index: index + 1,
                            killed: true,
                        },
                        ..c
                    },
                    Ok(StepStatus::Running),
                )
            } else {
                (
                    BackendConfig { phase: BackendPhaseView::SavingSchema { json }, ..c },
                    Ok(StepStatus::Running),
                )
            }
        },
        (BackendPhaseView::SavingSchema { .. }, AgentEventView::Done) => (
            BackendConfig { state: AgentState::Finished, phase: BackendPhaseView::Idle, ..c },
            Ok(StepStatus::Finished),
        ),
        _ => (c, Err(AgentError::UnexpectedEvent)),
    }
}

/// The outside action the backend developer asks for in a configuration.
pub open spec fn backend_action(c: BackendConfig) -> Option<AgentActionView> {
    match c.phase {
        BackendPhaseView::ReadTemplate => Some(AgentActionView::ReadCodeTemplate),
        BackendPhaseView::GenCode { task, context, .. } => Some(
            AgentActionView::RequestText { context, ai_function: task.spec_ai_function() },
        ),
        BackendPhaseView::SavingCode { code, .. } => Some(
            AgentActionView::SaveBackendCode { code },
        ),
        BackendPhaseView::AwaitGate => Some(AgentActionView::AskConfirmation),
        BackendPhaseView::AwaitBuild => Some(AgentActionView::BuildBackend),
        BackendPhaseView::ReadMain => Some(AgentActionView::ReadMainFile),
        BackendPhaseView::GenSchema { context, .. } => Some(
            AgentActionView::RequestText {
                context,
                ai_function: AiFunction::PrintRestApiEndpoints,
            },
        ),
        BackendPhaseView::Launching { .. } => Some(AgentActionView::LaunchServer),
        BackendPhaseView::Probing { checks, index, .. } => if 0 <= index < checks.len() {
            Some(AgentActionView::ProbeUrl { url: endpoint_url_of(checks[index].route) })
        } else {
            None
        },
        BackendPhaseView::Killing { .. } => Some(AgentActionView::KillServer),
        BackendPhaseView::SavingSchema { json } => Some(AgentActionView::SaveApiSchema { json }),
        BackendPhaseView::Idle => None,
    }
}

/// One whole backend run over a finite feed of outcomes: final
/// configuration, verdict, events consumed. A configuration whose phase
/// awaits nothing but whose state is not `Finished` is defensively forced
/// to `Finished`.
pub open spec fn backend_run(c: BackendConfig, evs: Seq<AgentEventView>) -> (BackendConfig, Result<
    (),
    AgentError,
>, int)
    decreases evs.len(),
{
    if c.state == AgentState::Finished {
        (c, Ok(()), 0)
    } else if c.phase is Idle {
        (BackendConfig { state: AgentState::Finished, ..c }, Ok(()), 0)
    } else if evs.len() == 0 {
        (c, Err(AgentError::EventsExhausted), 0)
    } else {
        let (c2, res) = backend_step(c, evs[0]);
        match res {
            Err(e) => (c2, Err(e), 1),
            Ok(_) => {
                let (c3, r3, n3) = backend_run(c2, evs.drop_first());
                (c3, r3, 1 + n3)
            },
        }
    }
}

/// The Backend Developer agent.
#[derive(Debug)]
pub struct AgentBackendDeveloper {
    pub attributes: BasicAgent,
    pub bug_errors: Option<String>,
    pub bug_count: u8,
    pub phase: BackendPhase,
}

fn initial_code_context(template: &str, description: &String) -> (r: String)
    ensures
        r@ == initial_context_of(template@, description@),
{
    let mut s = String::from_str("CODE TEMPLATE: ");
    s.append(template);
    s.append(" \n PROJECT DESCRIPTION: ");
    s.append(description.as_str());
    proof {
        assert(s@ =~= initial_context_of(template@, description@));
    }
    s
}

fn improved_code_context(code: &String, description: &String) -> (r: String)
    ensures
        r@ == improved_context_of(code@, description@),
{
    let mut s = String::from_str("CODE TEMPLATE: ");
    s.append(code.as_str());
    s.append(" \n PROJECT DESCRIPTION: ");
    s.append(description.as_str());
    proof {
        assert(s@ =~= improved_context_of(code@, description@));
    }
    s
}

fn fix_code_context(code: &String, errors: &String) -> (r: String)
    ensures
        r@ == fix_context_of(code@, errors@),
{
    let mut s = String::from_str("BROKEN CODE: ");
    s.append(code.as_str());
    s.append(" \n ERROR BUGS: ");
    s.append(errors.as_str());
    s.append(" \n THIS FUNCTION JUST OUTPUTS THE CODE. JUST OUTPUT THE CODE.");
    proof {
        assert(s@ =~= fix_context_of(code@, errors@));
    }
    s
}

fn schema_code_context(code: &String) -> (r: String)
    ensures
        r@ == schema_context_of(code@),
{
    let mut s = String::from_str("CODE INPUT: ");
    s.append(code.as_str());
    s.append(" \n");
    proof {
        assert(s@ =~= schema_context_of(code@));
    }
    s
}

fn endpoint_url(route: &String) -> (r: String)
    ensures
        r@ == endpoint_url_of(route@),
{
    let mut s = String::from_str("http://127.0.0.1:8080");
    s.append(route.as_str());
    proof {
        assert(s@ =~= endpoint_url_of(route@));
    }
    s
}

/// The non-dynamic GET subset of a decoded schema, in order.
fn filter_checkable(routes: &Vec<RouteObject>) -> (r: Vec<RouteObject>)
    ensures
        r.deep_view() == checkable_routes(routes.deep_view()),
{
    let ghost pred = |rv: RouteObjectView| rv.is_checkable();
    let get_str = String::from_str("get");
    let mut out: Vec<RouteObject> = Vec::new();
    let mut i: usize = 0;
    while i < routes.len()
        invariant
            i <= routes.len(),
            get_str@ == "get"@,
            out.deep_view() == routes.deep_view().take(i as int).filter(pred),
            pred == (|rv: RouteObjectView| rv.is_checkable()),
        decreases routes.len() - i,
    {
        proof {
            assert(routes.deep_view().take(i + 1).drop_last() =~= routes.deep_view().take(i as int));
            assert(routes.deep_view().take(i + 1).last() == routes.deep_view()[i as int]);
            assert(routes.deep_view()[i as int] == routes@[i as int]@);
            reveal(Seq::filter);
        }
        let keep = routes[i].method.eq(&get_str) && !routes[i].is_route_dynamic;
        let ghost pre = out.deep_view();
        proof {
            assert(pre.len() == out@.len());
        }
        if keep {
            out.push(routes[i].clone());
            proof {
                assert(out.deep_view() =~= pre.push(routes.deep_view()[i as int]));
                assert(out.deep_view() =~= routes.deep_view().take(i + 1).filter(pred));
            }
        } else {
            proof {
                assert(out.deep_view() =~= routes.deep_view().take(i + 1).filter(pred));
            }
        }
        i += 1;
    }
    proof {
        assert(routes.deep_view().take(routes.deep_view().len() as int) =~= routes.deep_view());
    }
    out
}

impl AgentBackendDeveloper {
    /// The configuration this agent and a blackboard stand in.
    pub open spec fn config(&self, fact: FactSheetView) -> BackendConfig {
        BackendConfig {
            state: self.attributes.state,
            bug_count: self.bug_count,
            bug_errors: match self.bug_errors {
                Some(ref e) => Some(e@),
                None => None,
            },
            phase: self.phase@,
            fact,
        }
    }

    pub fn new() -> (r: Self)
        ensures
            r.attributes.state == AgentState::Discovery,
            r.bug_count == 0,
            r.bug_errors is None,
            r.phase@ == BackendPhaseView::ReadTemplate,
            r.attributes.objective@ == "Develops the backend code for web server and json database."@,
            r.attributes.position@ == "Backend Developer"@,
            r.attributes.memory@ == Seq::<crate::llm::Message>::empty(),
    {
        AgentBackendDeveloper {
            attributes: BasicAgent::new(
                String::from_str("Develops the backend code for web server and json database."),
                String::from_str("Backend Developer"),
            ),
            bug_errors: None,
            bug_count: 0,
            phase: BackendPhase::ReadTemplate,
        }
    }

    /// The agent's role label, for narration.
    pub fn get_agent_position(&mut self) -> (r: String)
        ensures
            r@ == old(self).attributes.position@,
            *final(self) == *old(self),
    {
        self.attributes.position.clone()
    }

    /// The confirmation gate's verdict, as a result: declining aborts
    /// the run.
    pub fn ensure_ai_safety(&self, confirmed: bool) -> (r: Result<(), AgentError>)
        ensures
            confirmed <==> r is Ok,
            !confirmed ==> r == Err::<(), AgentError>(AgentError::OperatorAbort),
    {
        if confirmed {
            Ok(())
        } else {
            Err(AgentError::OperatorAbort)
        }
    }

    /// Decode a self-described endpoint schema and keep only the routes
    /// worth probing: method GET and not dynamic (dynamic-path routes are
    /// skipped by design). Fails closed on malformed text.
    pub fn extract_and_test_rest_api_endpoints(&self, api_endpoints_str: &str) -> (r: Result<
        Vec<RouteObject>,
        AgentError,
    >)
        ensures
            match routes_views_of(api_endpoints_str@) {
                Some(routes) => r is Ok && r.unwrap().deep_view() == checkable_routes(routes),
                None => r == Err::<Vec<RouteObject>, AgentError>(AgentError::SchemaDecode),
            },
    {
        match parse_route_objects(api_endpoints_str) {
            Some(routes) => Ok(filter_checkable(&routes)),
            None => Err(AgentError::SchemaDecode),
        }
    }

    /// The outside action the backend developer needs next.
    pub fn next_action(&self, fact_sheet: &FactSheet) -> (r: Option<AgentAction>)
        ensures
            r is Some <==> backend_action(self.config(fact_sheet@)) is Some,
            r is Some ==> r.unwrap()@ == backend_action(self.config(fact_sheet@)).unwrap(),
    {
        match &self.phase {
            BackendPhase::ReadTemplate => Some(AgentAction::ReadCodeTemplate),
            BackendPhase::GenCode { task, context, .. } => Some(
                AgentAction::RequestText {
                    context: context.clone(),
                    ai_function: task.ai_function(),
                },
            ),
            BackendPhase::SavingCode { code, .. } => Some(
                AgentAction::SaveBackendCode { code: code.clone() },
            ),
            BackendPhase::AwaitGate => Some(AgentAction::AskConfirmation),
            BackendPhase::AwaitBuild => Some(AgentAction::BuildBackend),
            BackendPhase::ReadMain => Some(AgentAction::ReadMainFile),
            BackendPhase::GenSchema { context, .. } => Some(
                AgentAction::RequestText {
                    context: context.clone(),
                    ai_function: AiFunction::PrintRestApiEndpoints,
                },
            ),
            BackendPhase::Launching { .. } => Some(AgentAction::LaunchServer),
            BackendPhase::Probing { checks, index, .. } => if *index < checks.len() {
                Some(AgentAction::ProbeUrl { url: endpoint_url(&checks[*index].route) })
            } else {
                None
            },
            BackendPhase::Killing { .. } => Some(AgentAction::KillServer),
            BackendPhase::SavingSchema { json } => Some(
                AgentAction::SaveApiSchema { json: json.clone() },
            ),
            BackendPhase::Idle => None,
        }
    }

    /// Advance the machine by the outcome of the action it asked for.
    pub fn step(&mut self, fact_sheet: &mut FactSheet, event: AgentEvent) -> (r: Result<
        StepStatus,
        AgentError,
    >)
        ensures
            ({
                let (c2, res) = backend_step(old(self).config(old(fact_sheet)@), event@);
                &&& final(self).config(final(fact_sheet)@) == c2
                &&& r == res
            }),
            final(self).attributes.objective == old(self).attributes.objective,
            final(self).attributes.position == old(self).attributes.position,
            final(self).attributes.memory == old(self).attributes.memory,
    {
        let ghost c = old(self).config(old(fact_sheet)@);
        let mut phase = BackendPhase::Idle;
        core::mem::swap(&mut phase, &mut self.phase);
        match (phase, event) {
            (BackendPhase::ReadTemplate, AgentEvent::FileRead(template)) => {
                let context = initial_code_context(template.as_str(), &fact_sheet.project_description);
                self.phase = BackendPhase::GenCode {
                    task: CodeTask::Initial,
                    context,
                    retried: false,
                };
                proof {
                    assert(self.config(fact_sheet@) =~= backend_step(c, event@).0);
                }
                Ok(StepStatus::Running)
            },
            (BackendPhase::GenCode { task, context, retried }, AgentEvent::Text(outcome)) => match outcome {
                TextOutcome::Delivered(code) => {
                    self.phase = BackendPhase::SavingCode { task, code };
                    proof {
                        assert(self.config(fact_sheet@) =~= backend_step(c, event@).0);
                    }
                    Ok(StepStatus::Running)
                },
                TextOutcome::Failed => {
                    if !retried {
                        self.phase = BackendPhase::GenCode { task, context, retried: true };
                        proof {
                            assert(self.config(fact_sheet@) =~= backend_step(c, event@).0);
                        }
                        Ok(StepStatus::Running)
                    } else {
                        self.phase = BackendPhase::GenCode { task, context, retried };
                        proof {
                            assert(self.config(fact_sheet@) =~= c);
                        }
                        Err(AgentError::TransientService)
                    }
                },
            },
            (BackendPhase::SavingCode { task, code }, AgentEvent::Done) => {
                match task {
                    CodeTask::Initial => {
                        let context = improved_code_context(&code, &fact_sheet.project_description);
                        fact_sheet.backend_code = Some(code);
                        self.attributes.update_state(AgentState::Working);
                        self.phase = BackendPhase::GenCode {
                            task: CodeTask::Improved,
                            context,
                            retried: false,
                        };
                        proof {
                            assert(self.config(fact_sheet@) =~= backend_step(c, event@).0);
                        }
                        Ok(StepStatus::Running)
                    },
                    _ => {
                        fact_sheet.backend_code = Some(code);
                        self.attributes.update_state(AgentState::UnitTesting);
                        self.phase = BackendPhase::AwaitGate;
                        proof {
                            assert(self.config(fact_sheet@) =~= backend_step(c, event@).0);
                        }
                        Ok(StepStatus::Running)
                    },
                }
            },
            (BackendPhase::AwaitGate, AgentEvent::Confirmed(yes)) => {
                match self.ensure_ai_safety(yes) {
                    Ok(_) => {
                        self.phase = BackendPhase::AwaitBuild;
                        proof {
                            assert(self.config(fact_sheet@) =~= backend_step(c, event@).0);
                        }
                        Ok(StepStatus::Running)
                    },
                    Err(e) => {
                        self.phase = BackendPhase::AwaitGate;
                        proof {
                            assert(self.config(fact_sheet@) =~= c);
                        }
                        Err(e)
                    },
                }
            },
            (BackendPhase::AwaitBuild, AgentEvent::Built(outcome)) => match outcome {
                BuildOutcome::Success => {
                    self.bug_count = 0;
                    self.phase = BackendPhase::ReadMain;
                    proof {
                        assert(self.config(fact_sheet@) =~= backend_step(c, event@).0);
                    }
                    Ok(StepStatus::Running)
                },
                BuildOutcome::Failure(stderr) => {
                    if self.bug_count > 2 {
                        self.phase = BackendPhase::AwaitBuild;
                        proof {
                            assert(self.config(fact_sheet@) =~= c);
                        }
                        return Err(AgentError::TooManyBugs);
                    }
                    self.bug_count = self.bug_count + 1;
                    if self.bug_count > 2 {
                        self.bug_errors = Some(stderr);
                        self.phase = BackendPhase::AwaitBuild;
                        proof {
                            assert(self.config(fact_sheet@) =~= backend_step(c, event@).0);
                        }
                        Err(AgentError::TooManyBugs)
                    } else {
                        let code_now = match &fact_sheet.backend_code {
                            Some(code) => code.clone(),
                            None => String::new(),
                        };
                        let context = fix_code_context(&code_now, &stderr);
                        self.bug_errors = Some(stderr);
                        self.attributes.update_state(AgentState::Working);
                        self.phase = BackendPhase::GenCode {
                            task: CodeTask::Fix,
                            context,
                            retried: false,
                        };
                        proof {
                            assert(self.config(fact_sheet@) =~= backend_step(c, event@).0);
                        }
                        Ok(StepStatus::Running)
                    }
                },
            },
            (BackendPhase::ReadMain, AgentEvent::FileRead(code)) => {
                let context = schema_code_context(&code);
                self.phase = BackendPhase::GenSchema { context, retried: false };
                proof {
                    assert(self.config(fact_sheet@) =~= backend_step(c, event@).0);
                }
                Ok(StepStatus::Running)
            },
            (BackendPhase::GenSchema { context, retried }, AgentEvent::Text(outcome)) => match outcome {
                TextOutcome::Delivered(s) => match parse_route_objects(s.as_str()) {
                    Some(routes) => {
                        let checks = filter_checkable(&routes);
                        fact_sheet.api_endpoint_schema = Some(routes);
                        self.phase = BackendPhase::Launching { json: s, checks };
                        proof {
                            assert(self.config(fact_sheet@) =~= backend_step(c, event@).0);
                        }
                        Ok(StepStatus::Running)
                    },
                    None => {
                        self.phase = BackendPhase::GenSchema { context, retried };
                        proof {
                            assert(self.config(fact_sheet@) =~= c);
                        }
                        Err(AgentError::SchemaDecode)
                    },
                },
                TextOutcome::Failed => {
                    if !retried {
                        self.phase = BackendPhase::GenSchema { context, retried: true };
                        proof {
                            assert(self.config(fact_sheet@) =~= backend_step(c, event@).0);
                        }
                        Ok(StepStatus::Running)
                    } else {
                        self.phase = BackendPhase::GenSchema { context, retried };
                        proof {
                            assert(self.config(fact_sheet@) =~= c);
                        }
                        Err(AgentError::TransientService)
                    }
                },
            },
            (BackendPhase::Launching { json, checks }, AgentEvent::Done) => {
                if checks.len() == 0 {
                    self.phase = BackendPhase::Killing { json, checks, index: 0 };
                    proof {
                        assert(self.config(fact_sheet@) =~= backend_step(c, event@).0);
                    }
                    Ok(StepStatus::Running)
                } else {
                    self.phase = BackendPhase::Probing { json, checks, index: 0, killed: false };
                    proof {
                        assert(self.config(fact_sheet@) =~= backend_step(c, event@).0);
                    }
                    Ok(StepStatus::Running)
                }
            },
            (BackendPhase::Probing { json, checks, index, killed }, AgentEvent::Probe(outcome)) => {
                if index >= checks.len() {
                    self.phase = BackendPhase::Probing { json, checks, index, killed };
                    proof {
                        assert(self.config(fact_sheet@) =~= c);
                    }
                    return Err(AgentError::UnexpectedEvent);
                }
                let probe_failed = match outcome {
                    ProbeOutcome::Status(_) => false,
                    ProbeOutcome::Failed => true,
                };
                if probe_failed && !killed {
                    self.phase = BackendPhase::Killing { json, checks, index };
                    proof {
                        assert(self.config(fact_sheet@) =~= backend_step(c, event@).0);
                    }
                    Ok(StepStatus::Running)
                } else if index + 1 < checks.len() {
                    self.phase = BackendPhase::Probing { json, checks, index: index + 1, killed };
                    proof {
                        assert(self.config(fact_sheet@) =~= backend_step(c, event@).0);
                    }
                    Ok(StepStatus::Running)
                } else if !killed {
                    self.phase = BackendPhase::Killing { json, checks, index };
                    proof {
                        assert(self.config(fact_sheet@) =~= backend_step(c, event@).0);
                    }
                    Ok(StepStatus::Running)
                } else {
                    self.phase = BackendPhase::SavingSchema { json };
                    proof {
                        assert(self.config(fact_sheet@) =~= backend_step(c, event@).0);
                    }
                    Ok(StepStatus::Running)
                }
            },
            (BackendPhase::Killing { json, checks, index }, AgentEvent::Done) => {
                let advance = checks.len() > 0 && index < checks.len() - 1;
                if advance {
                    self.phase = BackendPhase::Probing {
                        json,
                        checks,
                        index: index + 1,
                        killed: true,
                    };
                    proof {
                        assert(self.config(fact_sheet@) =~= backend_step(c, event@).0);
                    }
                    Ok(StepStatus::Running)
                } else {
                    self.phase = BackendPhase::SavingSchema { json };
                    proof {
                        assert(self.config(fact_sheet@) =~= backend_step(c, event@).0);
                    }
                    Ok(StepStatus::Running)
                }
            },
            (BackendPhase::SavingSchema { json }, AgentEvent::Done) => {
                self.phase = BackendPhase::Idle;
                self.attributes.update_state(AgentState::Finished);
                proof {
                    assert(self.config(fact_sheet@) =~= backend_step(c, event@).0);
                }
                Ok(StepStatus::Finished)
            },
            (other_phase, _) => {
                self.phase = other_phase;
                proof {
                    assert(self.config(fact_sheet@) =~= c);
                }
                Err(AgentError::UnexpectedEvent)
            },
        }
    }

    /// Run the agent to completion over a finite feed of scripted outcomes.
    #[verifier::loop_isolation(false)]
    pub fn execute(&mut self, fact_sheet: &mut FactSheet, feed: &mut EventFeed) -> (r: Result<
        (),
        AgentError,
    >)
        ensures
            final(self).config(final(fact_sheet)@) == backend_run(
                old(self).config(old(fact_sheet)@),
                old(feed).remaining(),
            ).0,
            r == backend_run(old(self).config(old(fact_sheet)@), old(feed).remaining()).1,
            final(feed).remaining() == old(feed).remaining().skip(
                backend_run(old(self).config(old(fact_sheet)@), old(feed).remaining()).2,
            ),
    {
        let ghost c0 = self.config(fact_sheet@);
        let ghost evs0 = feed.remaining();
        loop
            invariant
                backend_run(c0, evs0).0 == backend_run(self.config(fact_sheet@), feed.remaining()).0,
                backend_run(c0, evs0).1 == backend_run(self.config(fact_sheet@), feed.remaining()).1,
                backend_run(c0, evs0).2 == evs0.len() - feed.remaining().len() + backend_run(
                    self.config(fact_sheet@),
                    feed.remaining(),
                ).2,
                feed.remaining().len() <= evs0.len(),
                evs0.skip(evs0.len() - feed.remaining().len()) == feed.remaining(),
            decreases feed.remaining().len(),
        {
            let ghost cur = self.config(fact_sheet@);
            let ghost rem = feed.remaining();
            let state_now = self.attributes.state;
            if state_now == AgentState::Finished {
                proof {
                    assert(backend_run(cur, rem) == (cur, Ok::<(), AgentError>(()), 0int));
                }
                return Ok(());
            }
            let is_idle = match &self.phase {
                BackendPhase::Idle => true,
                _ => false,
            };
            if is_idle {
                self.attributes.update_state(AgentState::Finished);
                proof {
                    assert(backend_run(cur, rem).0 =~= self.config(fact_sheet@));
                }
                return Ok(());
            }
            let ev = match feed.next() {
                Some(ev) => ev,
                None => {
                    proof {
                        assert(rem.len() == 0);
                        assert(backend_run(cur, rem) == (cur, Err::<(), AgentError>(
                            AgentError::EventsExhausted,
                        ), 0int));
                    }
                    return Err(AgentError::EventsExhausted);
                },
            };
            proof {
                assert(ev@ == rem[0]);
                assert(feed.remaining() == rem.drop_first());
                assert(evs0.skip(evs0.len() - rem.drop_first().len()) =~= rem.drop_first());
            }
            match self.step(fact_sheet, ev) {
                Ok(_) => {
                    proof {
                        assert(backend_run(cur, rem).0 == backend_run(
                            self.config(fact_sheet@),
                            feed.remaining(),
                        ).0);
                    }
                },
                Err(e) => {
                    proof {
                        assert(backend_run(cur, rem).1 == Err::<(), AgentError>(e));
                        assert(backend_run(cur, rem).0 == self.config(fact_sheet@));
                        assert(backend_run(cur, rem).2 == 1int);
                    }
                    return Err(e);
                },
            }
        }
    }
}

impl crate::agent_trait::SpecialFunctions for AgentBackendDeveloper {
    fn get_agent_position(&mut self) -> (r: String)
        ensures
            r@ == old(self).attributes.position@,
            *final(self) == *old(self),
    {
        AgentBackendDeveloper::get_agent_position(self)
    }

    fn execute(&mut self, fact_sheet: &mut FactSheet, feed: &mut EventFeed) -> (r: Result<
        (),
        AgentError,
    >)
        ensures
            final(self).config(final(fact_sheet)@) == backend_run(
                old(self).config(old(fact_sheet)@),
                old(feed).remaining(),
            ).0,
            r == backend_run(old(self).config(old(fact_sheet)@), old(feed).remaining()).1,
    {
        AgentBackendDeveloper::execute(self, fact_sheet, feed)
    }
}

} // verus!
