//! The Managing Agent: converts the raw user request into a project
//! description with one generative call, then runs the concrete agents
//! strictly in sequence over the shared fact sheet.
//!
//! The agent set is fixed and closed: Solutions Architect, then Backend
//! Developer. Any agent error aborts the entire run; there is no
//! partial-result recovery.

use vstd::prelude::*;
use crate::agent_architect::{arch_action, arch_step, AgentSolutionArchitect, ArchConfig, ArchPhaseView};
use crate::agent_backend::{backend_action, backend_step, AgentBackendDeveloper, BackendConfig, BackendPhaseView};
use crate::agent_trait::{FactSheet, FactSheetView};
use crate::basic_agent::{AgentState, BasicAgent, BasicTraits};
use crate::errors::AgentError;
use crate::events::{
    AgentAction,
    AgentActionView,
    AgentEvent,
    AgentEventView,
    AiFunction,
    EventFeed,
    StepStatus,
    TextOutcome,
    TextOutcomeView,
};

verus! {

/// Which stage of the fixed pipeline the manager is in.
#[derive(Debug)]
pub enum ManagerStage {
    /// Awaiting the project description derived from the user request.
    Describing { context: String, retried: bool },
    /// The Solutions Architect holds the floor.
    RunArchitect(AgentSolutionArchitect),
    /// The Backend Developer holds the floor.
    RunBackend(AgentBackendDeveloper),
    /// Every agent has finished.
    Done,
}

#[verifier::ext_equal]
pub enum ManagerStageView {
    Describing { context: Seq<char>, retried: bool },
    /// The architect's state and phase.
    RunArchitect { state: AgentState, phase: ArchPhaseView },
    /// The backend developer's state, bug bookkeeping, and phase.
    RunBackend {
        state: AgentState,
        bug_count: u8,
        bug_errors: Option<Seq<char>>,
        phase: BackendPhaseView,
    },
    Done,
}

impl View for ManagerStage {
    type V = ManagerStageView;

    open spec fn view(&self) -> ManagerStageView {
        match self {
            ManagerStage::Describing { context, retried } => (ManagerStageView::Describing {
                context: context@,
                retried: *retried,
            }),
            ManagerStage::RunArchitect(a) => (ManagerStageView::RunArchitect {
                state: a.attributes.state,
                phase: a.phase@,
            }),
            ManagerStage::RunBackend(b) => (ManagerStageView::RunBackend {
                state: b.attributes.state,
                bug_count: b.bug_count,
                bug_errors: match b.bug_errors {
                    Some(ref e) => Some(e@),
                    None => None,
                },
                phase: b.phase@,
            }),
            ManagerStage::Done => ManagerStageView::Done,
        }
    }
}

/// Everything the manager's transition relation reads and writes.
#[verifier::ext_equal]
pub struct ManagerConfig {
    pub stage: ManagerStageView,
    pub fact: FactSheetView,
}

/// A freshly created architect, as the manager spawns it.
pub open spec fn fresh_architect_stage() -> ManagerStageView {
    ManagerStageView::RunArchitect {
        state: AgentState::Discovery,
        phase: ArchPhaseView::ScopeRequest { retried: false },
    }
}

/// A freshly created backend developer, as the manager spawns it.
pub open spec fn fresh_backend_stage() -> ManagerStageView {
    ManagerStageView::RunBackend {
        state: AgentState::Discovery,
        bug_count: 0,
        bug_errors: None,
        phase: BackendPhaseView::ReadTemplate,
    }
}

/// The manager's transition relation: the description call is its own;
/// afterwards each event is delegated to the agent holding the floor, and
/// the floor passes on when that agent finishes.
pub open spec fn manager_step(c: ManagerConfig, ev: AgentEventView) -> (ManagerConfig, Result<
    StepStatus,
    AgentError,
>) {
    match c.stage {
        ManagerStageView::Describing { context, retried } => match ev {
            AgentEventView::Text(TextOutcomeView::Delivered(s)) => (
                ManagerConfig {
                    stage: fresh_architect_stage(),
                    fact: FactSheetView {
                        project_description: s,
                        project_scope: None,
                        external_urls: None,
                        backend_code: None,
                        api_endpoint_schema: None,
                    },
                },
                Ok(StepStatus::Running),
            ),
            AgentEventView::Text(TextOutcomeView::Failed) => {
                if !retried {
                    (
                        ManagerConfig {
                            stage: ManagerStageView::Describing { context, retried: true },
                            ..c
                        },
                        Ok(StepStatus::Running),
                    )
                } else {
                    (c, Err(AgentError::TransientService))
                }
            },
            _ => (c, Err(AgentError::UnexpectedEvent)),
        },
        ManagerStageView::RunArchitect { state, phase } => {
            let (ac2, res) = arch_step(ArchConfig { state, phase, fact: c.fact }, ev);
            let c2 = ManagerConfig {
                stage: ManagerStageView::RunArchitect { state: ac2.state, phase: ac2.phase },
                fact: ac2.fact,
            };
            match res {
                Err(e) => (c2, Err(e)),
                Ok(StepStatus::Finished) => (
                    ManagerConfig { stage: fresh_backend_stage(), ..c2 },
                    Ok(StepStatus::Running),
                ),
                Ok(StepStatus::Running) => (c2, Ok(StepStatus::Running)),
            }
        },
        ManagerStageView::RunBackend { state, bug_count, bug_errors, phase } => {
            let (bc2, res) = backend_step(
                BackendConfig { state, bug_count, bug_errors, phase, fact: c.fact },
                ev,
            );
            let c2 = ManagerConfig {
                stage: ManagerStageView::RunBackend {
                    state: bc2.state,
                    bug_count: bc2.bug_count,
                    bug_errors: bc2.bug_errors,
                    phase: bc2.phase,
                },
                fact: bc2.fact,
            };
            match res {
                Err(e) => (c2, Err(e)),
                Ok(StepStatus::Finished) => (
                    ManagerConfig { stage: ManagerStageView::Done, ..c2 },
                    Ok(StepStatus::Finished),
                ),
                Ok(StepStatus::Running) => (c2, Ok(StepStatus::Running)),
            }
        },
        ManagerStageView::Done => (c, Err(AgentError::UnexpectedEvent)),
    }
}

/// The outside action the manager needs next.
pub open spec fn manager_action(c: ManagerConfig) -> Option<AgentActionView> {
    match c.stage {
        ManagerStageView::Describing { context, .. } => Some(
            AgentActionView::RequestText {
                context,
                ai_function: AiFunction::ConvertUserInputToGoal,
            },
        ),
        ManagerStageView::RunArchitect { state, phase } => arch_action(
            ArchConfig { state, phase, fact: c.fact },
        ),
        ManagerStageView::RunBackend { state, bug_count, bug_errors, phase } => backend_action(
            BackendConfig { state, bug_count, bug_errors, phase, fact: c.fact },
        ),
        ManagerStageView::Done => None,
    }
}

/// One whole pipeline run over a finite feed of outcomes.
pub open spec fn manager_run(c: ManagerConfig, evs: Seq<AgentEventView>) -> (ManagerConfig, Result<
    (),
    AgentError,
>, int)
    decreases evs.len(),
{
    if c.stage is Done {
        (c, Ok(()), 0)
    } else if evs.len() == 0 {
        (c, Err(AgentError::EventsExhausted), 0)
    } else {
        let (c2, res) = manager_step(c, evs[0]);
        match res {
            Err(e) => (c2, Err(e), 1),
            Ok(StepStatus::Finished) => (c2, Ok(()), 1),
            Ok(StepStatus::Running) => {
                let (c3, r3, n3) = manager_run(c2, evs.drop_first());
                (c3, r3, 1 + n3)
            },
        }
    }
}

/// The Managing Agent, owner of the shared fact sheet.
#[derive(Debug)]
pub struct ManagingAgent {
    pub attributes: BasicAgent,
    pub fact_sheet: FactSheet,
    pub stage: ManagerStage,
}

impl ManagingAgent {
    /// The configuration this manager stands in.
    pub open spec fn config(&self) -> ManagerConfig {
        ManagerConfig { stage: self.stage@, fact: self.fact_sheet@ }
    }

    /// A manager ready to derive the project description from the raw user
    /// request.
    pub fn new(user_request: String) -> (r: Self)
        ensures
            r.config() == (ManagerConfig {
                stage: ManagerStageView::Describing { context: user_request@, retried: false },
                fact: FactSheetView {
                    project_description: ""@,
                    project_scope: None,
                    external_urls: None,
                    backend_code: None,
                    api_endpoint_schema: None,
                },
            }),
            r.attributes.state == AgentState::Discovery,
            r.attributes.objective@ == "Manage agents who are building an excellent website for a user."@,
            r.attributes.position@ == "Project Manager"@,
    {
        let ghost u = user_request@;
        let r = ManagingAgent {
            attributes: BasicAgent::new(
                String::from_str("Manage agents who are building an excellent website for a user."),
                String::from_str("Project Manager"),
            ),
            fact_sheet: FactSheet::with_description(String::new()),
            stage: ManagerStage::Describing { context: user_request, retried: false },
        };
        proof {
            reveal_strlit("");
            assert(r.config() =~= (ManagerConfig {
                stage: ManagerStageView::Describing { context: u, retried: false },
                fact: FactSheetView {
                    project_description: ""@,
                    project_scope: None,
                    external_urls: None,
                    backend_code: None,
                    api_endpoint_schema: None,
                },
            }));
        }
        r
    }

    /// The outside action the pipeline needs next.
    pub fn next_action(&self) -> (r: Option<AgentAction>)
        ensures
            r is Some <==> manager_action(self.config()) is Some,
            r is Some ==> r.unwrap()@ == manager_action(self.config()).unwrap(),
    {
        match &self.stage {
            ManagerStage::Describing { context, .. } => Some(
                AgentAction::RequestText {
                    context: context.clone(),
                    ai_function: AiFunction::ConvertUserInputToGoal,
                },
            ),
            ManagerStage::RunArchitect(a) => a.next_action(&self.fact_sheet),
            ManagerStage::RunBackend(b) => b.next_action(&self.fact_sheet),
            ManagerStage::Done => None,
        }
    }

    /// Advance the pipeline by the outcome of the action it asked for.
    pub fn step(&mut self, event: AgentEvent) -> (r: Result<StepStatus, AgentError>)
        ensures
            ({
                let (c2, res) = manager_step(old(self).config(), event@);
                &&& final(self).config() == c2
                &&& r == res
            }),
    {
        let ghost c = old(self).config();
        let mut stage = ManagerStage::Done;
        core::mem::swap(&mut stage, &mut self.stage);
        match (stage, event) {
            (ManagerStage::Describing { context, retried }, AgentEvent::Text(outcome)) => match outcome {
                TextOutcome::Delivered(s) => {
                    self.fact_sheet = FactSheet::with_description(s);
                    self.stage = ManagerStage::RunArchitect(AgentSolutionArchitect::new());
                    proof {
                        assert(self.config() =~= manager_step(c, event@).0);
                    }
                    Ok(StepStatus::Running)
                },
                TextOutcome::Failed => {
                    if !retried {
                        self.stage = ManagerStage::Describing { context, retried: true };
                        proof {
                            assert(self.config() =~= manager_step(c, event@).0);
                        }
                        Ok(StepStatus::Running)
                    } else {
                        self.stage = ManagerStage::Describing { context, retried };
                        proof {
                            assert(self.config() =~= c);
                        }
                        Err(AgentError::TransientService)
                    }
                },
            },
            (ManagerStage::Describing { context, retried }, _) => {
                self.stage = ManagerStage::Describing { context, retried };
                proof {
                    assert(self.config() =~= c);
                }
                Err(AgentError::UnexpectedEvent)
            },
            (ManagerStage::RunArchitect(mut a), ev) => {
                let res = a.step(&mut self.fact_sheet, ev);
                match res {
                    Err(e) => {
                        self.stage = ManagerStage::RunArchitect(a);
                        proof {
                            assert(self.config() =~= manager_step(c, event@).0);
                        }
                        Err(e)
                    },
                    Ok(StepStatus::Finished) => {
                        self.stage = ManagerStage::RunBackend(AgentBackendDeveloper::new());
                        proof {
                            assert(self.config() =~= manager_step(c, event@).0);
                        }
                        Ok(StepStatus::Running)
                    },
                    Ok(StepStatus::Running) => {
                        self.stage = ManagerStage::RunArchitect(a);
                        proof {
                            assert(self.config() =~= manager_step(c, event@).0);
                        }
                        Ok(StepStatus::Running)
                    },
                }
            },
            (ManagerStage::RunBackend(mut b), ev) => {
                let res = b.step(&mut self.fact_sheet, ev);
                match res {
                    Err(e) => {
                        self.stage = ManagerStage::RunBackend(b);
                        proof {
                            assert(self.config() =~= manager_step(c, event@).0);
                        }
                        Err(e)
                    },
                    Ok(StepStatus::Finished) => {
                        self.stage = ManagerStage::Done;
                        proof {
                            assert(self.config() =~= manager_step(c, event@).0);
                        }
                        Ok(StepStatus::Finished)
                    },
                    Ok(StepStatus::Running) => {
                        self.stage = ManagerStage::RunBackend(b);
                        proof {
                            assert(self.config() =~= manager_step(c, event@).0);
                        }
                        Ok(StepStatus::Running)
                    },
                }
            },
            (ManagerStage::Done, _) => {
                self.stage = ManagerStage::Done;
                proof {
                    assert(self.config() =~= c);
                }
                Err(AgentError::UnexpectedEvent)
            },
        }
    }

    /// Run the whole pipeline to completion over a finite feed of scripted
    /// outcomes: the description call, then each agent's `execute` in turn.
    #[verifier::loop_isolation(false)]
    pub fn execute_project(&mut self, feed: &mut EventFeed) -> (r: Result<(), AgentError>)
        ensures
            final(self).config() == manager_run(old(self).config(), old(feed).remaining()).0,
            r == manager_run(old(self).config(), old(feed).remaining()).1,
            final(feed).remaining() == old(feed).remaining().skip(
                manager_run(old(self).config(), old(feed).remaining()).2,
            ),
    {
        let ghost c0 = self.config();
        let ghost evs0 = feed.remaining();
        loop
            invariant
                manager_run(c0, evs0).0 == manager_run(self.config(), feed.remaining()).0,
                manager_run(c0, evs0).1 == manager_run(self.config(), feed.remaining()).1,
                manager_run(c0, evs0).2 == evs0.len() - feed.remaining().len() + manager_run(
                    self.config(),
                    feed.remaining(),
                ).2,
                feed.remaining().len() <= evs0.len(),
                evs0.skip(evs0.len() - feed.remaining().len()) == feed.remaining(),
            decreases feed.remaining().len(),
        {
            let ghost cur = self.config();
            let ghost rem = feed.remaining();
            let is_done = match &self.stage {
                ManagerStage::Done => true,
                _ => false,
            };
            if is_done {
                proof {
                    assert(manager_run(cur, rem) == (cur, Ok::<(), AgentError>(()), 0int));
                }
                return Ok(());
            }
            let ev = match feed.next() {
                Some(ev) => ev,
                None => {
                    proof {
                        assert(rem.len() == 0);
                        assert(manager_run(cur, rem) == (cur, Err::<(), AgentError>(
                            AgentError::EventsExhausted,
                        ), 0int));
                    }
                    return Err(AgentError::EventsExhausted);
                },
            };
            proof {
                assert(ev@ == rem[0]);
                assert(feed.remaining() == rem.drop_first());
                assert(evs0.skip(evs0.len() - rem.drop_first().len()) =~= rem.drop_first());
            }
            match self.step(ev) {
                Ok(StepStatus::Running) => {
                    proof {
                        assert(manager_run(cur, rem).0 == manager_run(
                            self.config(),
                            feed.remaining(),
                        ).0);
                    }
                },
                Ok(StepStatus::Finished) => {
                    proof {
                        assert(manager_run(cur, rem).0 == self.config());
                        assert(manager_run(cur, rem).1 == Ok::<(), AgentError>(()));
                        assert(manager_run(cur, rem).2 == 1int);
                    }
                    return Ok(());
                },
                Err(e) => {
                    proof {
                        assert(manager_run(cur, rem).1 == Err::<(), AgentError>(e));
                        assert(manager_run(cur, rem).0 == self.config());
                        assert(manager_run(cur, rem).2 == 1int);
                    }
                    return Err(e);
                },
            }
        }
    }
}

} // verus!
