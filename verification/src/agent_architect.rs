//! The Solutions Architect: derives the project scope from the description
//! and validates candidate external URL dependencies.
//!
//! Lifecycle: Discovery (one decoded scope request, then — only when
//! external URLs are required — one decoded URL-list request), UnitTesting
//! (one timeout-bounded probe per candidate URL, then exclusion of every
//! URL that answered with a status other than 200), Finished. The target
//! state after the scope decode is computed once, before any mutation.

use vstd::prelude::*;
use crate::agent_trait::{FactSheet, FactSheetView, ProjectScope};
use crate::basic_agent::{AgentState, BasicAgent, BasicTraits};
use crate::decode::{parse_project_scope, parse_string_list, scope_decode_of, string_list_decode_of};
use crate::errors::AgentError;
use crate::events::{
    AgentAction,
    AgentActionView,
    AgentEvent,
    AgentEventView,
    AiFunction,
    EventFeed,
    ProbeOutcome,
    StepStatus,
    TextOutcome,
    TextOutcomeView,
};

verus! {

/// Where the architect stands between two outside actions.
#[derive(Debug)]
pub enum ArchPhase {
    /// Awaiting the outcome of a scope request; `retried` says whether the
    /// single permitted retry is already spent.
    ScopeRequest { retried: bool },
    /// Awaiting the outcome of a candidate-URL request.
    UrlsRequest { retried: bool },
    /// Awaiting the probe outcome for the URL at `index`; `excluded` holds
    /// the URLs that already failed their probe.
    Probing { index: usize, excluded: Vec<String> },
    /// No handler applies any more.
    Idle,
}

#[verifier::ext_equal]
pub enum ArchPhaseView {
    ScopeRequest { retried: bool },
    UrlsRequest { retried: bool },
    Probing { index: int, excluded: Seq<Seq<char>> },
    Idle,
}

impl View for ArchPhase {
    type V = ArchPhaseView;

    open spec fn view(&self) -> ArchPhaseView {
        match self {
            ArchPhase::ScopeRequest { retried } => (ArchPhaseView::ScopeRequest {
                retried: *retried,
            }),
            ArchPhase::UrlsRequest { retried } => (ArchPhaseView::UrlsRequest {
                retried: *retried,
            }),
            ArchPhase::Probing { index, excluded } => (ArchPhaseView::Probing {
                index: *index as int,
                excluded: excluded.deep_view(),
            }),
            ArchPhase::Idle => ArchPhaseView::Idle,
        }
    }
}

/// Everything the architect's transition relation reads and writes: its
/// lifecycle state, its phase, and the blackboard.
#[verifier::ext_equal]
pub struct ArchConfig {
    pub state: AgentState,
    pub phase: ArchPhaseView,
    pub fact: FactSheetView,
}

/// The URL list with every excluded URL removed: order preserved, nothing
/// added.
pub open spec fn kept_urls(urls: Seq<Seq<char>>, excluded: Seq<Seq<char>>) -> Seq<Seq<char>> {
    urls.filter(|u: Seq<char>| !excluded.contains(u))
}

/// The architect's transition relation: one consumed event, the successor
/// configuration, and whether the agent still runs. Total: an event of a
/// kind the current phase did not ask for changes nothing and is an error.
pub open spec fn arch_step(c: ArchConfig, ev: AgentEventView) -> (ArchConfig, Result<
    StepStatus,
    AgentError,
>) {
    match (c.phase, ev) {
        (ArchPhaseView::ScopeRequest { retried }, AgentEventView::Text(outcome)) => match outcome {
            TextOutcomeView::Delivered(s) => match scope_decode_of(s) {
                Some(t) => {
                    let scope = ProjectScope {
                        is_crud_required: t.0,
                        is_user_login_and_logout: t.1,
                        is_external_urls_required: t.2,
                    };
                    let fact2 = FactSheetView { project_scope: Some(scope), ..c.fact };
                    if t.2 {
                        (
                            ArchConfig {
                                state: c.state,
                                phase: ArchPhaseView::UrlsRequest { retried: false },
                                fact: fact2,
                            },
                            Ok(StepStatus::Running),
                        )
                    } else {
                        (
                            ArchConfig {
                                state: AgentState::Finished,
                                phase: ArchPhaseView::Idle,
                                fact: fact2,
                            },
                            Ok(StepStatus::Finished),
                        )
                    }
                },
                None => (c, Err(AgentError::SchemaDecode)),
            },
            TextOutcomeView::Failed => {
                if !retried {
                    (
                        ArchConfig {
                            phase: ArchPhaseView::ScopeRequest { retried: true },
                            ..c
                        },
                        Ok(StepStatus::Running),
                    )
                } else {
                    (c, Err(AgentError::TransientService))
                }
            },
        },
        (ArchPhaseView::UrlsRequest { retried }, AgentEventView::Text(outcome)) => match outcome {
            TextOutcomeView::Delivered(s) => match string_list_decode_of(s) {
                Some(urls) => {
                    let fact2 = FactSheetView { external_urls: Some(urls), ..c.fact };
                    if urls.len() == 0 {
                        (
                            ArchConfig {
                                state: AgentState::Finished,
                                phase: ArchPhaseView::Idle,
                                fact: fact2,
                            },
                            Ok(StepStatus::Finished),
                        )
                    } else {
                        (
                            ArchConfig {
                                state: AgentState::UnitTesting,
                                phase: ArchPhaseView::Probing { index: 0, excluded: Seq::empty() },
                                fact: fact2,
                            },
                            Ok(StepStatus::Running),
                        )
                    }
                },
                None => (c, Err(AgentError::SchemaDecode)),
            },
            TextOutcomeView::Failed => {
                if !retried {
                    (
                        ArchConfig { phase: ArchPhaseView::UrlsRequest { retried: true }, ..c },
                        Ok(StepStatus::Running),
                    )
                } else {
                    (c, Err(AgentError::TransientService))
                }
            },
        },
        (ArchPhaseView::Probing { index, excluded }, AgentEventView::Probe(outcome)) => match c
            .fact.external_urls {
            Some(urls) => {
                if 0 <= index < urls.len() {
                    let excluded2 = match outcome {
                        ProbeOutcome::Status(code) => if code != 200 {
                            excluded.push(urls[index])
                        } else {
                            excluded
                        },
                        ProbeOutcome::Failed => excluded,
                    };
                    if index + 1 < urls.len() {
                        (
                            ArchConfig {
                                phase: ArchPhaseView::Probing { index: index + 1, excluded: excluded2 },
                                ..c
                            },
                            Ok(StepStatus::Running),
                        )
                    } else {
                        (
                            ArchConfig {
                                state: AgentState::Finished,
                                phase: ArchPhaseView::Idle,
                                fact: FactSheetView {
                                    external_urls: Some(kept_urls(urls, excluded2)),
                                    ..c.fact
                                },
                            },
                            Ok(StepStatus::Finished),
                        )
                    }
                } else {
                    (c, Err(AgentError::UnexpectedEvent))
                }
            },
            None => (c, Err(AgentError::UnexpectedEvent)),
        },
        _ => (c, Err(AgentError::UnexpectedEvent)),
    }
}

/// The outside action the architect asks for in a configuration, if any.
pub open spec fn arch_action(c: ArchConfig) -> Option<AgentActionView> {
    match c.phase {
        ArchPhaseView::ScopeRequest { .. } => Some(
            AgentActionView::RequestText {
                context: c.fact.project_description,
                ai_function: AiFunction::PrintProjectScope,
            },
        ),
        ArchPhaseView::UrlsRequest { .. } => Some(
            AgentActionView::RequestText {
                context: c.fact.project_description,
                ai_function: AiFunction::PrintSiteUrls,
            },
        ),
        ArchPhaseView::Probing { index, .. } => match c.fact.external_urls {
            Some(urls) => if 0 <= index < urls.len() {
                Some(AgentActionView::ProbeUrl { url: urls[index] })
            } else {
                None
            },
            None => None,
        },
        ArchPhaseView::Idle => None,
    }
}

/// One whole architect run over a finite feed of outcomes: the final
/// configuration, the verdict, and how many events were consumed.
/// A configuration whose phase awaits nothing but whose state is not
/// `Finished` is defensively forced to `Finished` — the loop's guard
/// against unrecognised states, which would otherwise spin forever.
pub open spec fn arch_run(c: ArchConfig, evs: Seq<AgentEventView>) -> (ArchConfig, Result<
    (),
    AgentError,
>, int)
    decreases evs.len(),
{
    if c.state == AgentState::Finished {
        (c, Ok(()), 0)
    } else if c.phase is Idle {
        (ArchConfig { state: AgentState::Finished, ..c }, Ok(()), 0)
    } else if evs.len() == 0 {
        (c, Err(AgentError::EventsExhausted), 0)
    } else {
        let (c2, res) = arch_step(c, evs[0]);
        match res {
            Err(e) => (c2, Err(e), 1),
            Ok(_) => {
                let (c3, r3, n3) = arch_run(c2, evs.drop_first());
                (c3, r3, 1 + n3)
            },
        }
    }
}

/// The Solutions Architect agent.
#[derive(Debug)]
pub struct AgentSolutionArchitect {
    pub attributes: BasicAgent,
    pub phase: ArchPhase,
}

/// Membership test over string views.
fn contains_string(v: &Vec<String>, s: &String) -> (r: bool)
    ensures
        r == v.deep_view().contains(s@),
{
    let mut i: usize = 0;
    while i < v.len()
        invariant
            i <= v.len(),
            forall|j: int| 0 <= j < i ==> v.deep_view()[j] != s@,
        decreases v.len() - i,
    {
        proof {
            assert(v.deep_view()[i as int] == v@[i as int]@);
        }
        if v[i].eq(s) {
            proof {
                assert(v.deep_view()[i as int] == s@);
            }
            return true;
        }
        i += 1;
    }
    proof {
        assert(!v.deep_view().contains(s@));
    }
    false
}

/// The URL list with every excluded URL removed, executably.
fn retain_not_excluded(urls: &Vec<String>, excluded: &Vec<String>) -> (r: Vec<String>)
    ensures
        r.deep_view() == kept_urls(urls.deep_view(), excluded.deep_view()),
{
    let ghost pred = |u: Seq<char>| !excluded.deep_view().contains(u);
    let mut out: Vec<String> = Vec::new();
    let mut i: usize = 0;
    while i < urls.len()
        invariant
            i <= urls.len(),
            out.deep_view() == urls.deep_view().take(i as int).filter(pred),
            pred == (|u: Seq<char>| !excluded.deep_view().contains(u)),
        decreases urls.len() - i,
    {
        let ghost prefix = urls.deep_view().take(i as int);
        proof {
            assert(urls.deep_view().take(i + 1).drop_last() =~= prefix);
            assert(urls.deep_view().take(i + 1).last() == urls.deep_view()[i as int]);
            reveal(Seq::filter);
        }
        let keep = !contains_string(excluded, &urls[i]);
        let ghost pre = out.deep_view();
        if keep {
            out.push(urls[i].clone());
            proof {
                assert(out.deep_view() =~= pre.push(urls.deep_view()[i as int]));
                assert(out.deep_view() =~= urls.deep_view().take(i + 1).filter(pred));
            }
        } else {
            proof {
                assert(out.deep_view() =~= urls.deep_view().take(i + 1).filter(pred));
            }
        }
        i += 1;
    }
    proof {
        assert(urls.deep_view().take(urls.deep_view().len() as int) =~= urls.deep_view());
    }
    out
}

impl AgentSolutionArchitect {
    /// The configuration this agent and a blackboard stand in.
    pub open spec fn config(&self, fact: FactSheetView) -> ArchConfig {
        ArchConfig { state: self.attributes.state, phase: self.phase@, fact }
    }

    pub fn new() -> (r: Self)
        ensures
            r.attributes.state == AgentState::Discovery,
            r.phase@ == (ArchPhaseView::ScopeRequest { retried: false }),
            r.attributes.objective@ == "Gathers information and design solution for website development."@,
            r.attributes.position@ == "Solutions Architect"@,
            r.attributes.memory@ == Seq::<crate::llm::Message>::empty(),
    {
        AgentSolutionArchitect {
            attributes: BasicAgent::new(
                String::from_str("Gathers information and design solution for website development."),
                String::from_str("Solutions Architect"),
            ),
            phase: ArchPhase::ScopeRequest { retried: false },
        }
    }

    /// The agent's role label, for narration.
    pub fn get_agent_position(&mut self) -> (r: String)
        ensures
            r@ == old(self).attributes.position@,
            *final(self) == *old(self),
    {
        self.attributes.position.clone()
    }

    /// The outside action the architect needs next; `None` once nothing is
    /// awaited.
    pub fn next_action(&self, fact_sheet: &FactSheet) -> (r: Option<AgentAction>)
        ensures
            r is Some <==> arch_action(self.config(fact_sheet@)) is Some,
            r is Some ==> r.unwrap()@ == arch_action(self.config(fact_sheet@)).unwrap(),
    {
        match &self.phase {
            ArchPhase::ScopeRequest { .. } => Some(
                AgentAction::RequestText {
                    context: fact_sheet.project_description.clone(),
                    ai_function: AiFunction::PrintProjectScope,
                },
            ),
            ArchPhase::UrlsRequest { .. } => Some(
                AgentAction::RequestText {
                    context: fact_sheet.project_description.clone(),
                    ai_function: AiFunction::PrintSiteUrls,
                },
            ),
            ArchPhase::Probing { index, .. } => match &fact_sheet.external_urls {
                Some(urls) => if *index < urls.len() {
                    Some(AgentAction::ProbeUrl { url: urls[*index].clone() })
                } else {
                    None
                },
                None => None,
            },
            ArchPhase::Idle => None,
        }
    }

    /// Advance the machine by the outcome of the action it asked for.
    pub fn step(&mut self, fact_sheet: &mut FactSheet, event: AgentEvent) -> (r: Result<
        StepStatus,
        AgentError,
    >)
        ensures
            ({
                let (c2, res) = arch_step(old(self).config(old(fact_sheet)@), event@);
                &&& final(self).config(final(fact_sheet)@) == c2
                &&& r == res
            }),
            final(self).attributes.objective == old(self).attributes.objective,
            final(self).attributes.position == old(self).attributes.position,
            final(self).attributes.memory == old(self).attributes.memory,
    {
        let ghost c = old(self).config(old(fact_sheet)@);
        let mut phase = ArchPhase::Idle;
        core::mem::swap(&mut phase, &mut self.phase);
        match (phase, event) {
            (ArchPhase::ScopeRequest { retried }, AgentEvent::Text(outcome)) => match outcome {
                TextOutcome::Delivered(s) => match parse_project_scope(s.as_str()) {
                    Some(scope) => {
                        fact_sheet.project_scope = Some(scope);
                        if scope.is_external_urls_required {
                            self.phase = ArchPhase::UrlsRequest { retried: false };
                            proof {
                                assert(self.config(fact_sheet@) =~= arch_step(c, event@).0);
                            }
                            Ok(StepStatus::Running)
                        } else {
                            self.phase = ArchPhase::Idle;
                            self.attributes.update_state(AgentState::Finished);
                            proof {
                                assert(self.config(fact_sheet@) =~= arch_step(c, event@).0);
                            }
                            Ok(StepStatus::Finished)
                        }
                    },
                    None => {
                        self.phase = ArchPhase::ScopeRequest { retried };
                        proof {
                            assert(self.config(fact_sheet@) =~= c);
                        }
                        Err(AgentError::SchemaDecode)
                    },
                },
                TextOutcome::Failed => {
                    if !retried {
                        self.phase = ArchPhase::ScopeRequest { retried: true };
                        proof {
                            assert(self.config(fact_sheet@) =~= arch_step(c, event@).0);
                        }
                        Ok(StepStatus::Running)
                    } else {
                        self.phase = ArchPhase::ScopeRequest { retried };
                        proof {
                            assert(self.config(fact_sheet@) =~= c);
                        }
                        Err(AgentError::TransientService)
                    }
                },
            },
            (ArchPhase::UrlsRequest { retried }, AgentEvent::Text(outcome)) => match outcome {
                TextOutcome::Delivered(s) => match parse_string_list(s.as_str()) {
                    Some(urls) => {
                        let went_empty = urls.len() == 0;
                        fact_sheet.external_urls = Some(urls);
                        if went_empty {
                            self.phase = ArchPhase::Idle;
                            self.attributes.update_state(AgentState::Finished);
                            proof {
                                assert(self.config(fact_sheet@) =~= arch_step(c, event@).0);
                            }
                            Ok(StepStatus::Finished)
                        } else {
                            self.phase = ArchPhase::Probing { index: 0, excluded: Vec::new() };
                            self.attributes.update_state(AgentState::UnitTesting);
                            proof {
                                assert(self.config(fact_sheet@) =~= arch_step(c, event@).0);
                            }
                            Ok(StepStatus::Running)
                        }
                    },
                    None => {
                        self.phase = ArchPhase::UrlsRequest { retried };
                        proof {
                            assert(self.config(fact_sheet@) =~= c);
                        }
                        Err(AgentError::SchemaDecode)
                    },
                },
                TextOutcome::Failed => {
                    if !retried {
                        self.phase = ArchPhase::UrlsRequest { retried: true };
                        proof {
                            assert(self.config(fact_sheet@) =~= arch_step(c, event@).0);
                        }
                        Ok(StepStatus::Running)
                    } else {
                        self.phase = ArchPhase::UrlsRequest { retried };
                        proof {
                            assert(self.config(fact_sheet@) =~= c);
                        }
                        Err(AgentError::TransientService)
                    }
                },
            },
            (ArchPhase::Probing { index, mut excluded }, AgentEvent::Probe(outcome)) => {
                let has_urls = fact_sheet.external_urls.is_some();
                if !has_urls {
                    self.phase = ArchPhase::Probing { index, excluded };
                    proof {
                        assert(self.config(fact_sheet@) =~= c);
                    }
                    return Err(AgentError::UnexpectedEvent);
                }
                let urls_len = match &fact_sheet.external_urls {
                    Some(urls) => urls.len(),
                    None => 0,
                };
                if index >= urls_len {
                    self.phase = ArchPhase::Probing { index, excluded };
                    proof {
                        assert(self.config(fact_sheet@) =~= c);
                    }
                    return Err(AgentError::UnexpectedEvent);
                }
                let failing = match outcome {
                    ProbeOutcome::Status(code) => code != 200,
                    ProbeOutcome::Failed => false,
                };
                if failing {
                    let url = match &fact_sheet.external_urls {
                        Some(urls) => urls[index].clone(),
                        None => String::new(),
                    };
                    let ghost pre_excluded = excluded.deep_view();
                    proof {
                        assert(pre_excluded.len() == excluded@.len());
                    }
                    excluded.push(url);
                    proof {
                        assert(excluded.deep_view() =~= pre_excluded.push(url@));
                    }
                }
                if index + 1 < urls_len {
                    self.phase = ArchPhase::Probing { index: index + 1, excluded };
                    proof {
                        assert(self.config(fact_sheet@) =~= arch_step(c, event@).0);
                    }
                    Ok(StepStatus::Running)
                } else {
                    let filtered = match &fact_sheet.external_urls {
                        Some(urls) => retain_not_excluded(urls, &excluded),
                        None => Vec::new(),
                    };
                    fact_sheet.external_urls = Some(filtered);
                    self.phase = ArchPhase::Idle;
                    self.attributes.update_state(AgentState::Finished);
                    proof {
                        assert(self.config(fact_sheet@) =~= arch_step(c, event@).0);
                    }
                    Ok(StepStatus::Finished)
                }
            },
            (other_phase, _) => {
                self.phase = other_phase;
                proof {
                    assert(self.config(fact_sheet@) =~= c);
                }
                Err(AgentError::UnexpectedEvent)
            },
        }
    }

    /// Run the agent to completion over a finite feed of scripted outcomes:
    /// while the state is not `Finished`, dispatch on it; an unrecognised
    /// configuration is defensively forced to `Finished`.
    #[verifier::loop_isolation(false)]
    pub fn execute(&mut self, fact_sheet: &mut FactSheet, feed: &mut EventFeed) -> (r: Result<
        (),
        AgentError,
    >)
        ensures
            final(self).config(final(fact_sheet)@) == arch_run(
                old(self).config(old(fact_sheet)@),
                old(feed).remaining(),
            ).0,
            r == arch_run(old(self).config(old(fact_sheet)@), old(feed).remaining()).1,
            final(feed).remaining() == old(feed).remaining().skip(
                arch_run(old(self).config(old(fact_sheet)@), old(feed).remaining()).2,
            ),
    {
        let ghost c0 = self.config(fact_sheet@);
        let ghost evs0 = feed.remaining();
        loop
            invariant
                arch_run(c0, evs0).0 == arch_run(self.config(fact_sheet@), feed.remaining()).0,
                arch_run(c0, evs0).1 == arch_run(self.config(fact_sheet@), feed.remaining()).1,
                arch_run(c0, evs0).2 == evs0.len() - feed.remaining().len() + arch_run(
                    self.config(fact_sheet@),
                    feed.remaining(),
                ).2,
                feed.remaining().len() <= evs0.len(),
                evs0.skip(evs0.len() - feed.remaining().len()) == feed.remaining(),
            decreases feed.remaining().len(),
        {
            let ghost cur = self.config(fact_sheet@);
            let ghost rem = feed.remaining();
            let state_now = self.attributes.state;
            if state_now == AgentState::Finished {
                proof {
                    assert(arch_run(cur, rem) == (cur, Ok::<(), AgentError>(()), 0int));
                }
                return Ok(());
            }
            let is_idle = match &self.phase {
                ArchPhase::Idle => true,
                _ => false,
            };
            if is_idle {
                self.attributes.update_state(AgentState::Finished);
                proof {
                    assert(arch_run(cur, rem).0 =~= self.config(fact_sheet@));
                }
                return Ok(());
            }
            let ev = match feed.next() {
                Some(ev) => ev,
                None => {
                    proof {
                        assert(rem.len() == 0);
                        assert(arch_run(cur, rem) == (cur, Err::<(), AgentError>(
                            AgentError::EventsExhausted,
                        ), 0int));
                    }
                    return Err(AgentError::EventsExhausted);
                },
            };
            proof {
                assert(ev@ == rem[0]);
                assert(feed.remaining() == rem.drop_first());
                assert(evs0.skip(evs0.len() - rem.drop_first().len()) =~= rem.drop_first());
            }
            match self.step(fact_sheet, ev) {
                Ok(_) => {
                    proof {
                        assert(arch_run(cur, rem).0 == arch_run(
                            self.config(fact_sheet@),
                            feed.remaining(),
                        ).0);
                    }
                },
                Err(e) => {
                    proof {
                        assert(arch_run(cur, rem).1 == Err::<(), AgentError>(e));
                        assert(arch_run(cur, rem).0 == self.config(fact_sheet@));
                        assert(arch_run(cur, rem).2 == 1int);
                    }
                    return Err(e);
                },
            }
        }
    }
}

impl crate::agent_trait::SpecialFunctions for AgentSolutionArchitect {
    fn get_agent_position(&mut self) -> (r: String)
        ensures
            r@ == old(self).attributes.position@,
            *final(self) == *old(self),
    {
        AgentSolutionArchitect::get_agent_position(self)
    }

    fn execute(&mut self, fact_sheet: &mut FactSheet, feed: &mut EventFeed) -> (r: Result<
        (),
        AgentError,
    >)
        ensures
            final(self).config(final(fact_sheet)@) == arch_run(
                old(self).config(old(fact_sheet)@),
                old(feed).remaining(),
            ).0,
            r == arch_run(old(self).config(old(fact_sheet)@), old(feed).remaining()).1,
    {
        AgentSolutionArchitect::execute(self, fact_sheet, feed)
    }
}

} // verus!
