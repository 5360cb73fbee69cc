use agentforge::agent_architect::AgentSolutionArchitect;
use agentforge::agent_trait::FactSheet;
use agentforge::basic_agent::AgentState;
use agentforge::errors::AgentError;
use agentforge::events::{AgentAction, AgentEvent, EventFeed, ProbeOutcome, TextOutcome};

fn fresh_fact_sheet(description: &str) -> FactSheet {
    FactSheet::with_description(description.to_string())
}

fn delivered(text: &str) -> AgentEvent {
    AgentEvent::Text(TextOutcome::Delivered(text.to_string()))
}

const SCOPE_WITH_URLS: &str = r#"{"is_crud_required":true,"is_user_login_and_logout":true,"is_external_urls_required":true}"#;
const SCOPE_WITHOUT_URLS: &str = r#"{"is_crud_required":true,"is_user_login_and_logout":false,"is_external_urls_required":false}"#;

#[test]
fn tests_solution_architect() {
    let mut agent = AgentSolutionArchitect::new();
    let mut fact_sheet = fresh_fact_sheet(
        "Build a fullstack website with user login and logout that shows latest Forex prices",
    );
    let mut feed = EventFeed::new(vec![
        delivered(SCOPE_WITH_URLS),
        delivered(r#"["https://api.fastforex.io/fetch-latest"]"#),
        AgentEvent::Probe(ProbeOutcome::Status(200)),
    ]);
    agent
        .execute(&mut fact_sheet, &mut feed)
        .expect("Unable to execute Solutions Architect Agent");
    assert!(fact_sheet.project_scope.is_some());
    assert!(fact_sheet.external_urls.is_some());
    assert_eq!(agent.attributes.state, AgentState::Finished);
}

#[test]
fn scenario_scope_without_urls_skips_probing() {
    let mut agent = AgentSolutionArchitect::new();
    let mut fact_sheet = fresh_fact_sheet("Build a todo app");
    let mut feed = EventFeed::new(vec![delivered(SCOPE_WITHOUT_URLS)]);
    agent.execute(&mut fact_sheet, &mut feed).expect("architect should finish");
    assert_eq!(agent.attributes.state, AgentState::Finished);
    let scope = fact_sheet.project_scope.unwrap();
    assert!(!scope.is_external_urls_required);
    assert!(fact_sheet.external_urls.is_none());
}

#[test]
fn scenario_failing_url_is_excluded() {
    let mut agent = AgentSolutionArchitect::new();
    let mut fact_sheet = fresh_fact_sheet("Build a site that shows cat pictures");
    let mut feed = EventFeed::new(vec![
        delivered(SCOPE_WITH_URLS),
        delivered(r#"["https://good.example/api","https://bad.example/api"]"#),
        AgentEvent::Probe(ProbeOutcome::Status(200)),
        AgentEvent::Probe(ProbeOutcome::Status(404)),
    ]);
    agent.execute(&mut fact_sheet, &mut feed).expect("architect should finish");
    let urls = fact_sheet.external_urls.unwrap();
    assert_eq!(urls.len(), 1);
    assert_eq!(urls[0], "https://good.example/api");
}

#[test]
fn probe_transport_error_excludes_nothing() {
    let mut agent = AgentSolutionArchitect::new();
    let mut fact_sheet = fresh_fact_sheet("Build a site");
    let mut feed = EventFeed::new(vec![
        delivered(SCOPE_WITH_URLS),
        delivered(r#"["https://a.example","https://b.example"]"#),
        AgentEvent::Probe(ProbeOutcome::Failed),
        AgentEvent::Probe(ProbeOutcome::Status(200)),
    ]);
    agent.execute(&mut fact_sheet, &mut feed).expect("architect should finish");
    let urls = fact_sheet.external_urls.unwrap();
    assert_eq!(urls.len(), 2);
}

#[test]
fn duplicate_url_is_removed_everywhere_once_it_fails() {
    let mut agent = AgentSolutionArchitect::new();
    let mut fact_sheet = fresh_fact_sheet("Build a site");
    let mut feed = EventFeed::new(vec![
        delivered(SCOPE_WITH_URLS),
        delivered(r#"["https://a.example","https://b.example","https://a.example"]"#),
        AgentEvent::Probe(ProbeOutcome::Status(500)),
        AgentEvent::Probe(ProbeOutcome::Status(200)),
        AgentEvent::Probe(ProbeOutcome::Status(200)),
    ]);
    agent.execute(&mut fact_sheet, &mut feed).expect("architect should finish");
    let urls = fact_sheet.external_urls.unwrap();
    assert_eq!(urls, vec!["https://b.example".to_string()]);
}

#[test]
fn transport_failure_is_retried_exactly_once() {
    let mut agent = AgentSolutionArchitect::new();
    let mut fact_sheet = fresh_fact_sheet("Build a todo app");
    let mut feed = EventFeed::new(vec![
        AgentEvent::Text(TextOutcome::Failed),
        delivered(SCOPE_WITHOUT_URLS),
    ]);
    agent.execute(&mut fact_sheet, &mut feed).expect("one retry should be enough");
    assert!(fact_sheet.project_scope.is_some());

    let mut agent = AgentSolutionArchitect::new();
    let mut fact_sheet = fresh_fact_sheet("Build a todo app");
    let mut feed = EventFeed::new(vec![
        AgentEvent::Text(TextOutcome::Failed),
        AgentEvent::Text(TextOutcome::Failed),
    ]);
    let err = agent.execute(&mut fact_sheet, &mut feed).unwrap_err();
    assert_eq!(err, AgentError::TransientService);
}

#[test]
fn malformed_scope_fails_fast() {
    let mut agent = AgentSolutionArchitect::new();
    let mut fact_sheet = fresh_fact_sheet("Build a todo app");
    let mut feed = EventFeed::new(vec![delivered("here is your answer: sure thing!")]);
    let err = agent.execute(&mut fact_sheet, &mut feed).unwrap_err();
    assert_eq!(err, AgentError::SchemaDecode);
    assert!(fact_sheet.project_scope.is_none());
}

#[test]
fn first_action_requests_the_scope_from_the_description() {
    let agent = AgentSolutionArchitect::new();
    let fact_sheet = fresh_fact_sheet("Build a forum");
    match agent.next_action(&fact_sheet) {
        Some(AgentAction::RequestText { context, .. }) => assert_eq!(context, "Build a forum"),
        other => panic!("unexpected action: {:?}", other),
    }
}

#[test]
fn an_event_of_the_wrong_kind_is_refused() {
    let mut agent = AgentSolutionArchitect::new();
    let mut fact_sheet = fresh_fact_sheet("Build a forum");
    // The architect asked for text, not a probe outcome.
    let err = agent
        .step(&mut fact_sheet, AgentEvent::Probe(ProbeOutcome::Status(200)))
        .unwrap_err();
    assert_eq!(err, AgentError::UnexpectedEvent);
    assert_eq!(agent.attributes.state, AgentState::Discovery);
}
