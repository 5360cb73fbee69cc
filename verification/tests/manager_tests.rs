use agentforge::basic_agent::AgentState;
use agentforge::errors::AgentError;
use agentforge::events::{AgentEvent, BuildOutcome, EventFeed, ProbeOutcome, TextOutcome};
use agentforge::managing_agent::ManagingAgent;

fn delivered(text: &str) -> AgentEvent {
    AgentEvent::Text(TextOutcome::Delivered(text.to_string()))
}

const SCHEMA: &str = r#"[{"route":"/cat","method":"get","is_route_dynamic":false,"request_body":null,"response":null}]"#;

fn pipeline_events() -> Vec<AgentEvent> {
    vec![
        // The manager derives the project description.
        delivered("Build a website that shows random cat pictures from an external API."),
        // The architect takes the floor.
        delivered(
            r#"{"is_crud_required":false,"is_user_login_and_logout":false,"is_external_urls_required":true}"#,
        ),
        delivered(r#"["https://api.thecatapi.com/v1/images/search"]"#),
        AgentEvent::Probe(ProbeOutcome::Status(200)),
        // The backend developer takes the floor.
        AgentEvent::FileRead("// template".to_string()),
        delivered("// initial code"),
        AgentEvent::Done,
        delivered("// improved code"),
        AgentEvent::Done,
        AgentEvent::Confirmed(true),
        AgentEvent::Built(BuildOutcome::Success),
        AgentEvent::FileRead("// built main".to_string()),
        delivered(SCHEMA),
        AgentEvent::Done,
        AgentEvent::Probe(ProbeOutcome::Status(200)),
        AgentEvent::Done,
        AgentEvent::Done,
    ]
}

#[test]
fn tests_managing_agent() {
    let user_request: &str =
        "Build me a website that randomly shows cool pictures of cats. I should query an endpoint, and retrieve a random image from a cat fetched from an external API!";
    let mut agent: ManagingAgent = ManagingAgent::new(user_request.to_string());
    let mut feed = EventFeed::new(pipeline_events());
    agent.execute_project(&mut feed).expect("Error creating Managing Agent");
    assert!(agent.fact_sheet.project_scope.is_some());
    assert!(agent.fact_sheet.external_urls.is_some());
}

#[test]
fn manager_keeps_its_own_state_and_identity() {
    let agent = ManagingAgent::new("Build a blog".to_string());
    assert_eq!(agent.attributes.state, AgentState::Discovery);
    assert_eq!(agent.attributes.position, "Project Manager");
    assert_eq!(agent.fact_sheet.project_description, "");
}

#[test]
fn manager_records_the_derived_description() {
    let mut agent = ManagingAgent::new("Build a cat site".to_string());
    let mut feed = EventFeed::new(pipeline_events());
    agent.execute_project(&mut feed).expect("pipeline should finish");
    assert_eq!(
        agent.fact_sheet.project_description,
        "Build a website that shows random cat pictures from an external API."
    );
    assert!(agent.fact_sheet.backend_code.is_some());
    assert!(agent.fact_sheet.api_endpoint_schema.is_some());
}

#[test]
fn an_agent_error_aborts_the_whole_run() {
    let mut agent = ManagingAgent::new("Build a cat site".to_string());
    let mut feed = EventFeed::new(vec![
        delivered("A cat picture website."),
        delivered("that is not a scope record"),
    ]);
    let err = agent.execute_project(&mut feed).unwrap_err();
    assert_eq!(err, AgentError::SchemaDecode);
}

#[test]
fn a_dry_feed_is_reported_not_looped_over() {
    let mut agent = ManagingAgent::new("Build a cat site".to_string());
    let mut feed = EventFeed::new(vec![delivered("A cat picture website.")]);
    let err = agent.execute_project(&mut feed).unwrap_err();
    assert_eq!(err, AgentError::EventsExhausted);
}
