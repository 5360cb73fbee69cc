use agentforge::agent_backend::AgentBackendDeveloper;
use agentforge::agent_trait::{FactSheet, ProjectScope};
use agentforge::basic_agent::AgentState;
use agentforge::errors::AgentError;
use agentforge::events::{
    AgentAction, AgentEvent, BuildOutcome, EventFeed, ProbeOutcome, StepStatus, TextOutcome,
};

const SCHEMA: &str = r#"[{"route":"/images","method":"get","is_route_dynamic":false,"request_body":"None","response":"Array"}]"#;

fn delivered(text: &str) -> AgentEvent {
    AgentEvent::Text(TextOutcome::Delivered(text.to_string()))
}

fn cat_fact_sheet() -> FactSheet {
    FactSheet {
        project_description:
            "build a website that fetches and displays random images of cats from an external API"
                .to_string(),
        project_scope: Some(ProjectScope {
            is_crud_required: false,
            is_user_login_and_logout: false,
            is_external_urls_required: true,
        }),
        external_urls: Some(vec!["https://api.thecatapi.com/v1/images/search".to_string()]),
        backend_code: None,
        api_endpoint_schema: None,
    }
}

/// The outcomes of one clean run: template read, two generated artifacts,
/// a confirmed gate, a successful build, schema read-back and decode, a
/// launch, one probe, one release, and the schema write.
fn clean_run_events() -> Vec<AgentEvent> {
    vec![
        AgentEvent::FileRead("// template".to_string()),
        delivered("// initial code"),
        AgentEvent::Done,
        delivered("// improved code"),
        AgentEvent::Done,
        AgentEvent::Confirmed(true),
        AgentEvent::Built(BuildOutcome::Success),
        AgentEvent::FileRead("// built main".to_string()),
        delivered(SCHEMA),
        AgentEvent::Done,
        AgentEvent::Probe(ProbeOutcome::Status(200)),
        AgentEvent::Done,
        AgentEvent::Done,
    ]
}

#[test]
fn tests_writing_backend_code() {
    let mut agent = AgentBackendDeveloper::new();
    let mut fact_sheet = cat_fact_sheet();
    let mut feed = EventFeed::new(clean_run_events());
    agent
        .execute(&mut fact_sheet, &mut feed)
        .expect("Unable to execute Backend Developer Agent");
    assert!(fact_sheet.backend_code.is_some());
    assert!(fact_sheet.api_endpoint_schema.is_some());
    assert_eq!(agent.attributes.state, AgentState::Finished);
}

#[test]
fn scenario_two_failures_then_success() {
    let mut agent = AgentBackendDeveloper::new();
    let mut fact_sheet = cat_fact_sheet();
    assert_eq!(agent.bug_count, 0);

    // Discovery and the first Working pass.
    step_ok(&mut agent, &mut fact_sheet, AgentEvent::FileRead("// template".to_string()));
    step_ok(&mut agent, &mut fact_sheet, delivered("// scaffold"));
    step_ok(&mut agent, &mut fact_sheet, AgentEvent::Done);
    step_ok(&mut agent, &mut fact_sheet, delivered("// attempt one"));
    step_ok(&mut agent, &mut fact_sheet, AgentEvent::Done);

    // First build fails: bug count 0 -> 1.
    step_ok(&mut agent, &mut fact_sheet, AgentEvent::Confirmed(true));
    step_ok(&mut agent, &mut fact_sheet, AgentEvent::Built(BuildOutcome::Failure("E1".to_string())));
    assert_eq!(agent.bug_count, 1);
    assert_eq!(agent.attributes.state, AgentState::Working);

    // Targeted fix, second build fails: 1 -> 2.
    step_ok(&mut agent, &mut fact_sheet, delivered("// attempt two"));
    step_ok(&mut agent, &mut fact_sheet, AgentEvent::Done);
    step_ok(&mut agent, &mut fact_sheet, AgentEvent::Confirmed(true));
    step_ok(&mut agent, &mut fact_sheet, AgentEvent::Built(BuildOutcome::Failure("E2".to_string())));
    assert_eq!(agent.bug_count, 2);

    // Second fix, third build succeeds: 2 -> 0.
    step_ok(&mut agent, &mut fact_sheet, delivered("// attempt three"));
    step_ok(&mut agent, &mut fact_sheet, AgentEvent::Done);
    step_ok(&mut agent, &mut fact_sheet, AgentEvent::Confirmed(true));
    step_ok(&mut agent, &mut fact_sheet, AgentEvent::Built(BuildOutcome::Success));
    assert_eq!(agent.bug_count, 0);

    // The persisted artifact is the third build candidate.
    assert_eq!(fact_sheet.backend_code, Some("// attempt three".to_string()));

    // Run the remaining unit-testing pass to completion.
    let mut feed = EventFeed::new(vec![
        AgentEvent::FileRead("// built main".to_string()),
        delivered(SCHEMA),
        AgentEvent::Done,
        AgentEvent::Probe(ProbeOutcome::Status(200)),
        AgentEvent::Done,
        AgentEvent::Done,
    ]);
    agent.execute(&mut fact_sheet, &mut feed).expect("run should finish");
    assert_eq!(agent.attributes.state, AgentState::Finished);
    assert_eq!(fact_sheet.backend_code, Some("// attempt three".to_string()));
}

fn step_ok(agent: &mut AgentBackendDeveloper, fact_sheet: &mut FactSheet, event: AgentEvent) {
    match agent.step(fact_sheet, event) {
        Ok(StepStatus::Running) | Ok(StepStatus::Finished) => {},
        Err(e) => panic!("unexpected step error: {:?}", e),
    }
}

#[test]
fn third_build_failure_aborts_the_run() {
    let mut agent = AgentBackendDeveloper::new();
    let mut fact_sheet = cat_fact_sheet();
    let mut feed = EventFeed::new(vec![
        AgentEvent::FileRead("// template".to_string()),
        delivered("// c1"),
        AgentEvent::Done,
        delivered("// c2"),
        AgentEvent::Done,
        AgentEvent::Confirmed(true),
        AgentEvent::Built(BuildOutcome::Failure("E1".to_string())),
        delivered("// c3"),
        AgentEvent::Done,
        AgentEvent::Confirmed(true),
        AgentEvent::Built(BuildOutcome::Failure("E2".to_string())),
        delivered("// c4"),
        AgentEvent::Done,
        AgentEvent::Confirmed(true),
        AgentEvent::Built(BuildOutcome::Failure("E3".to_string())),
    ]);
    let err = agent.execute(&mut fact_sheet, &mut feed).unwrap_err();
    assert_eq!(err, AgentError::TooManyBugs);
    assert_eq!(agent.bug_count, 3);
}

#[test]
fn declining_the_gate_aborts_the_run() {
    let mut agent = AgentBackendDeveloper::new();
    let mut fact_sheet = cat_fact_sheet();
    let mut feed = EventFeed::new(vec![
        AgentEvent::FileRead("// template".to_string()),
        delivered("// c1"),
        AgentEvent::Done,
        delivered("// c2"),
        AgentEvent::Done,
        AgentEvent::Confirmed(false),
    ]);
    let err = agent.execute(&mut fact_sheet, &mut feed).unwrap_err();
    assert_eq!(err, AgentError::OperatorAbort);
}

#[test]
fn ensure_ai_safety_vetoes_on_decline() {
    let agent = AgentBackendDeveloper::new();
    assert!(agent.ensure_ai_safety(true).is_ok());
    assert_eq!(agent.ensure_ai_safety(false).unwrap_err(), AgentError::OperatorAbort);
}

#[test]
fn probe_targets_the_local_server() {
    let mut agent = AgentBackendDeveloper::new();
    let mut fact_sheet = cat_fact_sheet();
    let prefix = vec![
        AgentEvent::FileRead("// template".to_string()),
        delivered("// c1"),
        AgentEvent::Done,
        delivered("// c2"),
        AgentEvent::Done,
        AgentEvent::Confirmed(true),
        AgentEvent::Built(BuildOutcome::Success),
        AgentEvent::FileRead("// built main".to_string()),
        delivered(SCHEMA),
        AgentEvent::Done,
    ];
    for ev in prefix {
        step_ok(&mut agent, &mut fact_sheet, ev);
    }
    match agent.next_action(&fact_sheet) {
        Some(AgentAction::ProbeUrl { url }) => {
            assert_eq!(url, "http://127.0.0.1:8080/images");
        },
        other => panic!("unexpected action: {:?}", other),
    }
}

#[test]
fn schema_is_recorded_before_probing() {
    let mut agent = AgentBackendDeveloper::new();
    let mut fact_sheet = cat_fact_sheet();
    let mut feed = EventFeed::new(clean_run_events());
    agent.execute(&mut fact_sheet, &mut feed).expect("run should finish");
    let schema = fact_sheet.api_endpoint_schema.unwrap();
    assert_eq!(schema.len(), 1);
    assert_eq!(schema[0].route, "/images");
    assert_eq!(schema[0].method, "get");
    assert!(!schema[0].is_route_dynamic);
}

#[test]
fn malformed_schema_text_is_fatal() {
    let mut agent = AgentBackendDeveloper::new();
    let mut fact_sheet = cat_fact_sheet();
    let mut feed = EventFeed::new(vec![
        AgentEvent::FileRead("// template".to_string()),
        delivered("// c1"),
        AgentEvent::Done,
        delivered("// c2"),
        AgentEvent::Done,
        AgentEvent::Confirmed(true),
        AgentEvent::Built(BuildOutcome::Success),
        AgentEvent::FileRead("// built main".to_string()),
        delivered("here are your endpoints!"),
    ]);
    let err = agent.execute(&mut fact_sheet, &mut feed).unwrap_err();
    assert_eq!(err, AgentError::SchemaDecode);
    assert!(fact_sheet.api_endpoint_schema.is_none());
}
