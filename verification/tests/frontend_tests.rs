use agentforge::agent_frontend::AgentFrontendDeveloper;
use agentforge::agent_frontend_comp::BuildComponent;
use agentforge::agent_trait::{FactSheet, ProjectScope};
use agentforge::basic_agent::AgentState;
use agentforge::errors::AgentError;
use agentforge::events::{AgentEvent, BuildOutcome, EventFeed, TextOutcome};

fn delivered(text: &str) -> AgentEvent {
    AgentEvent::Text(TextOutcome::Delivered(text.to_string()))
}

const PAGES: &str = r#"[
    {"page_name":"home_page","suggested_content_sections":{"banner_section":"A catchy banner"}},
    {"page_name":"about_page","suggested_content_sections":{"title_section":"About us"}}
]"#;

const ASSIGNMENTS: &str = r#"{
    "home_page":[{"api_route":"/progress","method":"get","route_type":"internal"}],
    "about_page":[]
}"#;

fn todo_fact_sheet() -> FactSheet {
    FactSheet {
        project_description: "Build a todo app for a fitness tracking goal".to_string(),
        project_scope: Some(ProjectScope {
            is_crud_required: true,
            is_user_login_and_logout: true,
            is_external_urls_required: true,
        }),
        external_urls: Some(vec!["https://api.exchangeratesapi.io/latest".to_string()]),
        backend_code: None,
        api_endpoint_schema: None,
    }
}

/// The discovery outcomes: backend source, page plan, schema read, route
/// assignments, brand colours.
fn discovery_events() -> Vec<AgentEvent> {
    vec![
        AgentEvent::FileRead("// backend main".to_string()),
        delivered(PAGES),
        AgentEvent::FileRead(r#"[{"route":"/progress","method":"get"}]"#.to_string()),
        delivered(ASSIGNMENTS),
        delivered("[\"#32a852\",\"#0fa0d1\",\"#d10fcb\"]"),
    ]
}

/// The outcomes of one component whose recipe is a single generative
/// call: artifact text, save, passing build check.
fn one_call_component(code: &str) -> Vec<AgentEvent> {
    vec![delivered(code), AgentEvent::Done, AgentEvent::Built(BuildOutcome::Success)]
}

/// The outcomes of one page component: hook read-back, the four recipe
/// stages, save, passing build check.
fn page_component() -> Vec<AgentEvent> {
    vec![
        AgentEvent::FileRead("// hook contents".to_string()),
        delivered("<section>wireframe</section>"),
        delivered("// api component"),
        delivered("// merged component"),
        delivered("// styled component"),
        AgentEvent::Done,
        AgentEvent::Built(BuildOutcome::Success),
    ]
}

fn clean_run_events() -> Vec<AgentEvent> {
    let mut evs = discovery_events();
    // Logo: vector icon, then the wrapping component.
    evs.push(delivered("<svg/>"));
    evs.extend(one_call_component("// logo component"));
    // NavHeader, NavFooter.
    evs.extend(one_call_component("// header"));
    evs.extend(one_call_component("// footer"));
    // ReactHook: schema read, then the hook.
    evs.push(AgentEvent::FileRead(r#"[{"route":"/progress"}]"#.to_string()));
    evs.extend(one_call_component("// useCall hook"));
    // The two page components.
    evs.extend(page_component());
    evs.extend(page_component());
    evs
}

#[test]
fn develops_context_and_branding() {
    let mut agent: AgentFrontendDeveloper = AgentFrontendDeveloper::new();
    let mut factsheet: FactSheet = todo_fact_sheet();
    let mut feed = EventFeed::new(clean_run_events());
    agent.execute(&mut factsheet, &mut feed).expect("Unable to execute running agent");
    assert_eq!(agent.attributes.state, AgentState::Finished);
    assert!(agent.buildsheet.pages_descriptions.is_some());
    assert!(agent.buildsheet.api_assignments.is_some());
    assert_eq!(
        agent.buildsheet.brand_colours,
        Some(vec!["#32a852".to_string(), "#0fa0d1".to_string(), "#d10fcb".to_string()])
    );
}

#[test]
fn works_on_shared_components() {
    let mut agent: AgentFrontendDeveloper = AgentFrontendDeveloper::new();
    let mut factsheet: FactSheet = todo_fact_sheet();
    let mut feed = EventFeed::new(clean_run_events());
    agent.execute(&mut factsheet, &mut feed).expect("Unable to execute running agent");
    assert_eq!(
        agent.buildsheet.pages,
        Some(vec!["home_page".to_string(), "about_page".to_string()])
    );
}

#[test]
fn works_on_final_pages() {
    // The first page component fails its build check once; one repair
    // pass follows, then the run completes.
    let mut agent: AgentFrontendDeveloper = AgentFrontendDeveloper::new();
    let mut factsheet: FactSheet = todo_fact_sheet();
    let mut evs = discovery_events();
    evs.push(delivered("<svg/>"));
    evs.extend(one_call_component("// logo component"));
    evs.extend(one_call_component("// header"));
    evs.extend(one_call_component("// footer"));
    evs.push(AgentEvent::FileRead("[]".to_string()));
    evs.extend(one_call_component("// useCall hook"));
    // PageContent1 with a failing first build check.
    evs.push(AgentEvent::FileRead("// hook contents".to_string()));
    evs.push(delivered("<section>wireframe</section>"));
    evs.push(delivered("// api component"));
    evs.push(delivered("// merged component"));
    evs.push(delivered("// styled component"));
    evs.push(AgentEvent::Done);
    evs.push(AgentEvent::Built(BuildOutcome::Failure("TS2304: cannot find name".to_string())));
    evs.push(AgentEvent::FileRead("// broken artifact".to_string()));
    evs.push(delivered("// repaired artifact"));
    evs.push(AgentEvent::Done);
    evs.push(AgentEvent::Built(BuildOutcome::Success));
    // PageContent2 passes cleanly.
    evs.extend(page_component());
    let mut feed = EventFeed::new(evs);
    agent.execute(&mut factsheet, &mut feed).expect("Unable to execute running agent");
    assert_eq!(agent.attributes.state, AgentState::Finished);
    assert_eq!(agent.bug_count, 0);
}

#[test]
fn second_failure_of_a_component_aborts() {
    let mut agent: AgentFrontendDeveloper = AgentFrontendDeveloper::new();
    let mut factsheet: FactSheet = todo_fact_sheet();
    let mut evs = discovery_events();
    evs.push(delivered("<svg/>"));
    evs.push(delivered("// logo component"));
    evs.push(AgentEvent::Done);
    evs.push(AgentEvent::Built(BuildOutcome::Failure("E1".to_string())));
    evs.push(AgentEvent::FileRead("// broken logo".to_string()));
    evs.push(delivered("// still broken"));
    evs.push(AgentEvent::Done);
    evs.push(AgentEvent::Built(BuildOutcome::Failure("E2".to_string())));
    let mut feed = EventFeed::new(evs);
    let err = agent.execute(&mut factsheet, &mut feed).unwrap_err();
    assert_eq!(err, AgentError::TooManyBugs);
    assert_eq!(agent.bug_count, 2);
}

#[test]
fn component_identities_and_paths() {
    assert_eq!(BuildComponent::Logo.name(), "Logo");
    assert_eq!(BuildComponent::NavHeader.name(), "NavHeader");
    assert_eq!(BuildComponent::NavFooter.name(), "NavFooter");
    assert_eq!(BuildComponent::ReactHook.name(), "ReactHook");
    assert_eq!(BuildComponent::PageContent1.name(), "PageContent1");
    assert_eq!(BuildComponent::PageContent2.name(), "PageContent2");
    assert_eq!(BuildComponent::Logo.filepath(), "/src/components/shared/Logo.tsx");
    assert_eq!(BuildComponent::NavHeader.filepath(), "/src/components/shared/Navigation.tsx");
    assert_eq!(BuildComponent::NavFooter.filepath(), "/src/components/shared/Footer.tsx");
    assert_eq!(BuildComponent::ReactHook.filepath(), "/src/hooks/useCall.tsx");
    assert_eq!(BuildComponent::PageContent1.filepath(), "/src/components/pages/PageOne.tsx");
    assert_eq!(BuildComponent::PageContent2.filepath(), "/src/components/pages/PageTwo.tsx");
}

#[test]
fn malformed_page_plan_is_fatal() {
    let mut agent: AgentFrontendDeveloper = AgentFrontendDeveloper::new();
    let mut factsheet: FactSheet = todo_fact_sheet();
    let mut feed = EventFeed::new(vec![
        AgentEvent::FileRead("// backend main".to_string()),
        delivered("sorry, no pages today"),
    ]);
    let err = agent.execute(&mut factsheet, &mut feed).unwrap_err();
    assert_eq!(err, AgentError::SchemaDecode);
}

#[test]
fn a_single_page_plan_cannot_fill_the_second_page_component() {
    let mut agent: AgentFrontendDeveloper = AgentFrontendDeveloper::new();
    let mut factsheet: FactSheet = todo_fact_sheet();
    let mut evs = vec![
        AgentEvent::FileRead("// backend main".to_string()),
        delivered(r#"[{"page_name":"home_page","suggested_content_sections":{"a":"b"}}]"#),
        AgentEvent::FileRead("[]".to_string()),
        delivered(r#"{"home_page":[]}"#),
        delivered("[\"#32a852\"]"),
    ];
    evs.push(delivered("<svg/>"));
    evs.extend(one_call_component("// logo component"));
    evs.extend(one_call_component("// header"));
    evs.extend(one_call_component("// footer"));
    evs.push(AgentEvent::FileRead("[]".to_string()));
    evs.extend(one_call_component("// useCall hook"));
    // PageContent1 still works with one page...
    evs.extend(page_component());
    // ...but entering PageContent2 needs a second page.
    let mut feed = EventFeed::new(evs);
    let err = agent.execute(&mut factsheet, &mut feed).unwrap_err();
    assert_eq!(err, AgentError::IncompleteBlackboard);
}
