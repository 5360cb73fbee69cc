use agentforge::agent_backend::AgentBackendDeveloper;
use agentforge::decode::{parse_project_scope, parse_route_objects, parse_string_list};
use agentforge::errors::AgentError;

#[test]
fn scope_decodes_all_three_fields() {
    let text = r#"{"is_crud_required":true,"is_user_login_and_logout":false,"is_external_urls_required":true}"#;
    let scope = parse_project_scope(text).expect("scope should decode");
    assert!(scope.is_crud_required);
    assert!(!scope.is_user_login_and_logout);
    assert!(scope.is_external_urls_required);
}

#[test]
fn scope_rejects_invalid_json() {
    assert!(parse_project_scope("certainly! here is your JSON: {").is_none());
    assert!(parse_project_scope("").is_none());
    assert!(parse_project_scope("[1,2,3]").is_none());
    assert!(parse_project_scope(r#"{"is_crud_required":"yes"}"#).is_none());
}

#[test]
fn string_list_decodes_in_order() {
    let urls = parse_string_list(r#"["https://a.example","https://b.example"]"#).unwrap();
    assert_eq!(urls, vec!["https://a.example".to_string(), "https://b.example".to_string()]);
}

#[test]
fn string_list_rejects_invalid_json() {
    assert!(parse_string_list("not json at all").is_none());
    assert!(parse_string_list(r#"{"a":1}"#).is_none());
}

#[test]
fn route_objects_decode_with_open_shaped_members() {
    let text = r#"[
        {"route":"/items","method":"get","is_route_dynamic":false,"request_body":"None","response":{"kind":"Array"}},
        {"route":"/items/{id}","method":"get","is_route_dynamic":true,"request_body":"None","response":"Object"}
    ]"#;
    let routes = parse_route_objects(text).expect("schema should decode");
    assert_eq!(routes.len(), 2);
    assert_eq!(routes[0].route, "/items");
    assert_eq!(routes[0].method, "get");
    assert!(!routes[0].is_route_dynamic);
    assert_eq!(routes[0].request_body, "\"None\"");
    assert_eq!(routes[0].response, r#"{"kind":"Array"}"#);
    assert!(routes[1].is_route_dynamic);
}

#[test]
fn route_objects_reject_invalid_json() {
    assert!(parse_route_objects("oops").is_none());
    assert!(parse_route_objects(r#"[{"route":1}]"#).is_none());
}

#[test]
fn endpoint_filter_keeps_exactly_static_get_routes() {
    let text = r#"[
        {"route":"/a","method":"get","is_route_dynamic":false,"request_body":null,"response":null},
        {"route":"/b","method":"post","is_route_dynamic":false,"request_body":null,"response":null},
        {"route":"/c/{id}","method":"get","is_route_dynamic":true,"request_body":null,"response":null},
        {"route":"/d","method":"get","is_route_dynamic":false,"request_body":null,"response":null}
    ]"#;
    let agent = AgentBackendDeveloper::new();
    let checked = agent.extract_and_test_rest_api_endpoints(text).expect("schema should decode");
    assert_eq!(checked.len(), 2);
    assert_eq!(checked[0].route, "/a");
    assert_eq!(checked[1].route, "/d");
}

#[test]
fn endpoint_extraction_fails_closed() {
    let agent = AgentBackendDeveloper::new();
    let err = agent.extract_and_test_rest_api_endpoints("{{{").unwrap_err();
    assert_eq!(err, AgentError::SchemaDecode);
}
