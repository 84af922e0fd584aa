use fgp_fly::api::client::{
    FlyClient, HttpReply, Operation, CONTENT_TYPE, DEFAULT_APP_LIMIT, GRAPHQL_ENDPOINT,
    LIST_APPS_QUERY, PING_QUERY, POOL_MAX_IDLE_PER_HOST, RAW_PREFIX_CHARS, REQUEST_TIMEOUT_SECS,
};
use fgp_fly::failure::Failure;
use serde_json::Value;

fn parse(text: &str) -> Value {
    serde_json::from_str(text).unwrap()
}

fn client() -> FlyClient {
    FlyClient::new("tok-123".to_string())
}

#[test]
fn limits_of_the_transport() {
    assert_eq!(REQUEST_TIMEOUT_SECS, 30);
    assert_eq!(POOL_MAX_IDLE_PER_HOST, 5);
    assert_eq!(RAW_PREFIX_CHARS, 300);
    assert_eq!(DEFAULT_APP_LIMIT, 25);
    assert_eq!(GRAPHQL_ENDPOINT, "https://api.fly.io/graphql");
    assert_eq!(CONTENT_TYPE, "application/json");
}

#[test]
fn the_token_is_sent_as_a_bearer() {
    assert_eq!(client().authorization(), "Bearer tok-123");
    assert_eq!(FlyClient::new(String::new()).authorization(), "Bearer ");
}

#[test]
fn a_request_without_variables_has_no_variables_member() {
    let request = client().request(&Operation::Ping);
    assert_eq!(request.url, "https://api.fly.io/graphql");
    assert_eq!(request.authorization, "Bearer tok-123");
    assert_eq!(request.content_type, "application/json");
    let body = request.body.as_object().unwrap();
    assert_eq!(body.len(), 1);
    assert_eq!(body.get("query"), Some(&Value::String(PING_QUERY.to_string())));
    assert!(!body.contains_key("variables"));
}

#[test]
fn a_request_with_variables_has_both_members() {
    let request = client().request(&Operation::ListApps { limit: 10 });
    let body = request.body.as_object().unwrap();
    assert_eq!(body.len(), 2);
    assert_eq!(body.get("query"), Some(&Value::String(LIST_APPS_QUERY.to_string())));
    assert_eq!(body.get("variables"), Some(&parse(r#"{"first":10}"#)));
}

#[test]
fn query_builds_the_body_from_any_document() {
    let request = client().query("query { x }", Some(parse(r#"{"a":[1,2]}"#)));
    assert_eq!(request.body, parse(r#"{"query":"query { x }","variables":{"a":[1,2]}}"#));
    let request = client().query("query { x }", None);
    assert_eq!(request.body, parse(r#"{"query":"query { x }"}"#));
    let request = client().query("", Some(Value::Null));
    assert_eq!(request.body, parse(r#"{"query":"","variables":null}"#));
}

#[test]
fn the_default_limit_is_applied_where_none_is_given() {
    assert!(matches!(Operation::list_apps(None), Operation::ListApps { limit: 25 }));
    assert!(matches!(Operation::list_apps(Some(3)), Operation::ListApps { limit: 3 }));
    assert!(matches!(Operation::list_apps(Some(-1)), Operation::ListApps { limit: -1 }));
}

#[test]
fn variables_of_each_operation() {
    let app = "web".to_string();
    assert_eq!(Operation::Ping.variables(), None);
    assert_eq!(Operation::User.variables(), None);
    assert_eq!(Operation::Regions.variables(), None);
    assert_eq!(Operation::ListApps { limit: -7 }.variables(), Some(parse(r#"{"first":-7}"#)));
    assert_eq!(
        Operation::AppStatus { app: app.clone() }.variables(),
        Some(parse(r#"{"name":"web"}"#))
    );
    assert_eq!(
        Operation::ListMachines { app: app.clone() }.variables(),
        Some(parse(r#"{"name":"web"}"#))
    );
    assert_eq!(
        Operation::ListSecrets { app: app.clone() }.variables(),
        Some(parse(r#"{"name":"web"}"#))
    );
    assert_eq!(
        Operation::SetSecret { app: app.clone(), key: "K".to_string(), value: "V".to_string() }
            .variables(),
        Some(parse(r#"{"input":{"appId":"web","secrets":[{"key":"K","value":"V"}]}}"#))
    );
    assert_eq!(
        Operation::DeleteSecret { app: app.clone(), key: "K".to_string() }.variables(),
        Some(parse(r#"{"input":{"appId":"web","keys":["K"]}}"#))
    );
    assert_eq!(
        Operation::Restart { app }.variables(),
        Some(parse(r#"{"input":{"appId":"web"}}"#))
    );
}

#[test]
fn documents_name_what_they_ask_for() {
    assert!(Operation::Ping.document().contains("viewer"));
    assert!(Operation::ListApps { limit: 1 }.document().contains("apps(first: $first)"));
    assert!(Operation::ListApps { limit: 1 }.document().contains("currentRelease"));
    let app = "a".to_string();
    assert!(Operation::AppStatus { app: app.clone() }.document().contains("allocations"));
    assert!(Operation::ListMachines { app: app.clone() }.document().contains("machines"));
    assert!(Operation::User.document().contains("organizations"));
    assert!(Operation::Regions.document().contains("regions"));
    assert!(Operation::ListSecrets { app: app.clone() }.document().contains("secrets"));
    assert!(Operation::SetSecret { app: app.clone(), key: app.clone(), value: app.clone() }
        .document()
        .contains("setSecrets"));
    assert!(Operation::DeleteSecret { app: app.clone(), key: app.clone() }
        .document()
        .contains("unsetSecrets"));
    assert!(Operation::Restart { app }.document().contains("restartApp"));
}

#[test]
fn ping_with_an_empty_identity_is_false_and_no_failure() {
    let reply = HttpReply::Response {
        status: 200,
        body: Ok(r#"{"data":{"viewer":{"id":""}}}"#.to_string()),
    };
    assert_eq!(client().ping(&reply).unwrap(), false);
}

#[test]
fn ping_with_an_identity_is_true() {
    let reply = HttpReply::Response {
        status: 200,
        body: Ok(r#"{"data":{"viewer":{"id":"abc"}}}"#.to_string()),
    };
    assert_eq!(client().ping(&reply).unwrap(), true);
}

#[test]
fn ping_without_an_answer_is_a_failure() {
    let reply = HttpReply::NotSent { reason: "dns".to_string() };
    assert!(matches!(client().ping(&reply), Err(Failure::Connection { .. })));
}

#[test]
fn status_and_user_hand_out_the_data() {
    let reply = HttpReply::Response {
        status: 200,
        body: Ok(r#"{"data":{"app":{"id":"a","machines":{"nodes":[]}}}}"#.to_string()),
    };
    let data = parse(r#"{"app":{"id":"a","machines":{"nodes":[]}}}"#);
    assert_eq!(client().get_app_status(&reply).unwrap(), data);
    assert_eq!(client().get_user(&reply).unwrap(), data);
}

#[test]
fn untyped_operations_hand_out_the_data() {
    let reply = HttpReply::Response {
        status: 200,
        body: Ok(r#"{"data":{"platform":{"regions":[{"code":"ams"}]}}}"#.to_string()),
    };
    let data = parse(r#"{"platform":{"regions":[{"code":"ams"}]}}"#);
    assert_eq!(client().list_regions(&reply).unwrap(), data);
    assert_eq!(client().list_secrets(&reply).unwrap(), data);
    assert_eq!(client().set_secret(&reply).unwrap(), data);
    assert_eq!(client().delete_secret(&reply).unwrap(), data);
    assert_eq!(client().restart_app(&reply).unwrap(), data);
    let failed = HttpReply::Response { status: 403, body: Ok("no".to_string()) };
    assert!(matches!(
        client().restart_app(&failed),
        Err(Failure::Transport { status: 403, .. })
    ));
}
