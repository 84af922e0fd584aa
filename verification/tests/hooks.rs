use fgp_fly::api::client::HttpReply;
use fgp_fly::failure::Failure;
use fgp_fly::health::Startup;
use fgp_fly::methods::MethodInfo;
use fgp_fly::service::{FlyService, Params, HEALTH_SUBSYSTEM};
use serde_json::Value;

fn service() -> FlyService {
    FlyService::new("token".to_string())
}

fn ok_reply(body: &str) -> HttpReply {
    HttpReply::Response { status: 200, body: Ok(body.to_string()) }
}

#[test]
fn start_with_an_identity_is_verified() {
    let found = service().on_start(&ok_reply(r#"{"data":{"viewer":{"id":"u"}}}"#)).unwrap();
    assert_eq!(found, Startup::Verified);
    assert_eq!(found.message(), "Fly.io API connection verified");
}

#[test]
fn start_with_an_empty_identity_goes_on() {
    let found = service().on_start(&ok_reply(r#"{"data":{"viewer":{"id":""}}}"#)).unwrap();
    assert_eq!(found, Startup::EmptyViewer);
    assert_eq!(found.message(), "Fly.io API returned empty viewer ID");
}

#[test]
fn start_without_an_answer_fails() {
    let reply = HttpReply::NotSent { reason: "refused".to_string() };
    assert!(matches!(service().on_start(&reply), Err(Failure::Connection { .. })));
}

#[test]
fn health_check_of_a_connected_service() {
    let checks = service().health_check(&ok_reply(r#"{"data":{"viewer":{"id":"u"}}}"#));
    assert_eq!(checks.len(), 1);
    assert_eq!(HEALTH_SUBSYSTEM, "fly_api");
    let status = checks.get("fly_api").unwrap();
    assert!(status.ok);
    assert_eq!(status.message, None);
    assert!(checks.get("other").is_none());
}

#[test]
fn health_check_of_an_empty_identity() {
    let checks = service().health_check(&ok_reply(r#"{"data":{"viewer":{"id":""}}}"#));
    assert_eq!(checks.len(), 1);
    let status = checks.get("fly_api").unwrap();
    assert!(!status.ok);
    assert_eq!(status.message.as_deref(), Some("Empty viewer ID"));
}

#[test]
fn health_check_turns_a_failure_into_a_reason() {
    let reply = HttpReply::Response { status: 502, body: Ok("bad gateway".to_string()) };
    let checks = service().health_check(&reply);
    assert_eq!(checks.len(), 1);
    let status = checks.get("fly_api").unwrap();
    assert!(!status.ok);
    assert_eq!(
        status.message.as_deref(),
        Some("GraphQL request failed: 502 Bad Gateway - bad gateway")
    );
    let reply = HttpReply::Response { status: 500, body: Ok("boom".to_string()) };
    let checks = service().health_check(&reply);
    assert_eq!(
        checks.get("fly_api").unwrap().message.as_deref(),
        Some("GraphQL request failed: 500 Internal Server Error - boom")
    );
    let checks = service().health_check(&HttpReply::NotSent { reason: "down".to_string() });
    let status = checks.get("fly_api").unwrap();
    assert!(!status.ok);
    assert_eq!(status.message.as_deref(), Some("Failed to send GraphQL request"));
}

fn names_of(method: &MethodInfo) -> Vec<&str> {
    method.params.iter().map(|p| p.name.as_str()).collect()
}

#[test]
fn the_method_list() {
    let methods = service().method_list();
    let names: Vec<&str> = methods.iter().map(|m| m.name.as_str()).collect();
    assert_eq!(
        names,
        vec![
            "fly.apps",
            "fly.status",
            "fly.machines",
            "fly.user",
            "fly.regions",
            "fly.secrets",
            "fly.restart"
        ]
    );
    let descriptions: Vec<&str> = methods.iter().map(|m| m.description.as_str()).collect();
    assert_eq!(
        descriptions,
        vec![
            "List all Fly.io apps",
            "Get status for a specific app",
            "List machines for an app",
            "Get current user info",
            "List all Fly.io regions",
            "Manage secrets for an app",
            "Restart all machines for an app"
        ]
    );
    assert_eq!(names_of(&methods[0]), vec!["limit"]);
    assert_eq!(methods[0].params[0].param_type, "integer");
    assert!(!methods[0].params[0].required);
    assert_eq!(methods[0].params[0].default, Some(Value::from(25)));
    for i in [1usize, 2, 6] {
        assert_eq!(names_of(&methods[i]), vec!["app"]);
        assert_eq!(methods[i].params[0].param_type, "string");
        assert!(methods[i].params[0].required);
        assert_eq!(methods[i].params[0].default, None);
    }
    assert!(methods[3].params.is_empty());
    assert!(methods[4].params.is_empty());
    assert_eq!(names_of(&methods[5]), vec!["app", "action", "key", "value"]);
    let secrets = &methods[5].params;
    assert!(secrets[0].required);
    assert!(!secrets[1].required && !secrets[2].required && !secrets[3].required);
    assert_eq!(secrets[1].default, Some(Value::String("list".to_string())));
    assert_eq!(secrets[2].default, None);
    assert_eq!(secrets[3].default, None);
    assert!(secrets.iter().all(|p| p.param_type == "string"));
}

#[test]
fn every_listed_method_is_served() {
    let mut params = Params::new();
    params.insert("app".to_string(), Value::String("web".to_string()));
    for method in service().method_list() {
        assert!(service().dispatch(&method.name, &params).is_ok(), "{}", method.name);
    }
}

#[test]
fn every_required_parameter_is_required() {
    for method in service().method_list() {
        for p in method.params.iter().filter(|p| p.required) {
            match service().dispatch(&method.name, &Params::new()).unwrap_err() {
                Failure::Parameter { name, .. } => assert_eq!(name, p.name),
                other => panic!("unexpected failure: {:?}", other),
            }
        }
    }
}
