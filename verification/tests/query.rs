use fgp_fly::api::client::{execute_query, interpret_body, HttpReply};
use fgp_fly::failure::{Failure, FailureKind};
use serde_json::Value;

fn ok_reply(body: &str) -> HttpReply {
    HttpReply::Response { status: 200, body: Ok(body.to_string()) }
}

fn parse(text: &str) -> Value {
    serde_json::from_str(text).unwrap()
}

#[test]
fn data_with_errors_is_a_success() {
    let reply = ok_reply(
        r#"{"data":{"viewer":{"id":"u1"}},"errors":[{"message":"field x is hidden","path":["viewer","x"]}]}"#,
    );
    let data = execute_query(&reply).unwrap();
    assert_eq!(data, parse(r#"{"viewer":{"id":"u1"}}"#));
}

#[test]
fn data_without_errors_is_returned_as_it_came() {
    let reply = ok_reply(r#"{"data":{"n":1.5,"list":[1,"two",null,true],"big":18446744073709551615}}"#);
    let data = execute_query(&reply).unwrap();
    assert_eq!(data, parse(r#"{"n":1.5,"list":[1,"two",null,true],"big":18446744073709551615}"#));
}

#[test]
fn errors_without_data_are_joined_in_order() {
    let reply = ok_reply(
        r#"{"errors":[{"message":"first"},{"message":"second","path":["a",0]},{"message":"third"}]}"#,
    );
    let failure = execute_query(&reply).unwrap_err();
    assert_eq!(failure.kind(), FailureKind::Upstream);
    match &failure {
        Failure::Upstream { messages } => assert_eq!(messages, "first, second, third"),
        other => panic!("unexpected failure: {:?}", other),
    }
    assert_eq!(failure.message(), "first, second, third");
}

#[test]
fn a_single_error_is_reported_without_separator() {
    let reply = ok_reply(r#"{"data":null,"errors":[{"message":"only"}]}"#);
    let failure = execute_query(&reply).unwrap_err();
    assert_eq!(failure.message(), "only");
}

#[test]
fn no_data_and_no_errors_is_missing_data() {
    let failure = execute_query(&ok_reply("{}")).unwrap_err();
    assert_eq!(failure.kind(), FailureKind::MissingData);
    assert!(matches!(failure, Failure::MissingData));
    assert_eq!(failure.message(), "GraphQL response missing data field");
}

#[test]
fn null_data_and_empty_errors_is_missing_data() {
    let failure = execute_query(&ok_reply(r#"{"data":null,"errors":[]}"#)).unwrap_err();
    assert!(matches!(failure, Failure::MissingData));
    let failure = execute_query(&ok_reply(r#"{"data":null,"errors":null}"#)).unwrap_err();
    assert!(matches!(failure, Failure::MissingData));
}

#[test]
fn a_failing_status_is_reported_before_the_body_is_read() {
    let reply = HttpReply::Response { status: 503, body: Ok("{\"data\":{}}".to_string()) };
    let failure = execute_query(&reply).unwrap_err();
    assert_eq!(failure.kind(), FailureKind::Transport);
    match &failure {
        Failure::Transport { status, detail } => {
            assert_eq!(*status, 503);
            assert_eq!(detail, "{\"data\":{}}");
        },
        other => panic!("unexpected failure: {:?}", other),
    }
    assert_eq!(
        failure.message(),
        "GraphQL request failed: 503 Service Unavailable - {\"data\":{}}"
    );
}

#[test]
fn the_bounds_of_the_success_class() {
    for status in [199u16, 300, 404, 0, 65535] {
        let reply = HttpReply::Response { status, body: Ok(r#"{"data":1}"#.to_string()) };
        assert!(matches!(
            execute_query(&reply),
            Err(Failure::Transport { status: s, .. }) if s == status
        ));
    }
    for status in [200u16, 204, 299] {
        let reply = HttpReply::Response { status, body: Ok(r#"{"data":1}"#.to_string()) };
        assert_eq!(execute_query(&reply).unwrap(), parse("1"));
    }
}

#[test]
fn a_failing_status_with_an_unreadable_body_has_an_empty_detail() {
    let reply = HttpReply::Response { status: 500, body: Err("reset".to_string()) };
    match execute_query(&reply).unwrap_err() {
        Failure::Transport { status, detail } => {
            assert_eq!(status, 500);
            assert_eq!(detail, "");
        },
        other => panic!("unexpected failure: {:?}", other),
    }
}

#[test]
fn a_request_that_was_not_sent_is_a_transport_failure() {
    let reply = HttpReply::NotSent { reason: "timed out".to_string() };
    let failure = execute_query(&reply).unwrap_err();
    assert_eq!(failure.kind(), FailureKind::Transport);
    match &failure {
        Failure::Connection { context, cause } => {
            assert_eq!(context, "Failed to send GraphQL request");
            assert_eq!(cause, "timed out");
        },
        other => panic!("unexpected failure: {:?}", other),
    }
    assert_eq!(failure.message(), "Failed to send GraphQL request");
}

#[test]
fn a_body_that_cannot_be_read_is_a_transport_failure() {
    let reply = HttpReply::Response { status: 200, body: Err("connection closed".to_string()) };
    let failure = execute_query(&reply).unwrap_err();
    assert_eq!(failure.kind(), FailureKind::Transport);
    match &failure {
        Failure::Connection { context, cause } => {
            assert_eq!(context, "Failed to read response");
            assert_eq!(cause, "connection closed");
        },
        other => panic!("unexpected failure: {:?}", other),
    }
    assert_eq!(failure.message(), "Failed to read response");
}

#[test]
fn a_body_that_is_no_json_is_a_protocol_failure() {
    let failure = execute_query(&ok_reply("<html>nope</html>")).unwrap_err();
    assert_eq!(failure.kind(), FailureKind::Protocol);
    let expected = serde_json::from_str::<Value>("<html>nope</html>").unwrap_err().to_string();
    match &failure {
        Failure::Protocol { detail, raw } => {
            assert_eq!(detail, &expected);
            assert_eq!(raw, "<html>nope</html>");
        },
        other => panic!("unexpected failure: {:?}", other),
    }
    assert_eq!(
        failure.message(),
        format!("JSON parse error: {} | Raw: <html>nope</html>", expected)
    );
}

#[test]
fn a_protocol_failure_shows_at_most_300_characters() {
    let body: String = "x".repeat(1000);
    match execute_query(&ok_reply(&body)).unwrap_err() {
        Failure::Protocol { raw, .. } => assert_eq!(raw, "x".repeat(300)),
        other => panic!("unexpected failure: {:?}", other),
    }
    let exact: String = "y".repeat(300);
    match execute_query(&ok_reply(&exact)).unwrap_err() {
        Failure::Protocol { raw, .. } => assert_eq!(raw, exact),
        other => panic!("unexpected failure: {:?}", other),
    }
}

#[test]
fn the_prefix_counts_characters_and_never_splits_one() {
    // 299 one-byte characters, then characters of three bytes each.
    let body: String = format!("{}{}", "a".repeat(299), "\u{20ac}".repeat(10));
    match execute_query(&ok_reply(&body)).unwrap_err() {
        Failure::Protocol { raw, .. } => {
            assert_eq!(raw.chars().count(), 300);
            assert_eq!(raw, format!("{}\u{20ac}", "a".repeat(299)));
        },
        other => panic!("unexpected failure: {:?}", other),
    }
}

#[test]
fn a_document_that_is_no_envelope_is_a_protocol_failure() {
    for body in ["[1,2]", "\"text\"", "12", "null", r#"{"errors":"boom"}"#, r#"{"errors":[{"path":[]}]}"#,
        r#"{"errors":[{"message":null}]}"#, r#"{"errors":[{"message":"m","path":"p"}]}"#,
        r#"{"data":{"a":1},"errors":[7]}"#]
    {
        match execute_query(&ok_reply(body)).unwrap_err() {
            Failure::Protocol { detail, raw } => {
                assert_eq!(detail, "response is not a GraphQL envelope");
                assert_eq!(raw, body);
            },
            other => panic!("unexpected failure for {}: {:?}", body, other),
        }
    }
}

#[test]
fn members_that_the_envelope_does_not_know_are_ignored() {
    let reply = ok_reply(r#"{"extensions":{"cost":3},"data":[1,2]}"#);
    assert_eq!(execute_query(&reply).unwrap(), parse("[1,2]"));
}

#[test]
fn a_null_path_is_accepted() {
    let reply = ok_reply(r#"{"errors":[{"message":"m","path":null}]}"#);
    assert_eq!(execute_query(&reply).unwrap_err().message(), "m");
}

#[test]
fn interpret_body_judges_a_document_that_was_read() {
    let doc = parse(r#"{"data":{"k":[1]},"errors":[{"message":"partial"}]}"#);
    assert_eq!(interpret_body("ignored", Ok(doc)).unwrap(), parse(r#"{"k":[1]}"#));
    let doc = parse(r#"{"errors":[{"message":"a"},{"message":"b"}]}"#);
    assert_eq!(interpret_body("", Ok(doc)).unwrap_err().message(), "a, b");
    assert!(matches!(interpret_body("", Ok(parse("{}"))), Err(Failure::MissingData)));
    match interpret_body("[1]", Ok(parse("[1]"))).unwrap_err() {
        Failure::Protocol { detail, raw } => {
            assert_eq!(detail, "response is not a GraphQL envelope");
            assert_eq!(raw, "[1]");
        },
        other => panic!("unexpected failure: {:?}", other),
    }
}

#[test]
fn interpret_body_reports_the_error_of_reading() {
    let body = "z".repeat(301);
    match interpret_body(&body, Err("expected value at line 1 column 1".to_string())).unwrap_err()
    {
        Failure::Protocol { detail, raw } => {
            assert_eq!(detail, "expected value at line 1 column 1");
            assert_eq!(raw, "z".repeat(300));
        },
        other => panic!("unexpected failure: {:?}", other),
    }
}

#[test]
fn three_errors_without_data_give_their_messages_and_nothing_else() {
    let reply = ok_reply(r#"{"errors":[{"message":"zeta"},{"message":"alpha"},{"message":"mid"}]}"#);
    let failure = execute_query(&reply).unwrap_err();
    assert_eq!(failure.kind(), FailureKind::Upstream);
    assert_eq!(failure.message(), "zeta, alpha, mid");
}

#[test]
fn the_status_is_shown_with_its_reason() {
    let message = |status: u16| {
        execute_query(&HttpReply::Response { status, body: Ok("boom".to_string()) })
            .unwrap_err()
            .message()
    };
    assert_eq!(message(500), "GraphQL request failed: 500 Internal Server Error - boom");
    assert_eq!(message(404), "GraphQL request failed: 404 Not Found - boom");
    assert_eq!(message(401), "GraphQL request failed: 401 Unauthorized - boom");
    assert_eq!(message(100), "GraphQL request failed: 100 Continue - boom");
    assert_eq!(message(599), "GraphQL request failed: 599 <unknown status code> - boom");
    assert_eq!(message(999), "GraphQL request failed: 999 <unknown status code> - boom");
}

#[test]
fn a_number_that_is_no_status_code_is_shown_bare() {
    let message = |status: u16| {
        execute_query(&HttpReply::Response { status, body: Ok("boom".to_string()) })
            .unwrap_err()
            .message()
    };
    assert_eq!(message(99), "GraphQL request failed: 99 - boom");
    assert_eq!(message(0), "GraphQL request failed: 0 - boom");
    assert_eq!(message(1000), "GraphQL request failed: 1000 - boom");
    assert_eq!(message(65535), "GraphQL request failed: 65535 - boom");
}
