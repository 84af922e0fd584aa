use fgp_fly::envelope::join_messages;
use fgp_fly::failure::Failure;
use fgp_fly::models::{GraphQLError, GraphQLResponse};
use serde_json::Value;

fn error(message: &str) -> GraphQLError {
    GraphQLError { message: message.to_string(), path: None }
}

#[test]
fn into_result_prefers_data() {
    let envelope = GraphQLResponse { data: Some(7u8), errors: Some(vec![error("boom")]) };
    assert_eq!(envelope.into_result().unwrap(), 7);
}

#[test]
fn into_result_without_data_reports_the_errors() {
    let envelope: GraphQLResponse<u8> =
        GraphQLResponse { data: None, errors: Some(vec![error("a"), error("b")]) };
    match envelope.into_result().unwrap_err() {
        Failure::Upstream { messages } => assert_eq!(messages, "a, b"),
        other => panic!("unexpected failure: {:?}", other),
    }
}

#[test]
fn into_result_without_anything_is_missing_data() {
    let envelope: GraphQLResponse<u8> = GraphQLResponse { data: None, errors: None };
    assert!(matches!(envelope.into_result(), Err(Failure::MissingData)));
    let envelope: GraphQLResponse<u8> = GraphQLResponse { data: None, errors: Some(vec![]) };
    assert!(matches!(envelope.into_result(), Err(Failure::MissingData)));
}

#[test]
fn join_messages_of_none_one_and_many() {
    assert_eq!(join_messages(&vec![]), "");
    assert_eq!(join_messages(&vec![error("one")]), "one");
    assert_eq!(join_messages(&vec![error("one"), error(""), error("three")]), "one, , three");
}

#[test]
fn from_json_reads_data_errors_and_paths() {
    let doc: Value = serde_json::from_str(
        r#"{"data":{"k":1},"errors":[{"message":"m","path":["a",2]},{"message":"n"}]}"#,
    )
    .unwrap();
    let envelope = GraphQLResponse::<Value>::from_json(&doc).unwrap();
    assert_eq!(envelope.data, Some(serde_json::from_str::<Value>(r#"{"k":1}"#).unwrap()));
    let errors = envelope.errors.unwrap();
    assert_eq!(errors.len(), 2);
    assert_eq!(errors[0].message, "m");
    assert_eq!(
        errors[0].path,
        Some(vec![Value::String("a".to_string()), Value::from(2)])
    );
    assert_eq!(errors[1].message, "n");
    assert_eq!(errors[1].path, None);
}

#[test]
fn from_json_takes_null_data_for_absent() {
    let doc: Value = serde_json::from_str(r#"{"data":null}"#).unwrap();
    let envelope = GraphQLResponse::<Value>::from_json(&doc).unwrap();
    assert!(envelope.data.is_none());
    assert!(envelope.errors.is_none());
}

#[test]
fn from_json_refuses_what_is_no_envelope() {
    for text in ["[]", "1", r#"{"errors":{}}"#, r#"{"errors":[{}]}"#] {
        let doc: Value = serde_json::from_str(text).unwrap();
        assert!(GraphQLResponse::<Value>::from_json(&doc).is_none(), "{}", text);
    }
}

#[test]
fn error_from_node() {
    let node: Value = serde_json::from_str(r#"{"message":"m","extensions":{}}"#).unwrap();
    let e = GraphQLError::from_node(&node).unwrap();
    assert_eq!(e.message, "m");
    assert!(e.path.is_none());
    let node: Value = serde_json::from_str(r#"{"message":5}"#).unwrap();
    assert!(GraphQLError::from_node(&node).is_none());
}
