use app_core::llm::{
    code_response, crate_plan, extract_json_span, generate_code_with_research,
    identify_required_crates, planning_request, read_reply, synthesis_request, ProtocolFault,
    PLANNING_INSTRUCTIONS, SYNTHESIS_PREAMBLE, SYNTHESIS_RULES,
};
use app_core::json::JsonValue;

#[test]
fn span_runs_from_first_open_to_last_close() {
    let span = extract_json_span("Sure! {\"crates\": [\"a\"]} hope that helps }").unwrap();
    assert_eq!(span, "{\"crates\": [\"a\"]} hope that helps }");
}

#[test]
fn span_of_bare_object_is_the_object() {
    assert_eq!(extract_json_span("{}").unwrap(), "{}");
}

#[test]
fn span_needs_open_before_close() {
    assert!(extract_json_span("} {").is_none());
    assert!(extract_json_span("{").is_none());
    assert!(extract_json_span("}").is_none());
    assert!(extract_json_span("").is_none());
    assert!(extract_json_span("plain words").is_none());
}

#[test]
fn span_counts_characters_not_bytes() {
    let span = extract_json_span("é→ {\"k\": \"ü\"} ✓").unwrap();
    assert_eq!(span, "{\"k\": \"ü\"}");
}

#[test]
fn extraction_is_idempotent() {
    let raw = "noise { \"a\": {\"b\": 1} } more } tail";
    let once = extract_json_span(raw).unwrap();
    let twice = extract_json_span(&once).unwrap();
    assert_eq!(once, twice);
}

#[test]
fn repeated_reading_gives_identical_results() {
    let raw = "Plan: {\"crates\": [\"tokio\", \"serde\"]} done";
    let first = identify_required_crates(Some(raw)).unwrap();
    let second = identify_required_crates(Some(raw)).unwrap();
    assert_eq!(first.names, second.names);
    let span = extract_json_span(raw).unwrap();
    let third = identify_required_crates(Some(&span)).unwrap();
    assert_eq!(first.names, third.names);
}

#[test]
fn plan_is_read_out_of_wrapped_reply() {
    let plan = identify_required_crates(Some("Here you go: {\"crates\": [\"serde\", \"rand\"]} bye"))
        .unwrap();
    assert_eq!(plan.names, vec!["serde".to_string(), "rand".to_string()]);
}

#[test]
fn plan_names_a_repeated_dependency_once() {
    let plan = identify_required_crates(Some("{\"crates\":[\"foo\",\"bar\",\"foo\"]}")).unwrap();
    assert_eq!(plan.names, vec!["foo".to_string(), "bar".to_string()]);
    assert_eq!(plan.len(), 2);
    let plan = identify_required_crates(Some("{\"crates\":[\"a\",\"a\",\"a\"]}")).unwrap();
    assert_eq!(plan.names, vec!["a".to_string()]);
}

#[test]
fn empty_plan_is_a_plan() {
    let plan = identify_required_crates(Some("{\"crates\": []}")).unwrap();
    assert!(plan.names.is_empty());
}

#[test]
fn reply_without_braces_is_a_protocol_error() {
    let err = identify_required_crates(Some("no json here")).unwrap_err();
    assert_eq!(err.fault, ProtocolFault::NoJsonObject);
    assert_eq!(err.raw, "no json here");
}

#[test]
fn reply_without_text_is_a_protocol_error() {
    let err = identify_required_crates(None).unwrap_err();
    assert_eq!(err.fault, ProtocolFault::NoText);
    assert_eq!(err.raw, "");
}

#[test]
fn broken_json_is_a_protocol_error_with_the_raw_text() {
    let raw = "look: {\"crates\": [\"a\", } end";
    let err = identify_required_crates(Some(raw)).unwrap_err();
    assert_eq!(err.fault, ProtocolFault::InvalidJson);
    assert_eq!(err.raw, raw);
}

#[test]
fn plan_of_wrong_shape_is_a_protocol_error() {
    for raw in [
        "{\"crate\": [\"a\"]}",
        "{\"crates\": \"a\"}",
        "{\"crates\": [\"a\", 1]}",
        "{\"crates\": null}",
    ] {
        let err = identify_required_crates(Some(raw)).unwrap_err();
        assert_eq!(err.fault, ProtocolFault::WrongShape);
        assert_eq!(err.raw, raw);
    }
}

#[test]
fn artifact_is_read_with_dependencies_and_features_verbatim() {
    let raw = "```json\n{\"dependencies\":[{\"name\":\"serde\",\"features\":[\"derive\",\"rc\"]},{\"name\":\"left-pad\",\"features\":[]}],\"code\":\"fn main(){}\"}\n```";
    let artifact = generate_code_with_research(Some(raw)).unwrap();
    assert_eq!(artifact.code, "fn main(){}");
    assert_eq!(artifact.dependencies.len(), 2);
    assert_eq!(artifact.dependencies[0].name, "serde");
    assert_eq!(artifact.dependencies[0].features, vec!["derive".to_string(), "rc".to_string()]);
    assert_eq!(artifact.dependencies[1].name, "left-pad");
    assert!(artifact.dependencies[1].features.is_empty());
    assert!(artifact.has_code());
}

#[test]
fn empty_code_is_a_valid_artifact_without_a_program() {
    let artifact = generate_code_with_research(Some("{\"dependencies\":[],\"code\":\"\"}")).unwrap();
    assert_eq!(artifact.code, "");
    assert!(!artifact.has_code());
}

#[test]
fn artifact_of_wrong_shape_is_a_protocol_error() {
    for raw in [
        "{\"code\":\"fn main(){}\"}",
        "{\"dependencies\":[]}",
        "{\"dependencies\":[{\"name\":\"a\"}],\"code\":\"x\"}",
        "{\"dependencies\":[{\"features\":[]}],\"code\":\"x\"}",
        "{\"dependencies\":[{\"name\":1,\"features\":[]}],\"code\":\"x\"}",
        "{\"dependencies\":[{\"name\":\"a\",\"features\":[1]}],\"code\":\"x\"}",
        "{\"dependencies\":{},\"code\":\"x\"}",
        "{\"dependencies\":[],\"code\":7}",
    ] {
        let err = generate_code_with_research(Some(raw)).unwrap_err();
        assert_eq!(err.fault, ProtocolFault::WrongShape);
        assert_eq!(err.raw, raw);
    }
}

#[test]
fn malformed_synthesis_reply_without_braces_fails() {
    let err = generate_code_with_research(Some("I cannot help with that.")).unwrap_err();
    assert_eq!(err.fault, ProtocolFault::NoJsonObject);
}

#[test]
fn read_reply_hands_out_the_document() {
    let doc = read_reply(Some("x {\"crates\": [\"a\"]} y")).unwrap();
    assert_eq!(doc.get("crates").unwrap().as_string_list().unwrap(), vec!["a".to_string()]);
}

#[test]
fn shape_checks_work_on_hand_built_documents() {
    let doc = JsonValue::Object(vec![
        ("other".to_string(), JsonValue::Null),
        (
            "crates".to_string(),
            JsonValue::Array(vec![JsonValue::Text("x".to_string()), JsonValue::Text("y".to_string())]),
        ),
    ]);
    assert_eq!(crate_plan(&doc).unwrap().names, vec!["x".to_string(), "y".to_string()]);
    let repeated = JsonValue::Object(vec![(
        "crates".to_string(),
        JsonValue::Array(vec![
            JsonValue::Text("x".to_string()),
            JsonValue::Text("y".to_string()),
            JsonValue::Text("x".to_string()),
        ]),
    )]);
    assert_eq!(crate_plan(&repeated).unwrap().names, vec!["x".to_string(), "y".to_string()]);
    assert!(code_response(&doc).is_none());
    assert!(crate_plan(&JsonValue::Array(vec![])).is_none());

    let artifact_doc = JsonValue::Object(vec![
        ("code".to_string(), JsonValue::Text("fn main() {}".to_string())),
        (
            "dependencies".to_string(),
            JsonValue::Array(vec![JsonValue::Object(vec![
                ("features".to_string(), JsonValue::Array(vec![JsonValue::Text("v4".to_string())])),
                ("name".to_string(), JsonValue::Text("uuid".to_string())),
            ])]),
        ),
    ]);
    let artifact = code_response(&artifact_doc).unwrap();
    assert_eq!(artifact.code, "fn main() {}");
    assert_eq!(artifact.dependencies[0].name, "uuid");
    assert_eq!(artifact.dependencies[0].features, vec!["v4".to_string()]);
}

#[test]
fn planning_request_is_worded_exactly() {
    let prompt = planning_request("sort a list", "CTX");
    assert_eq!(prompt.system, PLANNING_INSTRUCTIONS);
    assert_eq!(
        prompt.user,
        "CONTEXT:\nCTX\n\n---\n\nTASK: Based on the context, identify the crates needed to answer this query:\nsort a list"
    );
    assert!(prompt.system.starts_with("You are a Rust project planning expert."));
    assert!(prompt.system.ends_with("{\n  \"crates\": [\"linfa\", \"linfa-trees\", \"linfa-datasets\"]\n}"));
}

#[test]
fn synthesis_request_is_worded_exactly() {
    let prompt = synthesis_request("sort a list", "CTX", "RESEARCH");
    assert_eq!(prompt.system, format!("{}RESEARCH{}", SYNTHESIS_PREAMBLE, SYNTHESIS_RULES));
    assert_eq!(
        prompt.user,
        "CONTEXT:\n---\nCTX\n---\n\nTASK: Based on all provided context and research, generate a JSON response that answers the following query.\n\nQUERY: sort a list"
    );
    assert!(prompt.system.contains("# UP-TO-DATE CRATE RESEARCH\nRESEARCH\n\n# RULES\n1.  **CRITICAL**"));
    assert!(prompt.system.ends_with("you MUST use the debug formatter `{:?}`.\n"));
}
