use lumo::parser::{extract_action_json, parse_response};

#[test]
fn test_extract_action_json() {
    let response = "<tool_call>\n{\"name\": \"final_answer\", \"arguments\": {\"answer\": \"This is the final answer\"}}\n</tool_call>";
    let json_str = extract_action_json(response);
    assert_eq!(
        json_str,
        Some(
            "{\"name\": \"final_answer\", \"arguments\": {\"answer\": \"This is the final answer\"}}"
                .to_string()
        )
    );
}

#[test]
fn test_parse_response() {
    let response = "Okay, let's check the weather in Eindhoven.\n\n<tool_call>\n{\"name\": \"search\", \"arguments\": {\"query\": \"weather in eindhoven\"}}\n</tool_call>";
    let json_str = parse_response(response).unwrap();
    println!("json_str: {}", json_str.arguments);
}

#[test]
fn marker_round_trip_recovers_request() {
    let response = "I should call x next.\nAction: {\"name\":\"x\",\"arguments\":{\"a\":1}}\nObservation pending.";
    let req = parse_response(response).unwrap();
    assert_eq!(req.name, "x");
    assert_eq!(req.arguments, "{\"a\":1}");
    let id = req.id.unwrap();
    assert!(id.starts_with("call_"));
    assert_eq!(id.chars().count(), 26);
}

#[test]
fn marker_round_trip_with_raw_newline_in_string() {
    let response = "Action: {\"name\":\"x\",\"arguments\":{\"a\":1,\"note\":\"line one\nline two\"}}";
    let req = parse_response(response).unwrap();
    assert_eq!(req.name, "x");
    let value: serde_json::Value = serde_json::from_str(&req.arguments).unwrap();
    assert_eq!(value["a"], serde_json::Value::from(1));
    assert_eq!(value["note"].as_str().unwrap(), "line one\nline two");
}

#[test]
fn tag_round_trip_recovers_equivalent_request() {
    let response = "<tool_call>\n{\"name\":\"x\",\"arguments\":{\"a\":1}}\n</tool_call>";
    let req = parse_response(response).unwrap();
    assert_eq!(req.name, "x");
    assert_eq!(req.arguments, "{\"a\":1}");
}

#[test]
fn parsing_twice_is_idempotent_modulo_ids() {
    let response = "Action: {\"name\":\"search\",\"arguments\":{\"query\":\"q\"}}";
    let first = parse_response(response).unwrap();
    let second = parse_response(response).unwrap();
    assert_eq!(first.name, second.name);
    assert_eq!(first.arguments, second.arguments);
}

#[test]
fn no_candidate_is_reported_distinctly() {
    let err = parse_response("Just thinking out loud, no action here.").unwrap_err();
    assert_eq!(err.message(), "No valid action JSON found");
}

#[test]
fn malformed_candidate_is_a_parsing_error() {
    let err = parse_response("Action: {this is not json}").unwrap_err();
    assert!(matches!(err, lumo::types::AgentError::Parsing(_)));
    assert!(err.message().starts_with("Invalid action JSON: "));
    assert_ne!(err.message(), "No valid action JSON found");
}

#[test]
fn marker_without_braces_falls_back_to_tags() {
    let response = "<tool_call> {\"name\":\"t\",\"arguments\":{}} </tool_call> Action: none taken";
    let req = parse_response(response).unwrap();
    assert_eq!(req.name, "t");
    assert_eq!(req.arguments, "{}");
}

#[test]
fn missing_name_field_is_a_parsing_error() {
    let err = parse_response("Action: {\"arguments\":{\"a\":2}}").unwrap_err();
    assert_eq!(err.message(), "Invalid action JSON: no string name field");
}

#[test]
fn missing_arguments_field_is_a_parsing_error() {
    let err = parse_response("Action: {\"name\":\"x\"}").unwrap_err();
    assert_eq!(err.message(), "Invalid action JSON: no arguments field");
}

#[test]
fn marker_remainder_reaches_past_a_second_marker() {
    let response = "Action: not yet decided Action: {\"name\":\"b\",\"arguments\":{}}";
    let req = parse_response(response).unwrap();
    assert_eq!(req.name, "b");
    let spanning =
        "Action: {\"name\":\"a\",\"arguments\":{}} then Action: {\"name\":\"b\",\"arguments\":{}}";
    let err = parse_response(spanning).unwrap_err();
    assert!(err.message().starts_with("Invalid action JSON: "));
}

#[test]
fn tagged_block_must_be_a_braced_object() {
    let response = "<tool_call>just words</tool_call>";
    let err = parse_response(response).unwrap_err();
    assert_eq!(err.message(), "No valid action JSON found");
}

#[test]
fn outermost_brace_span_tolerates_nested_objects() {
    let response = "Action: {\"name\":\"x\",\"arguments\":{\"inner\":{\"b\":2}}} done";
    let req = parse_response(response).unwrap();
    assert_eq!(req.arguments, "{\"inner\":{\"b\":2}}");
}
