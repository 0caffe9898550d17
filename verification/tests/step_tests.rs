use lumo::catalog::{build_catalog, default_constraints, DELEGATE_PARAMETERS};
use lumo::dispatch::{plan_dispatch, resolve_model_turn, StepDirective};
use lumo::record::{StepRecord, NO_ACTION_MESSAGE};
use lumo::types::{ActionRequest, AgentError, AgentSpec, ModelTurnResult, ToolSpec};

fn tool(name: &str) -> ToolSpec {
    ToolSpec {
        name: name.to_string(),
        description: format!("the {} tool", name),
        parameters: "{\"type\":\"object\",\"properties\":{}}".to_string(),
    }
}

fn agent(name: &str) -> AgentSpec {
    AgentSpec { name: name.to_string(), description: format!("the {} agent", name) }
}

fn request(name: &str, arguments: &str) -> ActionRequest {
    ActionRequest { id: None, name: name.to_string(), arguments: arguments.to_string() }
}

#[test]
fn catalog_lists_tools_then_delegates() {
    let tools = vec![tool("search"), tool("calculator")];
    let agents = vec![agent("researcher")];
    let catalog = build_catalog(&tools, &agents).unwrap();
    assert_eq!(catalog.len(), 3);
    assert_eq!(catalog[0].name, "search");
    assert_eq!(catalog[1].name, "calculator");
    assert_eq!(catalog[2].name, "researcher");
    assert_eq!(catalog[2].description, "the researcher agent");
    assert_eq!(catalog[2].parameters, DELEGATE_PARAMETERS);
    let schema: serde_json::Value = serde_json::from_str(&catalog[2].parameters).unwrap();
    assert_eq!(schema["properties"]["task"]["type"].as_str().unwrap(), "string");
}

#[test]
fn empty_tool_name_is_a_configuration_error() {
    let tools = vec![tool("")];
    let err = build_catalog(&tools, &Vec::new()).unwrap_err();
    assert!(matches!(err, AgentError::Configuration(_)));
}

#[test]
fn constraints_carry_the_observation_stop() {
    let constraints = default_constraints();
    assert_eq!(constraints.stop_sequences, vec!["Observation:".to_string()]);
}

#[test]
fn terminal_request_short_circuits_later_actions() {
    let requests = vec![
        request("hammer", "{}"),
        request("final_answer", "{\"answer\":\"done\"}"),
        request("saw", "{}"),
    ];
    let plan = plan_dispatch(&requests, &Vec::new());
    let terminal = plan.terminal.expect("terminal request expected");
    assert_eq!(terminal.name, "final_answer");
    assert!(plan.tools.is_empty());
    assert!(plan.delegations.is_empty());
    let mut record = StepRecord::new(0);
    record.finish_terminal("done".to_string());
    assert!(record.is_terminal());
    assert_eq!(record.final_answer.as_deref(), Some("done"));
    assert_eq!(record.observations, Some(vec!["done".to_string()]));
}

#[test]
fn free_text_without_action_is_the_final_answer() {
    let turn = ModelTurnResult {
        text: Some("The capital of France is Paris.".to_string()),
        requests: Vec::new(),
    };
    let mut record = StepRecord::new(3);
    let directive = resolve_model_turn(&mut record, &turn, &Vec::new()).unwrap();
    assert!(matches!(directive, StepDirective::Finished));
    assert!(record.is_terminal());
    assert_eq!(record.final_answer.as_deref(), Some("The capital of France is Paris."));
    assert_eq!(record.observations, Some(vec!["The capital of France is Paris.".to_string()]));
    assert_eq!(record.llm_output.as_deref(), Some("The capital of France is Paris."));
}

#[test]
fn blank_text_yields_one_synthetic_observation() {
    let turn = ModelTurnResult { text: Some("  \n\t ".to_string()), requests: Vec::new() };
    let mut record = StepRecord::new(0);
    let directive = resolve_model_turn(&mut record, &turn, &Vec::new()).unwrap();
    assert!(matches!(directive, StepDirective::Finished));
    assert!(!record.is_terminal());
    assert_eq!(record.observations, Some(vec![NO_ACTION_MESSAGE.to_string()]));
}

#[test]
fn missing_text_yields_one_synthetic_observation() {
    let turn = ModelTurnResult { text: None, requests: Vec::new() };
    let mut record = StepRecord::new(0);
    let directive = resolve_model_turn(&mut record, &turn, &Vec::new()).unwrap();
    assert!(matches!(directive, StepDirective::Finished));
    assert!(!record.is_terminal());
    assert_eq!(record.observations, Some(vec![NO_ACTION_MESSAGE.to_string()]));
}

#[test]
fn malformed_text_action_aborts_the_step() {
    let turn = ModelTurnResult {
        text: Some("Action: {not json at all}".to_string()),
        requests: Vec::new(),
    };
    let mut record = StepRecord::new(0);
    let err = resolve_model_turn(&mut record, &turn, &Vec::new()).unwrap_err();
    assert!(matches!(err, AgentError::Parsing(_)));
    assert!(!record.is_terminal());
}

#[test]
fn one_failing_tool_is_isolated_from_its_siblings() {
    let requests = vec![
        request("a", "{}"),
        request("b", "{}"),
        request("c", "{}"),
        request("d", "{}"),
    ];
    let plan = plan_dispatch(&requests, &Vec::new());
    assert!(plan.terminal.is_none());
    assert_eq!(plan.tools.len(), 4);
    let outcomes = vec![
        Ok("ra".to_string()),
        Err("tool b blew up".to_string()),
        Ok("rc".to_string()),
        Ok("rd".to_string()),
    ];
    let mut record = StepRecord::new(1);
    record.finish_with_outcomes(Vec::new(), outcomes);
    assert!(!record.is_terminal());
    let obs = record.observations.unwrap();
    assert_eq!(obs.len(), 4);
    assert_eq!(obs, vec!["ra", "tool b blew up", "rc", "rd"]);
    assert_eq!(obs.iter().filter(|o| o.contains("blew up")).count(), 1);
}

#[test]
fn observations_keep_request_order_across_classes() {
    let agents = vec!["researcher".to_string(), "writer".to_string()];
    let requests = vec![
        request("hammer", "{}"),
        request("researcher", "{\"task\":\"dig into x\"}"),
        request("saw", "{}"),
        request("writer", "{\"task\":\"draft y\"}"),
        request("drill", "{}"),
    ];
    let plan = plan_dispatch(&requests, &agents);
    assert!(plan.terminal.is_none());
    assert_eq!(plan.delegations.len(), 2);
    assert_eq!(plan.delegations[0].request_index, 1);
    assert_eq!(plan.delegations[0].agent_name, "researcher");
    assert_eq!(plan.delegations[0].task, "dig into x");
    assert_eq!(plan.delegations[1].request_index, 3);
    assert_eq!(plan.delegations[1].task, "draft y");
    assert_eq!(plan.tools.len(), 3);
    assert_eq!(plan.tools[0].request_index, 0);
    assert_eq!(plan.tools[1].request_index, 2);
    assert_eq!(plan.tools[2].request_index, 4);
    let delegation_obs = vec!["delegation1".to_string(), "delegation2".to_string()];
    let outcomes = vec![
        Ok("tool1".to_string()),
        Ok("tool2".to_string()),
        Ok("tool3".to_string()),
    ];
    let mut record = StepRecord::new(2);
    record.finish_with_outcomes(delegation_obs, outcomes);
    assert_eq!(
        record.observations.unwrap(),
        vec!["delegation1", "delegation2", "tool1", "tool2", "tool3"]
    );
}

#[test]
fn delegation_without_task_is_skipped() {
    let agents = vec!["researcher".to_string()];
    let requests = vec![request("researcher", "{\"question\":\"no task field\"}")];
    let plan = plan_dispatch(&requests, &agents);
    assert!(plan.delegations.is_empty());
    assert!(plan.tools.is_empty());
    assert!(plan.terminal.is_none());
}

#[test]
fn structured_search_request_runs_as_one_tool() {
    let agents = vec!["researcher".to_string()];
    let turn = ModelTurnResult {
        text: None,
        requests: vec![request("search", "{\"query\":\"x\"}")],
    };
    let mut record = StepRecord::new(0);
    let directive = resolve_model_turn(&mut record, &turn, &agents).unwrap();
    let plan = match directive {
        StepDirective::ExecutePlan(plan) => plan,
        StepDirective::Finished => panic!("expected a plan"),
    };
    assert!(plan.terminal.is_none());
    assert!(plan.delegations.is_empty());
    assert_eq!(plan.tools.len(), 1);
    assert_eq!(plan.tools[0].request.name, "search");
    assert_eq!(plan.tools[0].request.arguments, "{\"query\":\"x\"}");
    record.finish_with_outcomes(Vec::new(), vec![Ok("result".to_string())]);
    assert!(!record.is_terminal());
    assert_eq!(record.observations, Some(vec!["result".to_string()]));
    assert_eq!(record.tool_call.as_ref().unwrap().len(), 1);
}

#[test]
fn text_final_answer_action_ends_the_step_with_42() {
    let turn = ModelTurnResult {
        text: Some("Action: {\"name\":\"final_answer\",\"arguments\":{\"answer\":\"42\"}}".to_string()),
        requests: Vec::new(),
    };
    let mut record = StepRecord::new(0);
    let directive = resolve_model_turn(&mut record, &turn, &Vec::new()).unwrap();
    let plan = match directive {
        StepDirective::ExecutePlan(plan) => plan,
        StepDirective::Finished => panic!("expected a plan"),
    };
    let terminal = plan.terminal.expect("terminal request expected");
    assert_eq!(terminal.name, "final_answer");
    let args: serde_json::Value = serde_json::from_str(&terminal.arguments).unwrap();
    let answer = args["answer"].as_str().unwrap().to_string();
    record.finish_terminal(answer);
    assert!(record.is_terminal());
    assert_eq!(record.final_answer.as_deref(), Some("42"));
}

#[test]
fn structured_requests_win_over_text_actions() {
    let turn = ModelTurnResult {
        text: Some("Action: {\"name\":\"ignored\",\"arguments\":{}}".to_string()),
        requests: vec![request("search", "{\"query\":\"x\"}")],
    };
    let mut record = StepRecord::new(0);
    let directive = resolve_model_turn(&mut record, &turn, &Vec::new()).unwrap();
    let plan = match directive {
        StepDirective::ExecutePlan(plan) => plan,
        StepDirective::Finished => panic!("expected a plan"),
    };
    assert_eq!(plan.tools.len(), 1);
    assert_eq!(plan.tools[0].request.name, "search");
}
