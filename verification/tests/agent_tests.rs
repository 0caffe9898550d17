use lumo::agent::{
    FunctionCallingAgent, FunctionCallingAgentBuilder, DEFAULT_MAX_STEPS,
    TOOL_CALLING_SYSTEM_PROMPT,
};
use lumo::record::StepRecord;
use lumo::types::{AgentError, AgentSpec, ToolSpec};

fn tool(name: &str) -> ToolSpec {
    ToolSpec {
        name: name.to_string(),
        description: String::new(),
        parameters: "{}".to_string(),
    }
}

#[test]
fn builder_defaults_fill_in() {
    let agent = FunctionCallingAgentBuilder::new().build().unwrap();
    assert_eq!(agent.name(), "FunctionCallingAgent");
    assert_eq!(agent.get_system_prompt(), TOOL_CALLING_SYSTEM_PROMPT);
    assert_eq!(agent.get_max_steps(), DEFAULT_MAX_STEPS);
    assert_eq!(agent.get_step_number(), 0);
    assert_eq!(agent.get_task(), "");
    assert!(agent.get_planning_interval().is_none());
    assert!(agent.logs().is_empty());
}

#[test]
fn builder_keeps_what_was_configured() {
    let agents = vec![AgentSpec {
        name: "researcher".to_string(),
        description: "digs".to_string(),
    }];
    let agent = FunctionCallingAgentBuilder::new()
        .with_name(Some("orchestrator"))
        .with_tools(vec![tool("search")])
        .with_system_prompt(Some("prompt"))
        .with_managed_agents(agents)
        .with_description(Some("runs the show"))
        .with_max_steps(Some(3))
        .with_planning_interval(Some(2))
        .with_history(None)
        .with_logging_level(None)
        .build()
        .unwrap();
    assert_eq!(agent.name(), "orchestrator");
    assert_eq!(agent.description(), "runs the show");
    assert_eq!(agent.get_system_prompt(), "prompt");
    assert_eq!(agent.get_max_steps(), 3);
    assert_eq!(agent.get_planning_interval(), Some(2));
    let names = agent.managed_agent_names();
    assert_eq!(names, vec!["researcher".to_string()]);
    let catalog = agent.step_catalog().unwrap();
    assert_eq!(catalog.len(), 2);
    assert_eq!(catalog[0].name, "search");
    assert_eq!(catalog[1].name, "researcher");
}

#[test]
fn empty_agent_name_fails_construction() {
    let err = FunctionCallingAgent::new(
        None,
        Vec::new(),
        None,
        vec![AgentSpec { name: String::new(), description: String::new() }],
        None,
        None,
        None,
        None,
        None,
    )
    .unwrap_err();
    assert!(matches!(err, AgentError::Configuration(_)));
}

#[test]
fn step_counter_and_task_round_trip() {
    let mut agent = FunctionCallingAgentBuilder::new().build().unwrap();
    agent.set_task("count things");
    assert_eq!(agent.get_task(), "count things");
    agent.increment_step_number();
    agent.increment_step_number();
    assert_eq!(agent.get_step_number(), 2);
    agent.set_step_number(7);
    assert_eq!(agent.get_step_number(), 7);
    agent.reset_step_number();
    assert_eq!(agent.get_step_number(), 0);
    agent.push_log(StepRecord::new(0));
    assert_eq!(agent.logs().len(), 1);
    assert!(!agent.logs()[0].is_terminal());
}
