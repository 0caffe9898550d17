//! The function-calling agent's persistent state and its builder.  The
//! reasoning model, the tool implementations and the sub-agent runners live
//! with the caller; the agent holds what the step logic reads — names,
//! prompts, the catalog sources, counters and the step log.

use vstd::prelude::*;
use vstd::string::StringExecFns;

use crate::catalog::{build_catalog, catalog_post, catalog_well_formed, check_well_formed};
use crate::record::StepRecord;
use crate::types::{ActionDescriptor, AgentError, AgentSpec, LogLevel, Message, ToolSpec};

verus! {

/// The system prompt used when the caller supplies none: it asks the model
/// to answer with tool calls and to end with the terminal-answer tool.
pub const TOOL_CALLING_SYSTEM_PROMPT: &'static str =
    "You are an assistant that solves tasks by calling tools. Respond with a tool call whose arguments match the tool's schema. Cite observations before deciding the next call. When the task is solved, call the final_answer tool with your answer.";

/// The agent name used when the caller supplies none.
pub const DEFAULT_AGENT_NAME: &'static str = "FunctionCallingAgent";

/// How many steps an agent may take when the caller does not say.
pub const DEFAULT_MAX_STEPS: usize = 10;

/// A tool-calling agent's state across steps.
#[derive(Debug)]
pub struct FunctionCallingAgent {
    pub name: String,
    pub description: String,
    pub system_prompt: String,
    pub task: String,
    pub max_steps: usize,
    pub step_number: usize,
    pub planning_interval: Option<usize>,
    pub tools: Vec<ToolSpec>,
    pub managed_agents: Vec<AgentSpec>,
    pub history: Option<Vec<Message>>,
    pub logs: Vec<StepRecord>,
    pub logging_level: Option<LogLevel>,
}

/// Everything `FunctionCallingAgent::new` promises of a freshly built agent.
pub open spec fn agent_new_post(
    a: FunctionCallingAgent,
    name: Option<&str>,
    tools: Seq<ToolSpec>,
    system_prompt: Option<&str>,
    managed_agents: Seq<AgentSpec>,
    description: Option<&str>,
    max_steps: Option<usize>,
    planning_interval: Option<usize>,
    history: Option<Vec<Message>>,
    logging_level: Option<LogLevel>,
) -> bool {
    &&& a.tools@ == tools
    &&& a.managed_agents@ == managed_agents
    &&& (match name {
        Some(n) => a.name@ == n@,
        None => a.name@ == DEFAULT_AGENT_NAME@,
    })
    &&& (match system_prompt {
        Some(p) => a.system_prompt@ == p@,
        None => a.system_prompt@ == TOOL_CALLING_SYSTEM_PROMPT@,
    })
    &&& (match description {
        Some(d) => a.description@ == d@,
        None => a.description@.len() == 0,
    })
    &&& (match max_steps {
        Some(m) => a.max_steps == m,
        None => a.max_steps == DEFAULT_MAX_STEPS,
    })
    &&& a.planning_interval == planning_interval
    &&& a.history == history
    &&& a.logging_level == logging_level
    &&& a.step_number == 0
    &&& a.task@.len() == 0
    &&& a.logs@.len() == 0
}

impl FunctionCallingAgent {
    /// Build an agent, filling defaults for what the caller left out.  Fails
    /// with a configuration error exactly when a tool or sub-agent name is
    /// empty.
    pub fn new(
        name: Option<&str>,
        tools: Vec<ToolSpec>,
        system_prompt: Option<&str>,
        managed_agents: Vec<AgentSpec>,
        description: Option<&str>,
        max_steps: Option<usize>,
        planning_interval: Option<usize>,
        history: Option<Vec<Message>>,
        logging_level: Option<LogLevel>,
    ) -> (r: Result<FunctionCallingAgent, AgentError>)
        ensures
            r is Ok <==> catalog_well_formed(tools@, managed_agents@),
            r matches Ok(a) ==> agent_new_post(
                a,
                name,
                tools@,
                system_prompt,
                managed_agents@,
                description,
                max_steps,
                planning_interval,
                history,
                logging_level,
            ),
            r is Err ==> r->Err_0 is Configuration,
    {
        if !check_well_formed(&tools, &managed_agents) {
            return Err(
                AgentError::Configuration(
                    String::from_str("tool and managed agent names must not be empty"),
                ),
            );
        }
        let agent_name = match name {
            Some(n) => n.to_owned(),
            None => String::from_str(DEFAULT_AGENT_NAME),
        };
        let prompt = match system_prompt {
            Some(p) => p.to_owned(),
            None => String::from_str(TOOL_CALLING_SYSTEM_PROMPT),
        };
        let desc = match description {
            Some(d) => d.to_owned(),
            None => String::new(),
        };
        let steps = match max_steps {
            Some(m) => m,
            None => DEFAULT_MAX_STEPS,
        };
        Ok(
            FunctionCallingAgent {
                name: agent_name,
                description: desc,
                system_prompt: prompt,
                task: String::new(),
                max_steps: steps,
                step_number: 0,
                planning_interval,
                tools,
                managed_agents,
                history,
                logs: Vec::new(),
                logging_level,
            },
        )
    }

    /// The agent's name.
    pub fn name(&self) -> (r: &str)
        ensures
            r@ == self.name@,
    {
        self.name.as_str()
    }

    /// The agent's description.
    pub fn description(&self) -> (r: &str)
        ensures
            r@ == self.description@,
    {
        self.description.as_str()
    }

    /// Set the task the agent is working on.
    pub fn set_task(&mut self, task: &str)
        ensures
            final(self).task@ == task@,
            *final(self) == (FunctionCallingAgent { task: final(self).task, ..*old(self) }),
    {
        self.task = task.to_owned();
    }

    /// The task the agent is working on.
    pub fn get_task(&self) -> (r: &str)
        ensures
            r@ == self.task@,
    {
        self.task.as_str()
    }

    /// The system prompt in force.
    pub fn get_system_prompt(&self) -> (r: &str)
        ensures
            r@ == self.system_prompt@,
    {
        self.system_prompt.as_str()
    }

    /// The planning interval, if one was configured.
    pub fn get_planning_interval(&self) -> (r: Option<usize>)
        ensures
            r == self.planning_interval,
    {
        self.planning_interval
    }

    /// Set the planning interval.
    pub fn set_planning_interval(&mut self, planning_interval: Option<usize>)
        ensures
            *final(self) == (FunctionCallingAgent { planning_interval, ..*old(self) }),
    {
        self.planning_interval = planning_interval;
    }

    /// The step budget.
    pub fn get_max_steps(&self) -> (r: usize)
        ensures
            r == self.max_steps,
    {
        self.max_steps
    }

    /// The current step number.
    pub fn get_step_number(&self) -> (r: usize)
        ensures
            r == self.step_number,
    {
        self.step_number
    }

    /// Set the current step number.
    pub fn set_step_number(&mut self, step_number: usize)
        ensures
            *final(self) == (FunctionCallingAgent { step_number, ..*old(self) }),
    {
        self.step_number = step_number;
    }

    /// Reset the step counter to zero.
    pub fn reset_step_number(&mut self)
        ensures
            *final(self) == (FunctionCallingAgent { step_number: 0, ..*old(self) }),
    {
        self.step_number = 0;
    }

    /// Advance the step counter by one.
    pub fn increment_step_number(&mut self)
        requires
            old(self).step_number < usize::MAX,
        ensures
            *final(self) == (FunctionCallingAgent {
                step_number: (old(self).step_number + 1) as usize,
                ..*old(self)
            }),
    {
        self.step_number = self.step_number + 1;
    }

    /// The step records accumulated so far.
    pub fn logs(&self) -> (r: &Vec<StepRecord>)
        ensures
            r == &self.logs,
    {
        &self.logs
    }

    /// Append a finished step record to the log.
    pub fn push_log(&mut self, record: StepRecord)
        ensures
            final(self).logs@ == old(self).logs@.push(record),
            *final(self) == (FunctionCallingAgent { logs: final(self).logs, ..*old(self) }),
    {
        self.logs.push(record);
    }

    /// The names a delegation request may address.
    pub fn managed_agent_names(&self) -> (r: Vec<String>)
        ensures
            r@.len() == self.managed_agents@.len(),
            forall|i: int|
                0 <= i < r@.len() ==> (#[trigger] r@[i])@ == self.managed_agents@[i].name@,
    {
        let mut names: Vec<String> = Vec::new();
        let mut i: usize = 0;
        while i < self.managed_agents.len()
            invariant
                i <= self.managed_agents@.len(),
                names@.len() == i,
                forall|k: int|
                    0 <= k < i ==> (#[trigger] names@[k])@ == self.managed_agents@[k].name@,
            decreases self.managed_agents@.len() - i,
        {
            names.push(self.managed_agents[i].name.clone());
            i += 1;
        }
        names
    }

    /// The catalog this agent advertises for a step: its tools, then its
    /// managed agents as delegates.
    pub fn step_catalog(&self) -> (r: Result<Vec<ActionDescriptor>, AgentError>)
        ensures
            r is Ok <==> catalog_well_formed(self.tools@, self.managed_agents@),
            r matches Ok(cat) ==> catalog_post(self.tools@, self.managed_agents@, cat@),
            r is Err ==> r->Err_0 is Configuration,
    {
        build_catalog(&self.tools, &self.managed_agents)
    }
}

/// Builds a `FunctionCallingAgent` one optional part at a time.
#[derive(Debug)]
pub struct FunctionCallingAgentBuilder<'a> {
    pub name: Option<&'a str>,
    pub tools: Vec<ToolSpec>,
    pub system_prompt: Option<&'a str>,
    pub managed_agents: Vec<AgentSpec>,
    pub description: Option<&'a str>,
    pub max_steps: Option<usize>,
    pub planning_interval: Option<usize>,
    pub history: Option<Vec<Message>>,
    pub logging_level: Option<LogLevel>,
}

impl<'a> FunctionCallingAgentBuilder<'a> {
    /// A builder with nothing configured.
    pub fn new() -> (r: FunctionCallingAgentBuilder<'a>)
        ensures
            r.name is None,
            r.tools@.len() == 0,
            r.system_prompt is None,
            r.managed_agents@.len() == 0,
            r.description is None,
            r.max_steps is None,
            r.planning_interval is None,
            r.history is None,
            r.logging_level is None,
    {
        FunctionCallingAgentBuilder {
            name: None,
            tools: Vec::new(),
            system_prompt: None,
            managed_agents: Vec::new(),
            description: None,
            max_steps: None,
            planning_interval: None,
            history: None,
            logging_level: None,
        }
    }

    /// Use this agent name.
    pub fn with_name(self, name: Option<&'a str>) -> (r: FunctionCallingAgentBuilder<'a>)
        ensures
            r == (FunctionCallingAgentBuilder { name, ..self }),
    {
        FunctionCallingAgentBuilder { name, ..self }
    }

    /// Use these tools.
    pub fn with_tools(self, tools: Vec<ToolSpec>) -> (r: FunctionCallingAgentBuilder<'a>)
        ensures
            r == (FunctionCallingAgentBuilder { tools, ..self }),
    {
        FunctionCallingAgentBuilder { tools, ..self }
    }

    /// Use this system prompt.
    pub fn with_system_prompt(self, system_prompt: Option<&'a str>) -> (r:
        FunctionCallingAgentBuilder<'a>)
        ensures
            r == (FunctionCallingAgentBuilder { system_prompt, ..self }),
    {
        FunctionCallingAgentBuilder { system_prompt, ..self }
    }

    /// Use these managed sub-agents.
    pub fn with_managed_agents(self, managed_agents: Vec<AgentSpec>) -> (r:
        FunctionCallingAgentBuilder<'a>)
        ensures
            r == (FunctionCallingAgentBuilder { managed_agents, ..self }),
    {
        FunctionCallingAgentBuilder { managed_agents, ..self }
    }

    /// Use this description.
    pub fn with_description(self, description: Option<&'a str>) -> (r: FunctionCallingAgentBuilder<
        'a,
    >)
        ensures
            r == (FunctionCallingAgentBuilder { description, ..self }),
    {
        FunctionCallingAgentBuilder { description, ..self }
    }

    /// Use this step budget.
    pub fn with_max_steps(self, max_steps: Option<usize>) -> (r: FunctionCallingAgentBuilder<'a>)
        ensures
            r == (FunctionCallingAgentBuilder { max_steps, ..self }),
    {
        FunctionCallingAgentBuilder { max_steps, ..self }
    }

    /// Use this planning interval.
    pub fn with_planning_interval(self, planning_interval: Option<usize>) -> (r:
        FunctionCallingAgentBuilder<'a>)
        ensures
            r == (FunctionCallingAgentBuilder { planning_interval, ..self }),
    {
        FunctionCallingAgentBuilder { planning_interval, ..self }
    }

    /// Start from this conversation history.
    pub fn with_history(self, history: Option<Vec<Message>>) -> (r: FunctionCallingAgentBuilder<
        'a,
    >)
        ensures
            r == (FunctionCallingAgentBuilder { history, ..self }),
    {
        FunctionCallingAgentBuilder { history, ..self }
    }

    /// Ask the surrounding program for this logging verbosity.
    pub fn with_logging_level(self, logging_level: Option<LogLevel>) -> (r:
        FunctionCallingAgentBuilder<'a>)
        ensures
            r == (FunctionCallingAgentBuilder { logging_level, ..self }),
    {
        FunctionCallingAgentBuilder { logging_level, ..self }
    }

    /// Build the agent from what was configured.
    pub fn build(self) -> (r: Result<FunctionCallingAgent, AgentError>)
        ensures
            r is Ok <==> catalog_well_formed(self.tools@, self.managed_agents@),
            r matches Ok(a) ==> agent_new_post(
                a,
                self.name,
                self.tools@,
                self.system_prompt,
                self.managed_agents@,
                self.description,
                self.max_steps,
                self.planning_interval,
                self.history,
                self.logging_level,
            ),
            r is Err ==> r->Err_0 is Configuration,
    {
        FunctionCallingAgent::new(
            self.name,
            self.tools,
            self.system_prompt,
            self.managed_agents,
            self.description,
            self.max_steps,
            self.planning_interval,
            self.history,
            self.logging_level,
        )
    }
}

} // verus!
