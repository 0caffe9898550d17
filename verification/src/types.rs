//! Data carried between the stages of one step: conversation turns, the
//! catalog advertised to the model, action requests and errors.

use vstd::prelude::*;

verus! {

/// The role of one conversational turn.
#[derive(Clone, Copy, PartialEq, Eq, Structural, Debug)]
pub enum MessageRole {
    System,
    User,
    Assistant,
    ToolResponse,
}

/// One role-tagged turn of the conversation handed to the model.
#[derive(Clone, Debug)]
pub struct Message {
    pub role: MessageRole,
    pub content: String,
}

/// Verbosity asked of the surrounding program's logging; the step logic
/// itself never reads it.
#[derive(Clone, Copy, PartialEq, Eq, Structural, Debug)]
pub enum LogLevel {
    Off,
    Error,
    Warn,
    Info,
    Debug,
    Trace,
}

/// An error that ends the step before any action runs.
#[derive(Clone, Debug)]
pub enum AgentError {
    /// A caller-supplied tool or sub-agent set is malformed.
    Configuration(String),
    /// Free text was expected to carry an action but could not be decoded.
    Parsing(String),
}

impl AgentError {
    /// The error's message text.
    pub fn message(&self) -> (r: &String)
        ensures
            r@ == match self {
                AgentError::Configuration(m) => m@,
                AgentError::Parsing(m) => m@,
            },
    {
        match self {
            AgentError::Configuration(m) => m,
            AgentError::Parsing(m) => m,
        }
    }
}

/// A locally implemented tool as the catalog advertises it: its name, a
/// human-readable description and a JSON text of its parameter schema.
#[derive(Clone, Debug)]
pub struct ToolSpec {
    pub name: String,
    pub description: String,
    pub parameters: String,
}

/// A sub-agent that a step may delegate to, as the catalog advertises it.
#[derive(Clone, Debug)]
pub struct AgentSpec {
    pub name: String,
    pub description: String,
}

/// One invocable action advertised to the model: a tool or a delegate.
#[derive(Clone, Debug)]
pub struct ActionDescriptor {
    pub name: String,
    pub description: String,
    /// JSON text of the parameter schema.
    pub parameters: String,
}

/// One action the model asked for: an optional per-request identifier, the
/// target's name, and the argument payload as JSON text.
#[derive(Clone, Debug)]
pub struct ActionRequest {
    pub id: Option<String>,
    pub name: String,
    pub arguments: String,
}

impl ActionRequest {
    /// An equal copy of the request.
    pub fn duplicate(&self) -> (r: ActionRequest)
        ensures
            r == *self,
    {
        let id = match &self.id {
            Some(s) => Some(s.clone()),
            None => None,
        };
        ActionRequest { id, name: self.name.clone(), arguments: self.arguments.clone() }
    }
}

/// What one model invocation produced: optional free text and zero or more
/// structured action requests.
#[derive(Clone, Debug)]
pub struct ModelTurnResult {
    pub text: Option<String>,
    pub requests: Vec<ActionRequest>,
}

/// Generation constraints handed to the model; the step always supplies a
/// stop-sequence list.
#[derive(Clone, Debug)]
pub struct GenerationConstraints {
    pub stop_sequences: Vec<String>,
}

} // verus!
