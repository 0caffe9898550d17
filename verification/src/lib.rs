//! Single-step action resolver and dispatcher for a tool-using agent.
//!
//! Given the free text and structured action requests that a reasoning model
//! produced for one step, this library decides what the step does: emit a
//! final answer, recover an action from free text, or classify the requests
//! into terminal-answer, sub-agent delegation and ordinary tool invocations,
//! with the ordering and failure-isolation rules that the step record must
//! obey.  Executing the planned actions (model calls, tool calls, sub-agent
//! runs) is left to the surrounding program; every decision taken here is
//! verified.

pub mod agent;
pub mod catalog;
pub mod dispatch;
pub mod parser;
pub mod record;
pub mod text;
pub mod types;
