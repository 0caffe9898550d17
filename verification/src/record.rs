//! The step record: the write-once accumulator one step produces, and the
//! verified ways of finishing it.

use vstd::prelude::*;
use vstd::string::StringExecFns;

use crate::types::{ActionRequest, Message};

verus! {

/// The synthetic observation recorded when a step takes no action at all.
pub const NO_ACTION_MESSAGE: &'static str =
    "No tool call was made. If this is the final answer, use the final_answer tool to return your answer.";

/// What one step accumulated: the memory snapshot shown to the model, the
/// model's raw free text, the action requests issued, the observations, and
/// the final answer if the step is terminal.
#[derive(Debug)]
pub struct StepRecord {
    pub step: usize,
    pub agent_memory: Option<Vec<Message>>,
    pub llm_output: Option<String>,
    pub tool_call: Option<Vec<ActionRequest>>,
    pub observations: Option<Vec<String>>,
    pub final_answer: Option<String>,
}

/// The observation text one tool outcome contributes: the tool's result on
/// success, the failure's description on failure.
pub open spec fn outcome_text(o: Result<String, String>) -> Seq<char> {
    match o {
        Ok(t) => t@,
        Err(e) => e@,
    }
}

impl StepRecord {
    /// An empty record for the step with the given index.
    pub fn new(step: usize) -> (r: StepRecord)
        ensures
            r.step == step,
            r.agent_memory is None,
            r.llm_output is None,
            r.tool_call is None,
            r.observations is None,
            r.final_answer is None,
    {
        StepRecord {
            step,
            agent_memory: None,
            llm_output: None,
            tool_call: None,
            observations: None,
            final_answer: None,
        }
    }

    /// A record is terminal exactly when a final answer has been set.
    pub fn is_terminal(&self) -> (r: bool)
        ensures
            r == (self.final_answer is Some),
    {
        self.final_answer.is_some()
    }

    /// End the step with a final answer: the answer is recorded and stands as
    /// the single observation.
    pub fn finish_terminal(&mut self, answer: String)
        ensures
            final(self).final_answer == Some(answer),
            final(self).observations matches Some(o) && o@.len() == 1 && o@[0] == answer,
            final(self).step == old(self).step,
            final(self).agent_memory == old(self).agent_memory,
            final(self).llm_output == old(self).llm_output,
            final(self).tool_call == old(self).tool_call,
    {
        self.observations = Some(vec![answer.clone()]);
        self.final_answer = Some(answer);
    }

    /// End the step without an action: non-terminal, with the one synthetic
    /// observation asking for an explicit terminal answer.
    pub fn finish_no_action(&mut self)
        ensures
            final(self).final_answer is None,
            final(self).tool_call is None,
            final(self).observations matches Some(o) && o@.len() == 1 && o@[0]@
                == NO_ACTION_MESSAGE@,
            final(self).step == old(self).step,
            final(self).agent_memory == old(self).agent_memory,
            final(self).llm_output == old(self).llm_output,
    {
        self.tool_call = None;
        self.final_answer = None;
        self.observations = Some(vec![String::from_str(NO_ACTION_MESSAGE)]);
    }

    /// End the step with the outcomes of the dispatched actions: the
    /// delegation results stand first, in the order the delegations were
    /// planned, then one observation per planned tool action, in planning
    /// order — the tool's text when it succeeded, the failure's description
    /// when it failed.  A tool failure never removes or reorders a sibling's
    /// observation.
    pub fn finish_with_outcomes(
        &mut self,
        delegation_obs: Vec<String>,
        tool_outcomes: Vec<Result<String, String>>,
    )
        ensures
            final(self).observations matches Some(o) && o@.len() == delegation_obs@.len()
                + tool_outcomes@.len() && (forall|i: int|
                0 <= i < delegation_obs@.len() ==> o@[i] == delegation_obs@[i]) && (forall|j: int|
                0 <= j < tool_outcomes@.len() ==> o@[delegation_obs@.len() + j]@ == outcome_text(
                    tool_outcomes@[j],
                )),
            final(self).final_answer == old(self).final_answer,
            final(self).step == old(self).step,
            final(self).agent_memory == old(self).agent_memory,
            final(self).llm_output == old(self).llm_output,
            final(self).tool_call == old(self).tool_call,
    {
        let ghost del = delegation_obs@;
        let mut obs = delegation_obs;
        let mut j: usize = 0;
        let n = tool_outcomes.len();
        while j < n
            invariant
                j <= n == tool_outcomes@.len(),
                obs@.len() == del.len() + j,
                forall|i: int| 0 <= i < del.len() ==> obs@[i] == del[i],
                forall|k: int|
                    0 <= k < j ==> obs@[del.len() + k]@ == outcome_text(tool_outcomes@[k]),
            decreases n - j,
        {
            match &tool_outcomes[j] {
                Ok(t) => obs.push(t.clone()),
                Err(e) => obs.push(e.clone()),
            }
            j += 1;
        }
        self.observations = Some(obs);
    }
}

} // verus!
