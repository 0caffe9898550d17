//! The catalog builder: the ordered list of action descriptors — tools
//! first, then sub-agent delegates — advertised to the model for one step,
//! and the generation constraints supplied with every invocation.

use vstd::prelude::*;
use vstd::string::StringExecFns;

use crate::types::{ActionDescriptor, AgentError, AgentSpec, GenerationConstraints, ToolSpec};

verus! {

/// The JSON parameter schema synthesized for every delegate descriptor: a
/// single string field for the task to perform.
pub const DELEGATE_PARAMETERS: &'static str = "{\"type\":\"object\",\"properties\":{\"task\":{\"type\":\"string\",\"description\":\"The task to perform\"}}}";

/// The stop sequence supplied with every model invocation, so the model does
/// not continue past an observation marker.
pub const OBSERVATION_STOP: &'static str = "Observation:";

/// The generation constraints the step always supplies: exactly the one
/// observation stop sequence.
pub fn default_constraints() -> (r: GenerationConstraints)
    ensures
        r.stop_sequences@.len() == 1,
        r.stop_sequences@[0]@ == OBSERVATION_STOP@,
{
    GenerationConstraints { stop_sequences: vec![String::from_str(OBSERVATION_STOP)] }
}

/// Every tool and sub-agent name is non-empty.
pub open spec fn catalog_well_formed(tools: Seq<ToolSpec>, agents: Seq<AgentSpec>) -> bool {
    (forall|i: int| 0 <= i < tools.len() ==> (#[trigger] tools[i]).name@.len() > 0) && (forall|
        j: int,
    | 0 <= j < agents.len() ==> (#[trigger] agents[j]).name@.len() > 0)
}

/// Whether the caller-supplied tool and sub-agent sets are well formed.
pub fn check_well_formed(tools: &Vec<ToolSpec>, agents: &Vec<AgentSpec>) -> (b: bool)
    ensures
        b == catalog_well_formed(tools@, agents@),
{
    let mut i: usize = 0;
    while i < tools.len()
        invariant
            i <= tools@.len(),
            forall|k: int| 0 <= k < i ==> (#[trigger] tools@[k]).name@.len() > 0,
        decreases tools@.len() - i,
    {
        if tools[i].name.as_str().is_empty() {
            return false;
        }
        i += 1;
    }
    let mut j: usize = 0;
    while j < agents.len()
        invariant
            j <= agents@.len(),
            forall|k: int| 0 <= k < tools@.len() ==> (#[trigger] tools@[k]).name@.len() > 0,
            forall|k: int| 0 <= k < j ==> (#[trigger] agents@[k]).name@.len() > 0,
        decreases agents@.len() - j,
    {
        if agents[j].name.as_str().is_empty() {
            return false;
        }
        j += 1;
    }
    true
}

/// What a built catalog holds for the given tools and sub-agents: one
/// descriptor per tool first, in order and field for field, then one
/// delegate descriptor per sub-agent, in order, with the agent's name and
/// description and the synthesized task schema.
pub open spec fn catalog_post(
    tools: Seq<ToolSpec>,
    agents: Seq<AgentSpec>,
    cat: Seq<ActionDescriptor>,
) -> bool {
    &&& cat.len() == tools.len() + agents.len()
    &&& (forall|i: int|
        0 <= i < tools.len() ==> (#[trigger] cat[i]).name@ == tools[i].name@ && cat[i].description@
            == tools[i].description@ && cat[i].parameters@ == tools[i].parameters@)
    &&& (forall|j: int|
        0 <= j < agents.len() ==> (#[trigger] cat[tools.len() + j]).name@ == agents[j].name@
            && cat[tools.len() + j].description@ == agents[j].description@ && cat[tools.len()
            + j].parameters@ == DELEGATE_PARAMETERS@)
}

/// Build the catalog advertised to the model: every tool's descriptor first,
/// in order, then one delegate descriptor per sub-agent, in order, each
/// delegate carrying the synthesized task schema.  Fails with a
/// configuration error exactly when a tool or sub-agent name is empty.
pub fn build_catalog(tools: &Vec<ToolSpec>, agents: &Vec<AgentSpec>) -> (r: Result<
    Vec<ActionDescriptor>,
    AgentError,
>)
    ensures
        r is Ok <==> catalog_well_formed(tools@, agents@),
        r matches Ok(cat) ==> catalog_post(tools@, agents@, cat@),
        r is Err ==> r->Err_0 is Configuration,
{
    if !check_well_formed(tools, agents) {
        return Err(
            AgentError::Configuration(
                String::from_str("tool and managed agent names must not be empty"),
            ),
        );
    }
    let mut cat: Vec<ActionDescriptor> = Vec::new();
    let mut i: usize = 0;
    while i < tools.len()
        invariant
            i <= tools@.len(),
            cat@.len() == i,
            forall|k: int|
                0 <= k < i ==> (#[trigger] cat@[k]).name@ == tools@[k].name@
                    && cat@[k].description@ == tools@[k].description@ && cat@[k].parameters@
                    == tools@[k].parameters@,
        decreases tools@.len() - i,
    {
        cat.push(
            ActionDescriptor {
                name: tools[i].name.clone(),
                description: tools[i].description.clone(),
                parameters: tools[i].parameters.clone(),
            },
        );
        i += 1;
    }
    let mut j: usize = 0;
    while j < agents.len()
        invariant
            j <= agents@.len(),
            cat@.len() == tools@.len() + j,
            forall|k: int|
                0 <= k < tools@.len() ==> (#[trigger] cat@[k]).name@ == tools@[k].name@
                    && cat@[k].description@ == tools@[k].description@ && cat@[k].parameters@
                    == tools@[k].parameters@,
            forall|k: int|
                0 <= k < j ==> (#[trigger] cat@[tools@.len() + k]).name@ == agents@[k].name@
                    && cat@[tools@.len() + k].description@ == agents@[k].description@ && cat@[tools@.len()
                    + k].parameters@ == DELEGATE_PARAMETERS@,
        decreases agents@.len() - j,
    {
        cat.push(
            ActionDescriptor {
                name: agents[j].name.clone(),
                description: agents[j].description.clone(),
                parameters: String::from_str(DELEGATE_PARAMETERS),
            },
        );
        j += 1;
    }
    Ok(cat)
}

} // verus!
