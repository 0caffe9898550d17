//! The action dispatcher's decisions: resolving one model turn into what the
//! step does, and classifying requested actions into the terminal answer,
//! sequential sub-agent delegations and the concurrent tool batch.

use vstd::prelude::*;

use crate::parser::{decoded_action, extract_action_json, extract_spec, parse_response};
use crate::record::{StepRecord, NO_ACTION_MESSAGE};
use crate::text::{contains_name, name_in, trim_spec, trim_str};
use crate::types::{ActionRequest, AgentError, ModelTurnResult};

verus! {

/// Whether `n` is the reserved name that ends the step with a final answer.
pub open spec fn is_terminal_name(n: Seq<char>) -> bool {
    n == "final_answer"@
}

/// One planned delegation: the request it came from, the sub-agent to run,
/// and the task text extracted from the request's arguments.
#[derive(Debug)]
pub struct PlannedDelegation {
    pub request_index: usize,
    pub agent_name: String,
    pub task: String,
}

/// One planned ordinary tool invocation and the request it came from.
#[derive(Debug)]
pub struct PlannedTool {
    pub request_index: usize,
    pub request: ActionRequest,
}

/// How one request list is executed: delegations run first, sequentially and
/// in request order; then either the terminal request ends the step, or the
/// planned tool actions run as one concurrent batch.  When a terminal
/// request is present, tool actions are never planned: requests after the
/// terminal one are not examined, and tool requests before it are discarded
/// unlaunched.
#[derive(Debug)]
pub struct DispatchPlan {
    pub delegations: Vec<PlannedDelegation>,
    pub tools: Vec<PlannedTool>,
    pub terminal: Option<ActionRequest>,
}

/// What resolving a model turn asks the caller to do next: execute a
/// dispatch plan, or nothing — the record is already finished.
#[derive(Debug)]
pub enum StepDirective {
    ExecutePlan(DispatchPlan),
    Finished,
}

/// Index of the first terminal-answer request at or after `i`.
pub open spec fn first_terminal_from(reqs: Seq<ActionRequest>, i: int) -> Option<int>
    decreases reqs.len() - i,
{
    if i < 0 || i >= reqs.len() {
        None
    } else if is_terminal_name(reqs[i].name@) {
        Some(i)
    } else {
        first_terminal_from(reqs, i + 1)
    }
}

/// Index of the first terminal-answer request, if any.
pub open spec fn first_terminal(reqs: Seq<ActionRequest>) -> Option<int> {
    first_terminal_from(reqs, 0)
}

/// How many leading requests are classified before the scan stops: all of
/// them, or only those before the first terminal-answer request.
pub open spec fn scan_len(reqs: Seq<ActionRequest>) -> int {
    match first_terminal(reqs) {
        Some(i) => i,
        None => reqs.len() as int,
    }
}

/// A non-terminal request addressed to a known sub-agent.
pub open spec fn is_delegation_req(r: ActionRequest, agents: Seq<String>) -> bool {
    !is_terminal_name(r.name@) && name_in(agents, r.name@)
}

/// A non-terminal request addressed to anything but a known sub-agent.
pub open spec fn is_tool_req(r: ActionRequest, agents: Seq<String>) -> bool {
    !is_terminal_name(r.name@) && !name_in(agents, r.name@)
}

/// The `"task"` string field of the object decoded from an argument text,
/// when the text is valid JSON holding one; decoding depends on the text
/// alone.
pub uninterp spec fn task_of(args: Seq<char>) -> Option<Seq<char>>;

/// Relies on serde_json: `from_str::<Value>` decodes JSON text, `Value::get`
/// looks a key up in an object (`None` on other values) and `Value::as_str`
/// is `Some` exactly on JSON strings.  All of them depend on the text alone,
/// which `task_of` names.
#[verifier::external_body]
fn decode_task_field(args: &str) -> (r: Option<String>)
    ensures
        r is Some <==> task_of(args@) is Some,
        r matches Some(t) ==> task_of(args@) == Some(t@),
{
    serde_json::from_str::<serde_json::Value>(args).ok().and_then(
        |v: serde_json::Value| v.get("task").and_then(|t| t.as_str()).map(|s| s.to_string()),
    )
}

/// The request indices below `n`, in order, that are planned as delegations:
/// addressed to a known sub-agent, with a task string in their arguments.
pub open spec fn delegation_indices(reqs: Seq<ActionRequest>, agents: Seq<String>, n: int) -> Seq<
    int,
>
    decreases n,
{
    if n <= 0 {
        Seq::empty()
    } else {
        let pre = delegation_indices(reqs, agents, n - 1);
        if is_delegation_req(reqs[n - 1], agents) && task_of(reqs[n - 1].arguments@) is Some {
            pre.push(n - 1)
        } else {
            pre
        }
    }
}

/// The request indices below `n`, in order, that are planned as ordinary
/// tool invocations.
pub open spec fn tool_indices(reqs: Seq<ActionRequest>, agents: Seq<String>, n: int) -> Seq<int>
    decreases n,
{
    if n <= 0 {
        Seq::empty()
    } else {
        let pre = tool_indices(reqs, agents, n - 1);
        if is_tool_req(reqs[n - 1], agents) {
            pre.push(n - 1)
        } else {
            pre
        }
    }
}

/// Everything `plan_dispatch` promises of a plan for `reqs` against the
/// sub-agent names `agents`.
pub open spec fn plan_post(
    reqs: Seq<ActionRequest>,
    agents: Seq<String>,
    plan: DispatchPlan,
) -> bool {
    let cut = scan_len(reqs);
    let dels = delegation_indices(reqs, agents, cut);
    let tis = tool_indices(reqs, agents, cut);
    &&& (match first_terminal(reqs) {
        Some(i) => plan.terminal == Some(reqs[i]) && plan.tools@.len() == 0,
        None => plan.terminal is None && plan.tools@.len() == tis.len() && (forall|k: int|
            0 <= k < tis.len() ==> (#[trigger] plan.tools@[k]).request_index as int == tis[k]
                && plan.tools@[k].request == reqs[tis[k]]),
    })
    &&& plan.delegations@.len() == dels.len()
    &&& (forall|k: int|
        0 <= k < dels.len() ==> (#[trigger] plan.delegations@[k]).request_index as int == dels[k]
            && plan.delegations@[k].agent_name@ == reqs[dels[k]].name@ && task_of(
            reqs[dels[k]].arguments@,
        ) == Some(plan.delegations@[k].task@))
}

fn terminal_name(n: &String) -> (b: bool)
    ensures
        b == is_terminal_name(n@),
{
    let fa = String::from_str("final_answer");
    n.eq(&fa)
}

/// Classify a request list, in order, into the dispatch plan: the first
/// terminal-answer request short-circuits the scan, delegations keep their
/// request order and carry their task text, everything else is queued as a
/// tool invocation.
pub fn plan_dispatch(requests: &Vec<ActionRequest>, agent_names: &Vec<String>) -> (plan:
    DispatchPlan)
    ensures
        plan_post(requests@, agent_names@, plan),
{
    let mut delegations: Vec<PlannedDelegation> = Vec::new();
    let mut tools: Vec<PlannedTool> = Vec::new();
    let n = requests.len();
    let mut i: usize = 0;
    while i < n
        invariant
            i <= n == requests@.len(),
            first_terminal_from(requests@, 0) == first_terminal_from(requests@, i as int),
            delegations@.len() == delegation_indices(requests@, agent_names@, i as int).len(),
            forall|k: int|
                0 <= k < delegations@.len() ==> (#[trigger] delegations@[k]).request_index as int
                    == delegation_indices(requests@, agent_names@, i as int)[k]
                    && delegations@[k].agent_name@ == requests@[delegation_indices(
                    requests@,
                    agent_names@,
                    i as int,
                )[k]].name@ && task_of(
                    requests@[delegation_indices(requests@, agent_names@, i as int)[k]].arguments@,
                ) == Some(delegations@[k].task@),
            tools@.len() == tool_indices(requests@, agent_names@, i as int).len(),
            forall|k: int|
                0 <= k < tools@.len() ==> (#[trigger] tools@[k]).request_index as int
                    == tool_indices(requests@, agent_names@, i as int)[k] && tools@[k].request
                    == requests@[tool_indices(requests@, agent_names@, i as int)[k]],
        decreases n - i,
    {
        if terminal_name(&requests[i].name) {
            let t = requests[i].duplicate();
            return DispatchPlan { delegations, tools: Vec::new(), terminal: Some(t) };
        } else if contains_name(agent_names, &requests[i].name) {
            match decode_task_field(requests[i].arguments.as_str()) {
                Some(task) => {
                    delegations.push(
                        PlannedDelegation {
                            request_index: i,
                            agent_name: requests[i].name.clone(),
                            task,
                        },
                    );
                },
                None => {},
            }
        } else {
            tools.push(PlannedTool { request_index: i, request: requests[i].duplicate() });
        }
        i += 1;
    }
    DispatchPlan { delegations, tools, terminal: None }
}

fn copy_requests(v: &Vec<ActionRequest>) -> (r: Vec<ActionRequest>)
    ensures
        r@ == v@,
{
    let mut out: Vec<ActionRequest> = Vec::new();
    let mut i: usize = 0;
    while i < v.len()
        invariant
            i <= v@.len(),
            out@.len() == i,
            forall|k: int| 0 <= k < i ==> out@[k] == v@[k],
        decreases v@.len() - i,
    {
        out.push(v[i].duplicate());
        i += 1;
    }
    proof {
        assert(out@ =~= v@);
    }
    out
}

/// The model turn carries no usable free text: none at all, or only
/// whitespace.
pub open spec fn blank_text(t: Option<String>) -> bool {
    match t {
        None => true,
        Some(s) => trim_spec(s@).len() == 0,
    }
}

/// The step was aborted by a parsing error: the record is left unfinished —
/// no answer, no observations, no recorded actions beyond what stood before.
pub open spec fn aborted_by_parsing(
    old_rec: StepRecord,
    rec: StepRecord,
    r: Result<StepDirective, AgentError>,
) -> bool {
    (r matches Err(e) && e is Parsing) && rec.final_answer == old_rec.final_answer
        && rec.observations == old_rec.observations && rec.tool_call == old_rec.tool_call
}

/// What resolving a turn whose only action source is non-blank free text
/// promises: text without an action candidate is itself the final answer; a
/// candidate that does not decode as an object with a string `"name"` field
/// and an `"arguments"` field is a parsing error that leaves the record
/// unfinished; a well-formed candidate becomes the single planned request,
/// under a fresh `call_`-prefixed identifier.
pub open spec fn resolved_from_text(
    text: Seq<char>,
    agents: Seq<String>,
    old_rec: StepRecord,
    rec: StepRecord,
    r: Result<StepDirective, AgentError>,
) -> bool {
    match extract_spec(text) {
        None => (r matches Ok(dir) && dir is Finished) && (rec.final_answer matches Some(a) && a@
            == text) && (rec.observations matches Some(o) && o@.len() == 1 && o@[0]@ == text)
            && rec.tool_call is None,
        Some(c) => match decoded_action(c) {
            None => aborted_by_parsing(old_rec, rec, r),
            Some(dec) => match (dec.0, dec.1) {
                (Some(nm), Some(args)) => (r matches Ok(dir) && dir matches
                    StepDirective::ExecutePlan(p) && plan_post(rec.tool_call->Some_0@, agents, p))
                    && (rec.tool_call matches Some(tc) && tc@.len() == 1 && tc@[0].name@ == nm
                    && tc@[0].arguments@ == args && (tc@[0].id matches Some(id) && id@.len() == 26
                    && id@.subrange(0, 5) == "call_"@)) && rec.final_answer == old_rec.final_answer
                    && rec.observations == old_rec.observations,
                _ => aborted_by_parsing(old_rec, rec, r),
            },
        },
    }
}

/// Resolve one model turn against the record: structured requests are
/// planned for dispatch; with none, non-blank free text either is the final
/// answer, or — when it carries an action candidate — is parsed into a
/// single planned request, a malformed candidate being a parsing error; and
/// a turn with neither requests nor usable text finishes the record with the
/// one synthetic no-action observation.
pub fn resolve_model_turn(
    record: &mut StepRecord,
    turn: &ModelTurnResult,
    agent_names: &Vec<String>,
) -> (r: Result<StepDirective, AgentError>)
    ensures
        final(record).step == old(record).step,
        final(record).agent_memory == old(record).agent_memory,
        final(record).llm_output matches Some(o) && (match turn.text {
            Some(t) => o@ == t@,
            None => o@ == Seq::<char>::empty(),
        }),
        turn.requests@.len() > 0 ==> (r matches Ok(dir) && dir matches
            StepDirective::ExecutePlan(p) && plan_post(turn.requests@, agent_names@, p))
            && (final(record).tool_call matches Some(tc) && tc@ == turn.requests@)
            && final(record).final_answer == old(record).final_answer
            && final(record).observations == old(record).observations,
        turn.requests@.len() == 0 && blank_text(turn.text) ==> (r matches Ok(dir) && dir is
            Finished) && final(record).final_answer is None && final(record).tool_call is None
            && (final(record).observations matches Some(o) && o@.len() == 1 && o@[0]@
            == NO_ACTION_MESSAGE@),
        turn.requests@.len() == 0 && !blank_text(turn.text) ==> resolved_from_text(
            turn.text->Some_0@,
            agent_names@,
            *old(record),
            *final(record),
            r,
        ),
{
    match &turn.text {
        Some(t) => {
            record.llm_output = Some(t.clone());
        },
        None => {
            record.llm_output = Some(String::new());
        },
    }
    if turn.requests.len() > 0 {
        record.tool_call = Some(copy_requests(&turn.requests));
        let plan = plan_dispatch(&turn.requests, agent_names);
        return Ok(StepDirective::ExecutePlan(plan));
    }
    let text = match &turn.text {
        Some(t) => t.clone(),
        None => {
            record.finish_no_action();
            return Ok(StepDirective::Finished);
        },
    };
    let trimmed = trim_str(text.as_str());
    if trimmed.unicode_len() == 0 {
        record.finish_no_action();
        return Ok(StepDirective::Finished);
    }
    match extract_action_json(text.as_str()) {
        None => {
            record.tool_call = None;
            record.finish_terminal(text);
            Ok(StepDirective::Finished)
        },
        Some(_candidate) => match parse_response(text.as_str()) {
            Ok(req) => {
                let mut reqs: Vec<ActionRequest> = Vec::new();
                reqs.push(req);
                record.tool_call = Some(copy_requests(&reqs));
                let plan = plan_dispatch(&reqs, agent_names);
                Ok(StepDirective::ExecutePlan(plan))
            },
            Err(e) => Err(e),
        },
    }
}

/// A terminal-answer search lands inside the list, on a terminal name, and
/// nothing before it is terminal.
pub proof fn lemma_first_terminal_bounds(reqs: Seq<ActionRequest>, from: int)
    requires
        0 <= from,
    ensures
        match first_terminal_from(reqs, from) {
            Some(i) => from <= i < reqs.len() && is_terminal_name(reqs[i].name@) && (forall|k: int|
                from <= k < i ==> !is_terminal_name(reqs[k].name@)),
            None => forall|k: int| from <= k < reqs.len() ==> !is_terminal_name(reqs[k].name@),
        },
    decreases reqs.len() - from,
{
    if from < 0 || from >= reqs.len() {
    } else if is_terminal_name(reqs[from].name@) {
    } else {
        lemma_first_terminal_bounds(reqs, from + 1);
    }
}

/// Delegation indices stay below the scanned prefix and strictly increase.
pub proof fn lemma_delegation_indices_props(reqs: Seq<ActionRequest>, agents: Seq<String>, n: int)
    ensures
        forall|k: int|
            0 <= k < delegation_indices(reqs, agents, n).len() ==> 0 <= #[trigger] delegation_indices(
                reqs,
                agents,
                n,
            )[k] < n,
        forall|k1: int, k2: int|
            0 <= k1 < k2 < delegation_indices(reqs, agents, n).len() ==> #[trigger] delegation_indices(
                reqs,
                agents,
                n,
            )[k1] < #[trigger] delegation_indices(reqs, agents, n)[k2],
    decreases n,
{
    if n <= 0 {
    } else {
        lemma_delegation_indices_props(reqs, agents, n - 1);
        let pre = delegation_indices(reqs, agents, n - 1);
        let cur = delegation_indices(reqs, agents, n);
        if is_delegation_req(reqs[n - 1], agents) && task_of(reqs[n - 1].arguments@) is Some {
            assert(cur == pre.push(n - 1));
            assert forall|k: int| 0 <= k < cur.len() implies 0 <= #[trigger] cur[k] < n by {
                if k < pre.len() {
                    assert(cur[k] == pre[k]);
                } else {
                    assert(cur[k] == n - 1);
                }
            }
            assert forall|k1: int, k2: int| 0 <= k1 < k2 < cur.len() implies #[trigger] cur[k1]
                < #[trigger] cur[k2] by {
                if k2 < pre.len() {
                    assert(cur[k1] == pre[k1] && cur[k2] == pre[k2]);
                } else {
                    assert(cur[k2] == n - 1);
                    assert(cur[k1] == pre[k1] && pre[k1] < n - 1);
                }
            }
        } else {
            assert(cur == pre);
        }
    }
}

/// Tool indices stay below the scanned prefix and strictly increase.
pub proof fn lemma_tool_indices_props(reqs: Seq<ActionRequest>, agents: Seq<String>, n: int)
    ensures
        forall|k: int|
            0 <= k < tool_indices(reqs, agents, n).len() ==> 0 <= #[trigger] tool_indices(
                reqs,
                agents,
                n,
            )[k] < n,
        forall|k1: int, k2: int|
            0 <= k1 < k2 < tool_indices(reqs, agents, n).len() ==> #[trigger] tool_indices(
                reqs,
                agents,
                n,
            )[k1] < #[trigger] tool_indices(reqs, agents, n)[k2],
    decreases n,
{
    if n <= 0 {
    } else {
        lemma_tool_indices_props(reqs, agents, n - 1);
        let pre = tool_indices(reqs, agents, n - 1);
        let cur = tool_indices(reqs, agents, n);
        if is_tool_req(reqs[n - 1], agents) {
            assert(cur == pre.push(n - 1));
            assert forall|k: int| 0 <= k < cur.len() implies 0 <= #[trigger] cur[k] < n by {
                if k < pre.len() {
                    assert(cur[k] == pre[k]);
                } else {
                    assert(cur[k] == n - 1);
                }
            }
            assert forall|k1: int, k2: int| 0 <= k1 < k2 < cur.len() implies #[trigger] cur[k1]
                < #[trigger] cur[k2] by {
                if k2 < pre.len() {
                    assert(cur[k1] == pre[k1] && cur[k2] == pre[k2]);
                } else {
                    assert(cur[k2] == n - 1);
                    assert(cur[k1] == pre[k1] && pre[k1] < n - 1);
                }
            }
        } else {
            assert(cur == pre);
        }
    }
}

/// Law: a terminal-answer request short-circuits the step.  No tool action
/// is planned at all, every planned delegation comes from a request index
/// strictly before the first terminal request, and the terminal action is
/// exactly that request.
pub proof fn lemma_terminal_short_circuit(
    reqs: Seq<ActionRequest>,
    agents: Seq<String>,
    plan: DispatchPlan,
    i: int,
)
    requires
        plan_post(reqs, agents, plan),
        first_terminal(reqs) == Some(i),
    ensures
        plan.tools@.len() == 0,
        plan.terminal == Some(reqs[i]),
        forall|k: int|
            0 <= k < plan.delegations@.len() ==> (#[trigger] plan.delegations@[k]).request_index
                < i,
{
    lemma_first_terminal_bounds(reqs, 0);
    lemma_delegation_indices_props(reqs, agents, scan_len(reqs));
}

/// Law: the plan keeps request order within each class — planned delegations
/// come in strictly increasing request order, and so do planned tool
/// actions.  Together with the step record's finishing contract this pins
/// the observation list: delegation results in request order, then tool
/// results in request order, whatever order the tools completed in.
pub proof fn lemma_plan_keeps_request_order(
    reqs: Seq<ActionRequest>,
    agents: Seq<String>,
    plan: DispatchPlan,
)
    requires
        plan_post(reqs, agents, plan),
    ensures
        forall|k1: int, k2: int|
            0 <= k1 < k2 < plan.delegations@.len() ==> (#[trigger] plan.delegations@[k1]).request_index
                < (#[trigger] plan.delegations@[k2]).request_index,
        forall|k1: int, k2: int|
            0 <= k1 < k2 < plan.tools@.len() ==> (#[trigger] plan.tools@[k1]).request_index
                < (#[trigger] plan.tools@[k2]).request_index,
{
    lemma_delegation_indices_props(reqs, agents, scan_len(reqs));
    lemma_tool_indices_props(reqs, agents, scan_len(reqs));
}

} // verus!
