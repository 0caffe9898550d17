//! Fallback action parser: recovers a single structured action request from
//! the free text a model produced, either from a marker-prefixed JSON block
//! or from a tagged block, exactly as `extract_spec` describes.

use vstd::prelude::*;
use vstd::string::StringExecFns;

use crate::text::{
    escape_char, escape_newlines, escape_text, find_char, lemma_find_char_bounds,
    lemma_find_from_bounds, lemma_rfind_char_bounds, rfind_char, spec_find, spec_find_char,
    spec_rfind_char, find_str, trim_spec, trim_str,
};
use crate::types::{ActionRequest, AgentError};

verus! {

/// Everything in `t` after the first occurrence of `pat`.
pub open spec fn remainder_after(t: Seq<char>, pat: Seq<char>) -> Option<Seq<char>> {
    match spec_find(t, pat) {
        Some(m) => Some(t.subrange(m + pat.len(), t.len() as int)),
        None => None,
    }
}

/// The part of `t` before the first occurrence of `pat`, or all of `t` if
/// `pat` does not occur.
pub open spec fn prefix_before(t: Seq<char>, pat: Seq<char>) -> Seq<char> {
    match spec_find(t, pat) {
        Some(k) => t.subrange(0, k),
        None => t,
    }
}

/// The candidate the marker strategy yields: within the whole remainder
/// after the first `Action:` marker, the span from the first `{` to the last
/// `}`, newline-escaped.  No candidate when the marker is absent or no such
/// span exists.
pub open spec fn marker_candidate(t: Seq<char>) -> Option<Seq<char>> {
    match remainder_after(t, "Action:"@) {
        Some(seg) => match (spec_find_char(seg, '{'), spec_rfind_char(seg, '}')) {
            (Some(b), Some(e)) => if b <= e {
                Some(escape_text(seg.subrange(b, e + 1)))
            } else {
                None
            },
            _ => None,
        },
        None => None,
    }
}

/// The candidate the tagged-block strategy yields: the trimmed content after
/// the first open tag and before the first close tag that follows it (to the
/// end of the text when no close tag follows), newline-escaped, accepted
/// only when it starts with `{` and ends with `}`.
pub open spec fn tag_candidate(t: Seq<char>) -> Option<Seq<char>> {
    match remainder_after(t, "<tool_call>"@) {
        Some(seg) => {
            let tr = trim_spec(prefix_before(seg, "</tool_call>"@));
            if tr.len() >= 1 && tr[0] == '{' && tr[tr.len() - 1] == '}' {
                Some(escape_text(tr))
            } else {
                None
            }
        },
        None => None,
    }
}

/// The candidate JSON text the extractor recovers from `t`: the marker
/// strategy's candidate when it yields one, else the tagged-block one.
pub open spec fn extract_spec(t: Seq<char>) -> Option<Seq<char>> {
    if marker_candidate(t) is Some {
        marker_candidate(t)
    } else {
        tag_candidate(t)
    }
}

/// Escaping changes nothing in text that holds no raw newline or carriage
/// return.
pub proof fn lemma_escape_text_identity(s: Seq<char>)
    requires
        forall|i: int| 0 <= i < s.len() ==> s[i] != '\n' && s[i] != '\r',
    ensures
        escape_text(s) == s,
    decreases s.len(),
{
    if s.len() == 0 {
        assert(escape_text(s) =~= s);
    } else {
        lemma_escape_text_identity(s.drop_last());
        assert(escape_char(s.last()) =~= seq![s.last()]);
        assert(escape_text(s) =~= s);
    }
}

/// Law: the extraction half of the marker round trip.  For any text of the
/// shape `p + "Action:" + s` whose first marker occurrence ends `p`, with the
/// remainder `s` holding its first `{` at `a` and its last `}` at `b >= a`,
/// the parser is handed exactly the newline-escaped span `s[a..=b]` — the
/// outermost brace span, whatever surrounds it and however many lines it
/// crosses.  What the JSON decoder then recovers is `decoded_action` of that
/// span.
pub proof fn lemma_marker_round_trip_extraction(p: Seq<char>, s: Seq<char>, a: int, b: int)
    requires
        spec_find(p + "Action:"@ + s, "Action:"@) == Some(p.len() as int),
        spec_find_char(s, '{') == Some(a),
        spec_rfind_char(s, '}') == Some(b),
        a <= b,
    ensures
        extract_spec(p + "Action:"@ + s) == Some(escape_text(s.subrange(a, b + 1))),
{
    let t = p + "Action:"@ + s;
    let rest = t.subrange(p.len() as int + "Action:"@.len() as int, t.len() as int);
    assert(rest =~= s);
}

/// Law: the extraction half of the tagged-block round trip.  For any text of
/// the shape `p + "<tool_call>" + s` whose first open tag ends `p`, when the
/// marker strategy yields nothing and the content of `s` before its first
/// close tag trims to a braced block, the parser is handed exactly that
/// trimmed block, newline-escaped — equivalent to the marker form on the
/// same object.
pub proof fn lemma_tag_round_trip_extraction(p: Seq<char>, s: Seq<char>)
    requires
        marker_candidate(p + "<tool_call>"@ + s) is None,
        spec_find(p + "<tool_call>"@ + s, "<tool_call>"@) == Some(p.len() as int),
        trim_spec(prefix_before(s, "</tool_call>"@)).len() >= 1,
        trim_spec(prefix_before(s, "</tool_call>"@)).first() == '{',
        trim_spec(prefix_before(s, "</tool_call>"@)).last() == '}',
    ensures
        extract_spec(p + "<tool_call>"@ + s) == Some(
            escape_text(trim_spec(prefix_before(s, "</tool_call>"@))),
        ),
{
    let t = p + "<tool_call>"@ + s;
    let rest = t.subrange(p.len() as int + "<tool_call>"@.len() as int, t.len() as int);
    assert(rest =~= s);
}

fn remainder_after_exec<'a>(s: &'a str, pat: &str) -> (r: Option<&'a str>)
    ensures
        match r {
            Some(seg) => remainder_after(s@, pat@) == Some(seg@),
            None => remainder_after(s@, pat@) is None,
        },
{
    match find_str(s, pat) {
        Some(m) => {
            proof {
                lemma_find_from_bounds(s@, pat@, 0);
            }
            let n = s.unicode_len();
            let p = pat.unicode_len();
            Some(s.substring_char(m + p, n))
        },
        None => None,
    }
}

fn prefix_before_exec<'a>(s: &'a str, pat: &str) -> (r: &'a str)
    ensures
        r@ == prefix_before(s@, pat@),
{
    match find_str(s, pat) {
        Some(k) => {
            proof {
                lemma_find_from_bounds(s@, pat@, 0);
            }
            s.substring_char(0, k)
        },
        None => s,
    }
}

/// Extract the candidate JSON text of one action from free model output:
/// first from a marker-prefixed block, then from a tagged block.
pub fn extract_action_json(text: &str) -> (r: Option<String>)
    ensures
        match extract_spec(text@) {
            Some(c) => r matches Some(x) && x@ == c,
            None => r is None,
        },
{
    match remainder_after_exec(text, "Action:") {
        Some(seg) => {
            let b = find_char(seg, '{');
            let e = rfind_char(seg, '}');
            proof {
                lemma_find_char_bounds(seg@, '{', 0);
                lemma_rfind_char_bounds(seg@, '}', seg@.len() - 1);
            }
            match (b, e) {
                (Some(bi), Some(ei)) => {
                    if bi <= ei {
                        return Some(escape_newlines(seg.substring_char(bi, ei + 1)));
                    }
                },
                _ => {},
            }
        },
        None => {},
    }
    assert(marker_candidate(text@) is None);
    match remainder_after_exec(text, "<tool_call>") {
        Some(seg) => {
            let content = prefix_before_exec(seg, "</tool_call>");
            let tr = trim_str(content);
            let ln = tr.unicode_len();
            if ln >= 1 && tr.get_char(0) == '{' && tr.get_char(ln - 1) == '}' {
                Some(escape_newlines(tr))
            } else {
                None
            }
        },
        None => None,
    }
}

/// What the JSON decoder recovers from a candidate text: nothing when the
/// text is not valid JSON; otherwise the decoded value's `"name"` field when
/// that field is a string, and the compact JSON text of its `"arguments"`
/// field when that field is present.
pub uninterp spec fn decoded_action(s: Seq<char>) -> Option<
    (Option<Seq<char>>, Option<Seq<char>>),
>;

/// The decoder's message for a candidate text that is not valid JSON.
pub uninterp spec fn decode_failure_of(s: Seq<char>) -> Seq<char>;

/// Relies on serde_json: `from_str::<Value>` decodes JSON text, indexing a
/// `Value` with a key that is absent (or a value that is not an object)
/// yields `Null` without panicking, `Value::get` is `Some` exactly when an
/// object carries the key, `as_str` is `Some` exactly on JSON strings, and
/// `to_string` writes the value's compact JSON text.  All of them depend on
/// the candidate text alone: `decoded_action` names what comes back on
/// success, and `decode_failure_of` names the text of serde_json's error.
#[verifier::external_body]
fn decode_action_candidate(s: &str) -> (r: Result<(Option<String>, Option<String>), String>)
    ensures
        r is Ok <==> decoded_action(s@) is Some,
        r matches Ok(p) ==> decoded_action(s@) matches Some(d) && (d.0 is Some <==> p.0 is Some)
            && (p.0 matches Some(nm) ==> d.0 == Some(nm@)) && (d.1 is Some <==> p.1 is Some) && (
        p.1 matches Some(ar) ==> d.1 == Some(ar@)),
        r matches Err(e) ==> e@ == decode_failure_of(s@),
{
    match serde_json::from_str::<serde_json::Value>(s) {
        Ok(v) => {
            let name = v["name"].as_str().map(|n| n.to_string());
            let arguments = v.get("arguments").map(|a| a.to_string());
            Ok((name, arguments))
        },
        Err(e) => Err(e.to_string()),
    }
}

/// Relies on nanoid: `format` with the default random generator and the
/// URL-safe alphabet returns an identifier of exactly 21 characters.  The
/// result is random, so nothing more is stated of it.
#[verifier::external_body]
fn fresh_nanoid() -> (r: String)
    ensures
        r@.len() == 21,
{
    nanoid::format(nanoid::rngs::default, &nanoid::alphabet::SAFE, 21)
}

/// A freshly generated identifier for a parser-synthesized request.
fn fresh_request_id() -> (r: String)
    ensures
        r@.len() == 26,
        r@.subrange(0, 5) == "call_"@,
{
    let mut out = String::from_str("call_");
    let id = fresh_nanoid();
    out.append(id.as_str());
    proof {
        reveal_strlit("call_");
        assert(out@.subrange(0, 5) =~= "call_"@);
    }
    out
}

/// The parsing error's message when no extraction strategy yields a
/// candidate.
pub const NO_ACTION_FOUND_MESSAGE: &'static str = "No valid action JSON found";

/// The prefix of every parsing error raised for a candidate that was found
/// but is malformed; it keeps "action found but malformed" tellable apart
/// from "no action found".
pub const INVALID_ACTION_PREFIX: &'static str = "Invalid action JSON: ";

/// The parsing error's message for a decoded candidate without a string
/// `"name"` field.
pub const MISSING_NAME_MESSAGE: &'static str = "Invalid action JSON: no string name field";

/// The parsing error's message for a decoded candidate without an
/// `"arguments"` field.
pub const MISSING_ARGUMENTS_MESSAGE: &'static str = "Invalid action JSON: no arguments field";

/// Everything `parse_response` promises of its result: no candidate in the
/// text yields the fixed no-action error; a candidate that is not valid
/// JSON, or decodes without a string `"name"` field or without an
/// `"arguments"` field, yields a parsing error whose message says which; a
/// well-formed candidate yields one synthesized request carrying the decoded
/// name, the decoded arguments text, and a fresh `call_`-prefixed
/// identifier.
pub open spec fn parse_post(t: Seq<char>, r: Result<ActionRequest, AgentError>) -> bool {
    match extract_spec(t) {
        None => r matches Err(e) && e matches AgentError::Parsing(m) && m@
            == NO_ACTION_FOUND_MESSAGE@,
        Some(c) => match decoded_action(c) {
            None => r matches Err(e) && e matches AgentError::Parsing(m) && m@
                == INVALID_ACTION_PREFIX@ + decode_failure_of(c),
            Some(d) => match (d.0, d.1) {
                (Some(nm), Some(args)) => r matches Ok(req) && req.name@ == nm && req.arguments@
                    == args && (req.id matches Some(id) && id@.len() == 26 && id@.subrange(0, 5)
                    == "call_"@),
                (None, _) => r matches Err(e) && e matches AgentError::Parsing(m) && m@
                    == MISSING_NAME_MESSAGE@,
                (_, None) => r matches Err(e) && e matches AgentError::Parsing(m) && m@
                    == MISSING_ARGUMENTS_MESSAGE@,
            },
        },
    }
}

/// Recover one structured action request from free model output, or say why
/// none could be recovered: the decoded candidate must be an object with a
/// string `"name"` field and an `"arguments"` field, anything else is a
/// parsing error.
pub fn parse_response(response: &str) -> (r: Result<ActionRequest, AgentError>)
    ensures
        parse_post(response@, r),
{
    match extract_action_json(response) {
        Some(candidate) => match decode_action_candidate(candidate.as_str()) {
            Ok((name_opt, args_opt)) => {
                let name = match name_opt {
                    Some(n) => n,
                    None => {
                        return Err(AgentError::Parsing(String::from_str(MISSING_NAME_MESSAGE)));
                    },
                };
                let arguments = match args_opt {
                    Some(a) => a,
                    None => {
                        return Err(
                            AgentError::Parsing(String::from_str(MISSING_ARGUMENTS_MESSAGE)),
                        );
                    },
                };
                Ok(ActionRequest { id: Some(fresh_request_id()), name, arguments })
            },
            Err(e) => {
                let mut message = String::from_str(INVALID_ACTION_PREFIX);
                message.append(e.as_str());
                Err(AgentError::Parsing(message))
            },
        },
        None => Err(AgentError::Parsing(String::from_str(NO_ACTION_FOUND_MESSAGE))),
    }
}

/// Law: "no action found" and "action found but malformed" stay tellable
/// apart — a parsing error carries the fixed no-action message exactly when
/// no extraction strategy yielded a candidate; every malformed-candidate
/// message begins with the invalid-action prefix instead.
pub proof fn lemma_parse_errors_tellable_apart(
    t: Seq<char>,
    r: Result<ActionRequest, AgentError>,
)
    requires
        parse_post(t, r),
    ensures
        r matches Err(e) ==> (e matches AgentError::Parsing(m) ==> ((m@
            == NO_ACTION_FOUND_MESSAGE@) <==> extract_spec(t) is None)),
{
    reveal_strlit("No valid action JSON found");
    reveal_strlit("Invalid action JSON: ");
    reveal_strlit("Invalid action JSON: no string name field");
    reveal_strlit("Invalid action JSON: no arguments field");
    assert(NO_ACTION_FOUND_MESSAGE@ == "No valid action JSON found"@);
    assert(INVALID_ACTION_PREFIX@ == "Invalid action JSON: "@);
    assert(MISSING_NAME_MESSAGE@ == "Invalid action JSON: no string name field"@);
    assert(MISSING_ARGUMENTS_MESSAGE@ == "Invalid action JSON: no arguments field"@);
    assert(NO_ACTION_FOUND_MESSAGE@[0] == 'N');
    assert(MISSING_NAME_MESSAGE@[0] == 'I');
    assert(MISSING_ARGUMENTS_MESSAGE@[0] == 'I');
    match extract_spec(t) {
        None => {},
        Some(c) => match decoded_action(c) {
            None => {
                let m = INVALID_ACTION_PREFIX@ + decode_failure_of(c);
                assert(m[0] == 'I');
            },
            Some(d) => {},
        },
    }
}

/// Law: the fallback parser is deterministic.  Two results of parsing the
/// same text succeed or fail together, and on success agree on the request's
/// name and arguments; only the generated identifiers may differ.
pub proof fn lemma_parser_idempotent(
    t: Seq<char>,
    r1: Result<ActionRequest, AgentError>,
    r2: Result<ActionRequest, AgentError>,
)
    requires
        parse_post(t, r1),
        parse_post(t, r2),
    ensures
        r1 is Ok <==> r2 is Ok,
        r1 is Ok && r2 is Ok ==> r1->Ok_0.name@ == r2->Ok_0.name@ && r1->Ok_0.arguments@
            == r2->Ok_0.arguments@,
{
}

} // verus!
