//! Security policy enforcement for tool calls.
use vstd::prelude::*;
use crate::agent::records::SecurityPolicy;
use crate::text::str_eq;

verus! {

/// The list of strings that a JSON text holds, or `None` when the text is not a JSON
/// array of strings.
pub uninterp spec fn json_string_list(text: Seq<char>) -> Option<Seq<Seq<char>>>;

/// Parses a JSON array of strings.
///
/// Wraps `serde_json::from_str::<Vec<String>>`, a function of the text alone: the contract
/// names its result `json_string_list`, and says nothing more of it.
#[verifier::external_body]
fn parse_string_list(json: &str) -> (r: Option<Vec<String>>)
    ensures
        r.deep_view() == json_string_list(json@),
{
    serde_json::from_str::<Vec<String>>(json).ok()
}

/// Whether a tool is allowed by a blocked list and an allowed list (each `None` when it
/// could not be read): a blocked tool is refused; a non-empty allowed list admits only
/// the tools it names.
pub open spec fn tool_allowed_by(
    blocked: Option<Seq<Seq<char>>>,
    allowed: Option<Seq<Seq<char>>>,
    name: Seq<char>,
) -> bool {
    &&& !(blocked matches Some(b) && b.contains(name))
    &&& !(allowed matches Some(a) && a.len() > 0 && !a.contains(name))
}

/// Whether a tool is allowed under an agent's policy. Policies are deny-by-default: an
/// agent without a policy may use no tool.
pub open spec fn policy_allows(policy: Option<SecurityPolicy>, name: Seq<char>) -> bool {
    match policy {
        None => false,
        Some(p) => tool_allowed_by(
            json_string_list(p.blocked_tools_json@),
            json_string_list(p.allowed_tools_json@),
            name,
        ),
    }
}

/// Whether a list of names holds `name`.
pub fn list_contains(list: &Vec<String>, name: &str) -> (r: bool)
    ensures
        r == list.deep_view().contains(name@),
{
    let mut i: usize = 0;
    while i < list.len()
        invariant
            0 <= i <= list@.len(),
            forall|j: int| 0 <= j < i ==> list@[j]@ != name@,
        decreases list@.len() - i,
    {
        if str_eq(list[i].as_str(), name) {
            proof {
                assert(list.deep_view()[i as int] == name@);
            }
            return true;
        }
        i = i + 1;
    }
    proof {
        if list.deep_view().contains(name@) {
            let k = choose|k: int| 0 <= k < list.deep_view().len() && list.deep_view()[k] == name@;
            assert(list@[k]@ == name@);
        }
    }
    false
}

/// Whether a tool is allowed by already-read blocked and allowed lists.
pub fn tool_allowed_by_lists(
    blocked: &Option<Vec<String>>,
    allowed: &Option<Vec<String>>,
    tool_name: &str,
) -> (r: bool)
    ensures
        r == tool_allowed_by(blocked.deep_view(), allowed.deep_view(), tool_name@),
{
    if let Some(b) = blocked {
        if list_contains(b, tool_name) {
            return false;
        }
    }
    if let Some(a) = allowed {
        if a.len() > 0 && !list_contains(a, tool_name) {
            return false;
        }
    }
    true
}

/// Whether a tool call is allowed under an agent's security policy.
pub fn is_tool_allowed(policy: &Option<SecurityPolicy>, tool_name: &str) -> (r: bool)
    ensures
        r == policy_allows(*policy, tool_name@),
{
    match policy {
        None => false,
        Some(p) => {
            let blocked = parse_string_list(p.blocked_tools_json.as_str());
            let allowed = parse_string_list(p.allowed_tools_json.as_str());
            tool_allowed_by_lists(&blocked, &allowed, tool_name)
        },
    }
}

} // verus!
