//! Reading an LLM API reply and preparing HTTP tool results.
use vstd::prelude::*;
use vstd::string::StringSliceAdditionalSpecFns;
use vstd::utf8::{encode_utf8, is_char_boundary};
use crate::agent::records::ToolCall;
use crate::agent::urlencode::{url_encoded, urlencoded};
use crate::text::{decimal, push_decimal, push_str, string_of};

verus! {

/// One choice of an LLM reply, as parsed from the API response.
#[derive(Debug, Clone)]
pub struct LlmChoice {
    /// The assistant's text, if any.
    pub content: Option<String>,
    /// The tool calls the assistant requests, if any.
    pub tool_calls: Option<Vec<ToolCall>>,
}

/// The outcome of an LLM call: the reply text and tool calls of the first choice, or the
/// reason there is none.
pub open spec fn reply_ok(r: Result<(String, Vec<ToolCall>), String>, content: Option<String>, calls: Option<Vec<ToolCall>>) -> bool {
    r matches Ok((text, tools)) && text@ == (match content {
        Some(c) => c@,
        None => Seq::empty(),
    }) && tools@ == (match calls {
        Some(v) => v@,
        None => Seq::empty(),
    })
}

/// Reads an LLM API reply: a status other than 200 is an error carrying the body; then
/// the body must have parsed (`parsed`, the parse error otherwise) and hold a choice.
pub fn llm_reply(status: u16, body: &str, parsed: Result<Vec<LlmChoice>, String>) -> (r: Result<
    (String, Vec<ToolCall>),
    String,
>)
    ensures
        status != 200 ==> (r matches Err(e) && e@ == "LLM API returned "@ + decimal(status as nat) + ": "@
            + body@),
        status == 200 ==> (parsed matches Err(p) ==> (r matches Err(e) && e@ == "Parse error: "@ + p@)),
        status == 200 ==> (parsed matches Ok(choices) ==> (choices@.len() == 0 ==> (r matches Err(e)
            && e@ == "No choices in response"@))),
        status == 200 ==> (parsed matches Ok(choices) ==> (choices@.len() > 0 ==> reply_ok(
            r,
            choices@[0].content,
            choices@[0].tool_calls,
        ))),
{
    if status != 200 {
        let mut e = string_of("LLM API returned ");
        push_decimal(&mut e, status as u64);
        push_str(&mut e, ": ");
        push_str(&mut e, body);
        return Err(e);
    }
    match parsed {
        Err(p) => {
            let mut e = string_of("Parse error: ");
            push_str(&mut e, p.as_str());
            Err(e)
        },
        Ok(mut choices) => {
            if choices.len() == 0 {
                return Err(string_of("No choices in response"));
            }
            let first = choices.remove(0);
            let content = match first.content {
                Some(c) => c,
                None => String::new(),
            };
            let calls = match first.tool_calls {
                Some(v) => v,
                None => Vec::new(),
            };
            Ok((content, calls))
        },
    }
}

/// The first `limit` bytes of a text, or the whole text when it is no longer.
pub open spec fn clipped(text: Seq<char>, limit: nat) -> Seq<u8> {
    if encode_utf8(text).len() <= limit {
        encode_utf8(text)
    } else {
        encode_utf8(text).subrange(0, limit as int)
    }
}

/// Whether cutting a text at `limit` bytes is possible: it is no longer, or the cut
/// falls on a character boundary.
pub open spec fn can_clip(text: &str, limit: nat) -> bool {
    text.spec_bytes().len() <= limit || is_char_boundary(text.spec_bytes(), limit as int)
}

/// Cuts a text to at most `limit` bytes.
pub fn clip(text: &str, limit: usize) -> (r: String)
    requires
        can_clip(text, limit as nat),
    ensures
        encode_utf8(r@) == clipped(text@, limit as nat),
{
    if text.as_bytes().len() <= limit {
        string_of(text)
    } else {
        let (head, _) = text.split_at(limit);
        string_of(head)
    }
}

/// The search URL of the web search tool.
pub fn web_search_url(query: &str) -> (r: String)
    ensures
        r@ == "https://html.duckduckgo.com/html/?q="@ + url_encoded(query@),
{
    let mut url = string_of("https://html.duckduckgo.com/html/?q=");
    let encoded = urlencoded(query);
    push_str(&mut url, encoded.as_str());
    url
}

/// The result of the web search tool: the first 2000 bytes of the result page.
pub fn web_search_result(body: &str) -> (r: String)
    requires
        can_clip(body, 2000),
    ensures
        encode_utf8(r@) == clipped(body@, 2000),
{
    clip(body, 2000)
}

/// The result of the HTTP request tool: the status, then the body, cut to 4000 bytes
/// (and marked as truncated) when longer.
pub fn http_request_result(status: u16, body: &str) -> (r: String)
    requires
        can_clip(body, 4000),
    ensures
        body.spec_bytes().len() <= 4000 ==> r@ == "HTTP "@ + decimal(status as nat) + ":\n"@ + body@,
        body.spec_bytes().len() > 4000 ==> exists|head: Seq<char>|
            encode_utf8(head) == clipped(body@, 4000) && r@ == "HTTP "@ + decimal(status as nat)
                + " (truncated):\n"@ + head,
{
    let mut out = string_of("HTTP ");
    push_decimal(&mut out, status as u64);
    if body.as_bytes().len() > 4000 {
        let ghost start = out@;
        push_str(&mut out, " (truncated):\n");
        let head = clip(body, 4000);
        push_str(&mut out, head.as_str());
        proof {
            assert(out@ == "HTTP "@ + decimal(status as nat) + " (truncated):\n"@ + head@);
        }
    } else {
        push_str(&mut out, ":\n");
        push_str(&mut out, body);
    }
    out
}

/// The HTTP method of the HTTP request tool: `GET` unless one is given.
pub fn request_method(method: &Option<String>) -> (r: String)
    ensures
        method matches Some(m) ==> r@ == m@,
        method is None ==> r@ == "GET"@,
{
    match method {
        Some(m) => m.clone(),
        None => string_of("GET"),
    }
}

/// The result of a tool call whose arguments could not be read.
pub fn invalid_arguments(error: &str) -> (r: String)
    ensures
        r@ == "Invalid arguments: "@ + error@,
{
    let mut s = string_of("Invalid arguments: ");
    push_str(&mut s, error);
    s
}

} // verus!
