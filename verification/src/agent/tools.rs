//! The tool catalogue and how a tool call is executed.
use vstd::prelude::*;
use crate::agent::records::ToolRegistryEntry;
use crate::text::{push_str, str_eq, string_of};

verus! {

/// The built-in HTTP tools: name, description and JSON parameter schema of each.
pub open spec fn builtin_http_tool_table() -> Seq<(Seq<char>, Seq<char>, Seq<char>)> {
    seq![
        (
            "web_search"@,
            "Search the web for information"@,
            "{\"type\":\"object\",\"properties\":{\"query\":{\"type\":\"string\",\"description\":\"Search query\"}},\"required\":[\"query\"]}"@,
        ),
        (
            "http_request"@,
            "Make an HTTP request to a URL"@,
            "{\"type\":\"object\",\"properties\":{\"url\":{\"type\":\"string\",\"description\":\"URL to request\"},\"method\":{\"type\":\"string\",\"description\":\"HTTP method (GET, POST, etc.)\",\"default\":\"GET\"},\"body\":{\"type\":\"string\",\"description\":\"Request body (for POST/PUT)\"}},\"required\":[\"url\"]}"@,
        ),
        (
            "memory_store"@,
            "Store information in persistent memory"@,
            "{\"type\":\"object\",\"properties\":{\"key\":{\"type\":\"string\",\"description\":\"Memory key\"},\"content\":{\"type\":\"string\",\"description\":\"Content to remember\"},\"category\":{\"type\":\"string\",\"description\":\"Category: core, daily, or conversation\",\"default\":\"core\"}},\"required\":[\"key\",\"content\"]}"@,
        ),
        (
            "memory_recall"@,
            "Search persistent memory for relevant information"@,
            "{\"type\":\"object\",\"properties\":{\"query\":{\"type\":\"string\",\"description\":\"Search query\"}},\"required\":[\"query\"]}"@,
        ),
    ]
}

/// The views of a table of string triples.
pub open spec fn triple_views(t: Seq<(&str, &str, &str)>) -> Seq<(Seq<char>, Seq<char>, Seq<char>)> {
    t.map_values(|e: (&str, &str, &str)| (e.0@, e.1@, e.2@))
}

/// The built-in HTTP tools registered at initialization.
pub fn builtin_http_tools() -> (r: Vec<(&'static str, &'static str, &'static str)>)
    ensures
        triple_views(r@) == builtin_http_tool_table(),
{
    let mut v: Vec<(&'static str, &'static str, &'static str)> = Vec::new();
    v.push(
        (
            "web_search",
            "Search the web for information",
            "{\"type\":\"object\",\"properties\":{\"query\":{\"type\":\"string\",\"description\":\"Search query\"}},\"required\":[\"query\"]}",
        ),
    );
    v.push(
        (
            "http_request",
            "Make an HTTP request to a URL",
            "{\"type\":\"object\",\"properties\":{\"url\":{\"type\":\"string\",\"description\":\"URL to request\"},\"method\":{\"type\":\"string\",\"description\":\"HTTP method (GET, POST, etc.)\",\"default\":\"GET\"},\"body\":{\"type\":\"string\",\"description\":\"Request body (for POST/PUT)\"}},\"required\":[\"url\"]}",
        ),
    );
    v.push(
        (
            "memory_store",
            "Store information in persistent memory",
            "{\"type\":\"object\",\"properties\":{\"key\":{\"type\":\"string\",\"description\":\"Memory key\"},\"content\":{\"type\":\"string\",\"description\":\"Content to remember\"},\"category\":{\"type\":\"string\",\"description\":\"Category: core, daily, or conversation\",\"default\":\"core\"}},\"required\":[\"key\",\"content\"]}",
        ),
    );
    v.push(
        (
            "memory_recall",
            "Search persistent memory for relevant information",
            "{\"type\":\"object\",\"properties\":{\"query\":{\"type\":\"string\",\"description\":\"Search query\"}},\"required\":[\"query\"]}",
        ),
    );
    proof {
        assert(triple_views(v@) =~= builtin_http_tool_table());
    }
    v
}

/// The execution mode of a tool: that of its registry entry, or `local` for a tool the
/// registry does not know.
pub open spec fn execution_mode_in(registry: Seq<ToolRegistryEntry>, name: Seq<char>) -> Seq<char>
    decreases registry.len(),
{
    if registry.len() == 0 {
        "local"@
    } else if registry[0].name@ == name {
        registry[0].execution_mode@
    } else {
        execution_mode_in(registry.drop_first(), name)
    }
}

/// Looks up the execution mode of a tool in the registry (`local` when unregistered).
pub fn execution_mode_of(registry: &Vec<ToolRegistryEntry>, tool_name: &str) -> (r: String)
    ensures
        r@ == execution_mode_in(registry@, tool_name@),
{
    let mut i: usize = 0;
    assert(registry@.subrange(0, registry@.len() as int) =~= registry@);
    while i < registry.len()
        invariant
            0 <= i <= registry@.len(),
            execution_mode_in(registry@, tool_name@) == execution_mode_in(
                registry@.subrange(i as int, registry@.len() as int),
                tool_name@,
            ),
        decreases registry@.len() - i,
    {
        let ghost rest = registry@.subrange(i as int, registry@.len() as int);
        assert(rest.drop_first() =~= registry@.subrange(i + 1, registry@.len() as int));
        if str_eq(registry[i].name.as_str(), tool_name) {
            return registry[i].execution_mode.clone();
        }
        i = i + 1;
    }
    string_of("local")
}

/// The built-in HTTP tools, by name.
#[derive(Debug, Clone, Copy, PartialEq, Eq, Structural)]
pub enum HttpTool {
    WebSearch,
    HttpRequest,
    MemoryStore,
    MemoryRecall,
}

/// The built-in HTTP tool a name refers to, if any.
pub open spec fn http_tool_named(name: Seq<char>) -> Option<HttpTool> {
    if name == "web_search"@ {
        Some(HttpTool::WebSearch)
    } else if name == "http_request"@ {
        Some(HttpTool::HttpRequest)
    } else if name == "memory_store"@ {
        Some(HttpTool::MemoryStore)
    } else if name == "memory_recall"@ {
        Some(HttpTool::MemoryRecall)
    } else {
        None
    }
}

/// Picks the built-in HTTP tool for a tool name.
pub fn http_tool(name: &str) -> (r: Option<HttpTool>)
    ensures
        r == http_tool_named(name@),
{
    if str_eq(name, "web_search") {
        Some(HttpTool::WebSearch)
    } else if str_eq(name, "http_request") {
        Some(HttpTool::HttpRequest)
    } else if str_eq(name, "memory_store") {
        Some(HttpTool::MemoryStore)
    } else if str_eq(name, "memory_recall") {
        Some(HttpTool::MemoryRecall)
    } else {
        None
    }
}

/// The result text for a tool name that no HTTP tool answers to.
pub fn unknown_http_tool_message(name: &str) -> (r: String)
    ensures
        r@ == "Unknown HTTP tool: "@ + name@,
{
    let mut s = string_of("Unknown HTTP tool: ");
    push_str(&mut s, name);
    s
}

} // verus!
