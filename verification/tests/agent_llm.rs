use zeroclaw::agent::llm::{
    clip, http_request_result, invalid_arguments, llm_reply, request_method, web_search_result,
    web_search_url, LlmChoice,
};
use zeroclaw::agent::records::ToolCall;
use zeroclaw::agent::urlencode::urlencoded;

#[test]
fn non_ok_status_is_an_error_with_the_body() {
    let r = llm_reply(500, "overloaded", Ok(vec![]));
    assert_eq!(r.unwrap_err(), "LLM API returned 500: overloaded");
}

#[test]
fn parse_errors_and_empty_replies() {
    assert_eq!(llm_reply(200, "{", Err("EOF".to_string())).unwrap_err(), "Parse error: EOF");
    assert_eq!(llm_reply(200, "{}", Ok(vec![])).unwrap_err(), "No choices in response");
}

#[test]
fn first_choice_is_read() {
    let call = ToolCall {
        id: "c1".to_string(),
        name: "web_search".to_string(),
        arguments: "{\"query\":\"rust\"}".to_string(),
    };
    let choices = vec![
        LlmChoice { content: None, tool_calls: Some(vec![call]) },
        LlmChoice { content: Some("second".to_string()), tool_calls: None },
    ];
    let (content, calls) = llm_reply(200, "", Ok(choices)).unwrap();
    assert_eq!(content, "");
    assert_eq!(calls.len(), 1);
    assert_eq!(calls[0].name, "web_search");
    let plain = vec![LlmChoice { content: Some("Hi there".to_string()), tool_calls: None }];
    let (content, calls) = llm_reply(200, "", Ok(plain)).unwrap();
    assert_eq!(content, "Hi there");
    assert!(calls.is_empty());
}

#[test]
fn url_encoding() {
    assert_eq!(urlencoded("rust lang"), "rust+lang");
    assert_eq!(urlencoded("a&b=c"), "a%26b%3Dc");
    assert_eq!(urlencoded("-_.~AZaz09"), "-_.~AZaz09");
    assert_eq!(urlencoded("é"), "%C3%A9");
    assert_eq!(urlencoded(""), "");
}

#[test]
fn search_url_encodes_the_query() {
    assert_eq!(web_search_url("verus rust"), "https://html.duckduckgo.com/html/?q=verus+rust");
}

#[test]
fn clipping_at_byte_limits() {
    assert_eq!(clip("hello", 10), "hello");
    assert_eq!(clip("hello", 3), "hel");
    assert_eq!(clip("hé!", 3), "hé");
    let long = "x".repeat(2500);
    assert_eq!(web_search_result(&long).len(), 2000);
    assert_eq!(web_search_result("short"), "short");
}

#[test]
fn http_results() {
    assert_eq!(http_request_result(200, "ok"), "HTTP 200:\nok");
    let long = "a".repeat(5000);
    let r = http_request_result(404, &long);
    assert!(r.starts_with("HTTP 404 (truncated):\n"));
    assert_eq!(r.len(), "HTTP 404 (truncated):\n".len() + 4000);
}

#[test]
fn request_method_defaults_to_get() {
    assert_eq!(request_method(&None), "GET");
    assert_eq!(request_method(&Some("POST".to_string())), "POST");
    assert_eq!(invalid_arguments("missing url"), "Invalid arguments: missing url");
}

#[test]
fn url_encoding_is_query_safe() {
    let encoded = urlencoded("héllo wörld & co/?#日本");
    assert!(encoded
        .chars()
        .all(|c| c.is_ascii_alphanumeric() || "-_.~+%".contains(c)));
}
