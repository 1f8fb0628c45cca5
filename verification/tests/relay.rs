use docs_relay::docurl::{build_doc_url, resolve_crate_name};
use docs_relay::extract::extract_text;
use docs_relay::handler::{finish_request, plan_request};
use docs_relay::model::{Args, FetchOutcome, HandlerStep, McpRequest, McpResponse};
use docs_relay::numfmt::u16_to_decimal;
use docs_relay::text::{collapse_whitespace, is_whitespace_char, join_with_spaces, truncate_docs};
use docs_relay::text::MAX_DOC_LEN;

fn single_text(r: &McpResponse) -> &str {
    assert_eq!(r.content.len(), 1);
    assert_eq!(r.content[0].type_, "text");
    &r.content[0].text
}

#[test]
fn unknown_command_is_rejected_with_400() {
    let req = McpRequest { command: "frobnicate".to_string(), args: None };
    match plan_request(&req) {
        HandlerStep::Reject { status, response } => {
            assert_eq!(status, 400);
            assert_eq!(response.is_error, Some(true));
            assert_eq!(single_text(&response), "Unknown command");
        }
        HandlerStep::Fetch { .. } => panic!("unrecognized command must not lead to a fetch"),
    }
}

#[test]
fn empty_command_is_rejected_with_400() {
    let req = McpRequest { command: String::new(), args: None };
    match plan_request(&req) {
        HandlerStep::Reject { status, response } => {
            assert_eq!(status, 400);
            assert_eq!(response.is_error, Some(true));
        }
        HandlerStep::Fetch { .. } => panic!("unrecognized command must not lead to a fetch"),
    }
}

#[test]
fn missing_args_fall_back_to_default_name() {
    let req = McpRequest { command: "lookup_crate_docs".to_string(), args: None };
    match plan_request(&req) {
        HandlerStep::Fetch { url } => {
            assert_eq!(url, "https://docs.rs/tokio/latest/tokio/index.html");
        }
        HandlerStep::Reject { .. } => panic!("the recognized command must lead to a fetch"),
    }
}

#[test]
fn missing_crate_name_falls_back_to_default_name() {
    let req = McpRequest {
        command: "lookup_crate_docs".to_string(),
        args: Some(Args { crate_name: None }),
    };
    match plan_request(&req) {
        HandlerStep::Fetch { url } => {
            assert_eq!(url, "https://docs.rs/tokio/latest/tokio/index.html");
        }
        HandlerStep::Reject { .. } => panic!("the recognized command must lead to a fetch"),
    }
}

#[test]
fn empty_crate_name_falls_back_to_default_name() {
    let args = Some(Args { crate_name: Some(String::new()) });
    assert_eq!(resolve_crate_name(&args), "tokio");
}

#[test]
fn serde_url_is_exact() {
    let req = McpRequest {
        command: "lookup_crate_docs".to_string(),
        args: Some(Args { crate_name: Some("serde".to_string()) }),
    };
    match plan_request(&req) {
        HandlerStep::Fetch { url } => {
            assert_eq!(url, "https://docs.rs/serde/latest/serde/index.html");
        }
        HandlerStep::Reject { .. } => panic!("the recognized command must lead to a fetch"),
    }
    assert_eq!(build_doc_url("serde"), "https://docs.rs/serde/latest/serde/index.html");
}

#[test]
fn extraction_strips_markup() {
    let text = extract_text("<html><body><p>hello   world</p></body></html>");
    assert_eq!(text, "hello world");
}

#[test]
fn extraction_joins_nodes_in_document_order() {
    let text = extract_text("<p>first</p><div>second<span>third</span></div>");
    assert_eq!(text, "first second third");
}

#[test]
fn extraction_of_empty_document_is_empty() {
    assert_eq!(extract_text(""), "");
}

#[test]
fn extraction_is_normalized() {
    let text = extract_text("<p>\t a\n\n  b </p>\n<p>  c\u{00A0}d </p>");
    assert_eq!(text, "a b c d");
    let chars: Vec<char> = text.chars().collect();
    if !chars.is_empty() {
        assert!(!chars[0].is_whitespace());
        assert!(!chars[chars.len() - 1].is_whitespace());
    }
    for pair in chars.windows(2) {
        assert!(!(pair[0].is_whitespace() && pair[1].is_whitespace()));
    }
}

#[test]
fn collapse_is_idempotent_on_samples() {
    for sample in ["", "  ", "a", " a  b\t\nc ", "x y z"] {
        let once = collapse_whitespace(sample);
        let twice = collapse_whitespace(&once);
        assert_eq!(once, twice);
    }
}

#[test]
fn collapse_handles_unicode_whitespace() {
    assert_eq!(collapse_whitespace("a\u{2003}\u{2003}b\u{3000}c"), "a b c");
    assert!(is_whitespace_char('\u{2028}'));
    assert!(!is_whitespace_char('x'));
}

#[test]
fn join_with_spaces_inserts_single_separators() {
    let parts = vec!["ab".to_string(), "cd".to_string(), "ef".to_string()];
    assert_eq!(join_with_spaces(&parts), "ab cd ef");
    let none: Vec<String> = Vec::new();
    assert_eq!(join_with_spaces(&none), "");
}

#[test]
fn short_text_passes_truncation_unchanged() {
    let url = "https://docs.rs/serde/latest/serde/index.html";
    let text = "short documentation".to_string();
    assert_eq!(truncate_docs(text.clone(), url), text);
    let exactly = "a".repeat(MAX_DOC_LEN);
    assert_eq!(truncate_docs(exactly.clone(), url), exactly);
}

#[test]
fn long_text_is_cut_at_threshold_with_notice() {
    let url = "https://docs.rs/tokio/latest/tokio/index.html";
    let long = "a".repeat(MAX_DOC_LEN + 1);
    let out = truncate_docs(long.clone(), url);
    let notice = format!("\n\n[Content truncated. Full documentation available at {}]", url);
    assert_eq!(out.chars().count(), MAX_DOC_LEN + notice.chars().count());
    let prefix: String = out.chars().take(MAX_DOC_LEN).collect();
    let expect: String = long.chars().take(MAX_DOC_LEN).collect();
    assert_eq!(prefix, expect);
    assert!(out.ends_with(&notice));
}

#[test]
fn transport_failure_yields_500_with_description() {
    let url = "https://docs.rs/tokio/latest/tokio/index.html";
    let outcome = FetchOutcome::Transport { message: "connection refused".to_string() };
    let (status, response) = finish_request(url, outcome);
    assert_eq!(status, 500);
    assert_eq!(response.is_error, Some(true));
    let text = single_text(&response);
    assert_eq!(text, "Error contacting docs.rs: connection refused");
    assert!(text.contains("connection refused"));
}

#[test]
fn remote_404_yields_500_naming_the_code() {
    let url = "https://docs.rs/nosuch/latest/nosuch/index.html";
    let outcome = FetchOutcome::Response { status: 404, body: String::new() };
    let (status, response) = finish_request(url, outcome);
    assert_eq!(status, 500);
    assert_eq!(response.is_error, Some(true));
    let text = single_text(&response);
    assert_eq!(text, "Failed to fetch documentation: HTTP 404");
    assert!(text.contains("404"));
}

#[test]
fn remote_success_yields_200_with_extracted_text() {
    let url = "https://docs.rs/serde/latest/serde/index.html";
    let body = "<html><body><h1>serde</h1><p>A  serialization\nframework</p></body></html>";
    let outcome = FetchOutcome::Response { status: 200, body: body.to_string() };
    let (status, response) = finish_request(url, outcome);
    assert_eq!(status, 200);
    assert_eq!(response.is_error, None);
    assert_eq!(single_text(&response), "serde A serialization framework");
}

#[test]
fn remote_299_counts_as_success_and_300_does_not() {
    let url = "https://docs.rs/tokio/latest/tokio/index.html";
    let ok = FetchOutcome::Response { status: 299, body: "<p>x</p>".to_string() };
    let (status, _) = finish_request(url, ok);
    assert_eq!(status, 200);
    let redirect = FetchOutcome::Response { status: 300, body: String::new() };
    let (status, response) = finish_request(url, redirect);
    assert_eq!(status, 500);
    assert_eq!(single_text(&response), "Failed to fetch documentation: HTTP 300");
}

#[test]
fn decimal_rendering_is_exact() {
    assert_eq!(u16_to_decimal(0), "0");
    assert_eq!(u16_to_decimal(7), "7");
    assert_eq!(u16_to_decimal(10), "10");
    assert_eq!(u16_to_decimal(404), "404");
    assert_eq!(u16_to_decimal(65535), "65535");
}
