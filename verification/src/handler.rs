use vstd::prelude::*;
use vstd::string::StringExecFns;
use crate::docurl::{build_doc_url, doc_url, resolve_crate_name, resolved_name};
use crate::extract::{extract_text, extracted};
use crate::model::{FetchOutcome, HandlerStep, McpRequest, McpResponse, is_text_response, text_response};
use crate::numfmt::{dec_digits, u16_to_decimal};
use crate::text::{truncate_docs, truncated};

verus! {

/// The single command name this relay recognizes.
pub open spec fn lookup_command() -> Seq<char> {
    "lookup_crate_docs"@
}

/// The fixed text returned for an unrecognized command.
pub open spec fn unknown_command_text() -> Seq<char> {
    "Unknown command"@
}

/// The error text for a transport failure, embedding its description.
pub open spec fn transport_error_text(message: Seq<char>) -> Seq<char> {
    "Error contacting docs.rs: "@ + message
}

/// The error text for an unsuccessful remote status, embedding the
/// numeric status code.
pub open spec fn status_error_text(status: u16) -> Seq<char> {
    "Failed to fetch documentation: HTTP "@ + dec_digits(status as nat)
}

/// A remote status counts as success when it lies in the 2xx range.
pub open spec fn is_success_status(status: u16) -> bool {
    200 <= status < 300
}

/// Decide what to do with a request. An unrecognized command is rejected
/// outright with HTTP 400, an error envelope and no fetch; the one
/// recognized command leads to a fetch of the documentation page URL for
/// the resolved package name.
pub fn plan_request(req: &McpRequest) -> (step: HandlerStep)
    ensures
        req.command@ != lookup_command() ==> (step matches HandlerStep::Reject {
            status,
            response,
        } && status == 400u16 && is_text_response(&response, unknown_command_text(), Some(true))),
        req.command@ == lookup_command() ==> (step matches HandlerStep::Fetch { url } && url@
            == doc_url(resolved_name(req.args))),
{
    let cmd = String::from_str("lookup_crate_docs");
    if !req.command.eq(&cmd) {
        HandlerStep::Reject {
            status: 400,
            response: text_response(String::from_str("Unknown command"), Some(true)),
        }
    } else {
        let name = resolve_crate_name(&req.args);
        HandlerStep::Fetch { url: build_doc_url(name.as_str()) }
    }
}

/// Turn the outcome of the fetch of `url` into the HTTP status and
/// response envelope to answer with. A transport failure and an
/// unsuccessful remote status each yield HTTP 500 with an error
/// envelope; a successful remote status yields HTTP 200 carrying the
/// extracted, truncated page text.
pub fn finish_request(url: &str, outcome: FetchOutcome) -> (r: (u16, McpResponse))
    ensures
        outcome matches FetchOutcome::Transport { message } ==> r.0 == 500u16
            && is_text_response(&r.1, transport_error_text(message@), Some(true)),
        outcome matches FetchOutcome::Response { status, body } ==> (if is_success_status(status) {
            r.0 == 200u16 && is_text_response(&r.1, truncated(extracted(body@), url@), None)
        } else {
            r.0 == 500u16 && is_text_response(&r.1, status_error_text(status), Some(true))
        }),
{
    match outcome {
        FetchOutcome::Transport { message } => {
            let mut text = String::from_str("Error contacting docs.rs: ");
            text.append(message.as_str());
            (500, text_response(text, Some(true)))
        }
        FetchOutcome::Response { status, body } => {
            if 200 <= status && status < 300 {
                let page_text = extract_text(body.as_str());
                let out_text = truncate_docs(page_text, url);
                (200, text_response(out_text, None))
            } else {
                let mut text = String::from_str("Failed to fetch documentation: HTTP ");
                text.append(u16_to_decimal(status).as_str());
                (500, text_response(text, Some(true)))
            }
        }
    }
}

} // verus!
