use vstd::prelude::*;
use vstd::string::StringExecFns;

verus! {

/// Optional arguments carried by a request. The single field is the
/// package name whose documentation page is wanted.
pub struct Args {
    pub crate_name: Option<String>,
}

/// A parsed command request: the command name and optional arguments.
pub struct McpRequest {
    pub command: String,
    pub args: Option<Args>,
}

/// One unit of response payload; `type_` is always the string "text".
pub struct Content {
    pub type_: String,
    pub text: String,
}

/// The fixed response envelope: an ordered list of content items and an
/// error flag that is present (and true) only on failure paths.
pub struct McpResponse {
    pub content: Vec<Content>,
    pub is_error: Option<bool>,
}

/// What the single outbound fetch produced, as plain values.
pub enum FetchOutcome {
    /// The remote answered with this HTTP status; `body` is its text for
    /// successful statuses and is ignored otherwise.
    Response { status: u16, body: String },
    /// The remote could not be reached; `message` describes the failure.
    Transport { message: String },
}

/// The handler's first step: either reject the request outright with
/// the given HTTP status and envelope, or fetch the given URL.
pub enum HandlerStep {
    Reject { status: u16, response: McpResponse },
    Fetch { url: String },
}

/// The envelope holds exactly one text item carrying `text`, with the
/// given error flag.
pub open spec fn is_text_response(r: &McpResponse, text: Seq<char>, is_error: Option<bool>) -> bool {
    &&& r.content@.len() == 1
    &&& r.content@[0].type_@ == "text"@
    &&& r.content@[0].text@ == text
    &&& r.is_error == is_error
}

/// Build the single-text-item response envelope.
pub fn text_response(text: String, is_error: Option<bool>) -> (r: McpResponse)
    ensures
        is_text_response(&r, text@, is_error),
{
    let mut content: Vec<Content> = Vec::new();
    content.push(Content { type_: String::from_str("text"), text });
    McpResponse { content, is_error }
}

} // verus!
