use crate::escape::escape_text;
use crate::escape::js_string_literal;
use vstd::prelude::*;

verus! {

/// The kind of an engine response, as far as the bridge inspects it: a normal
/// answer, a final answer, or an error carrying a message for the user.
pub enum ResponseKind {
    Normal,
    Finished,
    Error(String),
}

/// What the bridge reads off an engine response before deciding what to do
/// with it: its kind, and whether the engine asked for a shutdown.
pub struct ResponseSummary {
    pub kind: ResponseKind,
    pub shutdown: bool,
}

/// What the window's message handler must do after the engine has answered:
/// close the window (logging a pending error message first, if there is one),
/// or deliver the response to the page.
pub enum HandlerStep {
    Shutdown { error: Option<String> },
    Respond,
}

/// The error message a response carries, if its kind is an error.
pub open spec fn spec_error_of(kind: ResponseKind) -> Option<String> {
    match kind {
        ResponseKind::Error(message) => Some(message),
        _ => None,
    }
}

/// The handler's decision for a response: shutdown wins over answering, and a
/// response that does not ask for shutdown is answered.
pub open spec fn spec_route(summary: ResponseSummary) -> HandlerStep {
    if summary.shutdown {
        HandlerStep::Shutdown { error: spec_error_of(summary.kind) }
    } else {
        HandlerStep::Respond
    }
}

/// Decide what the message handler does with a response the engine has given:
/// honor a shutdown request, surfacing the error message to log if the
/// response was an error, and otherwise answer the page.
pub fn route_response(summary: ResponseSummary) -> (step: HandlerStep)
    ensures
        step == spec_route(summary),
{
    if summary.shutdown {
        match summary.kind {
            ResponseKind::Error(message) => HandlerStep::Shutdown { error: Some(message) },
            _ => HandlerStep::Shutdown { error: None },
        }
    } else {
        HandlerStep::Respond
    }
}

/// A response that requires shutdown closes the window: the handler never
/// chooses to answer the page for it.
pub proof fn lemma_shutdown_never_responds(summary: ResponseSummary)
    requires
        summary.shutdown,
    ensures
        spec_route(summary) is Shutdown,
        !(spec_route(summary) is Respond),
{
}

/// A response that does not require shutdown is answered: the handler chooses
/// to respond to the page, and never to close the window.
pub proof fn lemma_no_shutdown_responds(summary: ResponseSummary)
    requires
        !summary.shutdown,
    ensures
        spec_route(summary) is Respond,
        !(spec_route(summary) is Shutdown),
{
}

/// The script evaluated in the page to answer it: a call of the page's
/// `respond` callback whose one argument is a string literal denoting the
/// encoded response.
pub fn respond_script(payload: &str) -> (script: String)
    ensures
        script@ == "respond("@ + js_string_literal(payload@) + ");"@,
{
    let mut script: String = String::from_str("respond(");
    let quoted = escape_text(payload);
    script.append(quoted.as_str());
    script.append(");");
    script
}

/// The message of the response synthesized when the engine's execute call
/// fails: a fixed prefix followed by the failure's own description.
pub fn execution_error_message(detail: &str) -> (message: String)
    ensures
        message@ == "bad execution: "@ + detail@,
{
    let mut message: String = String::from_str("bad execution: ");
    message.append(detail);
    message
}

/// The synthesized message still carries the failure's description in full:
/// it stands, unchanged, right after the fixed prefix.
pub proof fn lemma_error_message_contains_detail(detail: Seq<char>)
    ensures
        ("bad execution: "@ + detail).len() == "bad execution: "@.len() + detail.len(),
        ("bad execution: "@ + detail).subrange(
            "bad execution: "@.len() as int,
            ("bad execution: "@ + detail).len() as int,
        ) == detail,
{
    assert(("bad execution: "@ + detail).subrange(
        "bad execution: "@.len() as int,
        ("bad execution: "@ + detail).len() as int,
    ) =~= detail);
}

} // verus!
