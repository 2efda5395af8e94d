use narthex_web::bridge::execution_error_message;
use narthex_web::bridge::respond_script;
use narthex_web::bridge::route_response;
use narthex_web::bridge::HandlerStep;
use narthex_web::bridge::ResponseKind;
use narthex_web::bridge::ResponseSummary;
use narthex_web::escape::escape_text;
use narthex_web::params::WebParams;

#[test]
fn default_params() {
    let params = WebParams::default();
    assert_eq!(params.title, "App");
    assert!(!params.debug);
    assert_eq!(params.width, 640);
    assert_eq!(params.height, 960);
    assert!(!params.verbose);
}

#[test]
fn ping_answer_is_injected_verbatim() {
    let payload = "{\"kind\":\"Ok\",\"payload\":\"pong\"}";
    let script = respond_script(payload);
    assert_eq!(script, "respond('{\"kind\":\"Ok\",\"payload\":\"pong\"}');");
}

#[test]
fn quit_response_closes_the_window() {
    let summary = ResponseSummary { kind: ResponseKind::Normal, shutdown: true };
    match route_response(summary) {
        HandlerStep::Shutdown { error: None } => {}
        _ => panic!("a shutdown response must close the window without an error"),
    }
}

#[test]
fn finished_response_closes_the_window() {
    let summary = ResponseSummary { kind: ResponseKind::Finished, shutdown: true };
    assert!(matches!(route_response(summary), HandlerStep::Shutdown { error: None }));
}

#[test]
fn shutdown_with_error_surfaces_the_message() {
    let summary = ResponseSummary {
        kind: ResponseKind::Error("system failure".to_string()),
        shutdown: true,
    };
    match route_response(summary) {
        HandlerStep::Shutdown { error: Some(message) } => {
            assert_eq!(message, "system failure");
        }
        _ => panic!("a shutdown response with an error must surface its message"),
    }
}

#[test]
fn plain_response_is_answered() {
    let summary = ResponseSummary { kind: ResponseKind::Normal, shutdown: false };
    assert!(matches!(route_response(summary), HandlerStep::Respond));
}

#[test]
fn failed_execution_is_answered_with_its_description() {
    let message = execution_error_message("disk full");
    assert_eq!(message, "bad execution: disk full");
    assert!(message.contains("disk full"));
    let summary = ResponseSummary { kind: ResponseKind::Error(message), shutdown: false };
    assert!(matches!(route_response(summary), HandlerStep::Respond));
    let script = respond_script("{\"kind\":{\"Error\":\"bad execution: disk full\"}}");
    assert_eq!(script, "respond('{\"kind\":{\"Error\":\"bad execution: disk full\"}}');");
}

#[test]
fn empty_text_escapes_to_an_empty_literal() {
    assert_eq!(escape_text(""), "''");
    assert_eq!(respond_script(""), "respond('');");
}

#[test]
fn quotes_and_backslashes_are_escaped() {
    assert_eq!(escape_text("a'b"), "'a\\'b'");
    assert_eq!(escape_text("a\\b"), "'a\\\\b'");
    assert_eq!(escape_text("it's"), "'it\\'s'");
}

#[test]
fn line_breaks_are_escaped() {
    assert_eq!(escape_text("a\nb\rc"), "'a\\nb\\rc'");
    assert_eq!(escape_text("x\u{2028}y\u{2029}z"), "'x\\u2028y\\u2029z'");
}

#[test]
fn ordinary_text_is_only_quoted() {
    assert_eq!(escape_text("Hello, world!"), "'Hello, world!'");
    assert_eq!(respond_script("Hello"), "respond('Hello');");
}

#[test]
fn mixed_text_is_escaped_in_order() {
    let plain = "say 'hi'\nthen \\ stop\u{2028}now";
    assert_eq!(escape_text(plain), "'say \\'hi\\'\\nthen \\\\ stop\\u2028now'");
}
