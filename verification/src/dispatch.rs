//! Webhook dispatch decisions: from an endpoint configuration and a message
//! text to either "disabled", "body invalid", or a request ready to POST,
//! and the classification of the endpoint's answer.

use crate::config::WebhookConfig;
use crate::config::WebhookConfigView;
use crate::text::{build_body, replace_seq, spec_marker};
use vstd::prelude::*;

verus! {

/// serde_json's JSON value type, carried opaquely through the library.
#[verifier::external_type_specification]
#[verifier::external_body]
pub struct ExValue(serde_json::Value);

/// Whether serde_json parses `s` as a JSON object (not an array, number or
/// other document); a function of the characters alone.
pub uninterp spec fn is_json_object(s: Seq<char>) -> bool;

/// Relies on serde_json::from_str::<Value>: parses text as JSON; `Some`
/// exactly when the text is a valid JSON document whose top level is an
/// object (the `Value::Object` variant).
#[verifier::external_body]
fn parse_json_object(s: &str) -> (r: Option<serde_json::Value>)
    ensures
        r is Some <==> is_json_object(s@),
{
    match serde_json::from_str::<serde_json::Value>(s) {
        Ok(serde_json::Value::Object(map)) => Some(serde_json::Value::Object(map)),
        _ => None,
    }
}

/// Why a dispatch did not deliver. Every case is non-fatal: the caller logs
/// it and goes on.
#[derive(Debug)]
pub enum DispatchError {
    /// The substituted body is not a JSON object; nothing was sent.
    InvalidBody,
    /// The endpoint answered with a non-success status, carried here with
    /// the answer's text.
    RemoteRejected { status: u16, body_text: String },
    /// The request never completed: DNS, connection, or timeout failure.
    Transport,
}

/// A prepared webhook call: where to POST, the Content-Type header value,
/// the substituted body text, and that text parsed as a JSON object
/// (re-serialized canonically by the sender, as the endpoint receives it).
pub struct WebhookRequest {
    pub url: String,
    pub content_type: String,
    pub body_text: String,
    pub body: serde_json::Value,
}

/// The body text after substituting the message into the template.
pub open spec fn substituted_body(c: WebhookConfigView, markdown: Seq<char>) -> Seq<char> {
    replace_seq(c.body_template, spec_marker(), markdown)
}

/// Decides a dispatch without performing it. An empty URL means the
/// endpoint is disabled: success with nothing to send and no network call.
/// Otherwise the message is substituted into the body template; a result
/// that is not a JSON object is `InvalidBody`, again before any network
/// call; a valid one yields the request to POST, carrying exactly the
/// substituted text and its parsed form.
pub fn prepare_webhook(config: &WebhookConfig, markdown: &str) -> (r: Result<
    Option<WebhookRequest>,
    DispatchError,
>)
    ensures
        config@.url.len() == 0 ==> (r matches Ok(req) && req is None),
        config@.url.len() > 0 && !is_json_object(substituted_body(config@, markdown@)) ==> (r matches Err(
            e,
        ) && e is InvalidBody),
        config@.url.len() > 0 && is_json_object(substituted_body(config@, markdown@)) ==> (r matches Ok(
            req,
        ) && req matches Some(w) && w.url@ == config@.url && w.content_type@
            == config@.content_type && w.body_text@ == substituted_body(config@, markdown@)),
{
    if config.url.as_str().is_empty() {
        return Ok(None);
    }
    let body_text = build_body(config.body_template.as_str(), markdown);
    match parse_json_object(body_text.as_str()) {
        None => Err(DispatchError::InvalidBody),
        Some(v) => Ok(
            Some(
                WebhookRequest {
                    url: config.url.clone(),
                    content_type: config.content_type.clone(),
                    body_text,
                    body: v,
                },
            ),
        ),
    }
}

/// A success status in the sense of HTTP: 200 to 299.
pub open spec fn is_success_status(status: u16) -> bool {
    200 <= status < 300
}

/// Classifies the endpoint's answer: a success status is delivery, any
/// other status is a rejection carrying the status and the answer's text.
pub fn interpret_response(status: u16, body_text: String) -> (r: Result<(), DispatchError>)
    ensures
        is_success_status(status) ==> r is Ok,
        !is_success_status(status) ==> (r matches Err(DispatchError::RemoteRejected {
            status: rs,
            body_text: rb,
        }) && rs == status && rb@ == body_text@),
{
    if 200 <= status && status < 300 {
        Ok(())
    } else {
        Err(DispatchError::RemoteRejected { status, body_text })
    }
}

} // verus!
