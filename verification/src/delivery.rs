//! The delivery client's part that computes: the request to post, and how a
//! response counts.

use vstd::prelude::*;
use crate::json::{json_quoted, quote};
use crate::secrets::{Secrets, SecretsView};

verus! {

/// The request body around a payload that is already written as a JSON
/// string literal: an object with the single member `content`.
pub open spec fn webhook_frame_text(quoted_payload: Seq<char>) -> Seq<char> {
    "{\"content\":"@ + quoted_payload + "}"@
}

/// The request body that carries `payload`.
pub open spec fn webhook_body_text(payload: Seq<char>) -> Seq<char> {
    webhook_frame_text(json_quoted(payload))
}

/// One HTTP POST to the webhook.
#[derive(Clone, Debug, PartialEq, Eq)]
pub struct WebhookRequest {
    /// The address to post to.
    pub url: String,
    /// The value of the `Content-Type` header.
    pub content_type: String,
    /// The request body.
    pub body: String,
}

/// A webhook request as plain text values.
pub struct WebhookRequestView {
    pub url: Seq<char>,
    pub content_type: Seq<char>,
    pub body: Seq<char>,
}

impl View for WebhookRequest {
    type V = WebhookRequestView;

    open spec fn view(&self) -> WebhookRequestView {
        WebhookRequestView { url: self.url@, content_type: self.content_type@, body: self.body@ }
    }
}

/// The request that delivers `payload` under the configuration `secrets`.
pub open spec fn webhook_request_of(payload: Seq<char>, secrets: SecretsView) -> WebhookRequestView {
    WebhookRequestView {
        url: secrets.webhook_url,
        content_type: "application/json"@,
        body: webhook_body_text(payload),
    }
}

/// How one delivery attempt ended.
#[derive(Clone, Copy, Debug, PartialEq, Eq)]
pub enum DeliveryOutcome {
    /// The webhook answered with a status from 200 to 299.
    Accepted,
    /// The webhook answered with another status.
    Rejected { status: u16 },
    /// No answer arrived.
    TransportFailed,
}

/// The outcome that the response status `status` stands for.
pub open spec fn outcome_of_status(status: u16) -> DeliveryOutcome {
    if 200 <= status <= 299 {
        DeliveryOutcome::Accepted
    } else {
        DeliveryOutcome::Rejected { status }
    }
}

/// Writes the request body around `quoted_payload`, the payload as a JSON
/// string literal.
pub fn frame_webhook_body(quoted_payload: &str) -> (body: String)
    ensures
        body@ == webhook_frame_text(quoted_payload@),
{
    let mut body = String::from_str("{\"content\":");
    body.append(quoted_payload);
    body.append("}");
    body
}

/// Writes the request body for `payload`: a JSON object whose single member
/// `content` is the payload.
pub fn webhook_body(payload: &str) -> (body: String)
    ensures
        body@ == webhook_body_text(payload@),
{
    let quoted = quote(payload);
    frame_webhook_body(quoted.as_str())
}

/// Prepares the one POST that delivers `payload`: to the configured webhook
/// address, declared as JSON, with the payload as the member `content`.
pub fn webhook_request(payload: &str, secrets: &Secrets) -> (request: WebhookRequest)
    ensures
        request@ == webhook_request_of(payload@, secrets@),
{
    WebhookRequest {
        url: secrets.webhook_url.clone(),
        content_type: String::from_str("application/json"),
        body: webhook_body(payload),
    }
}

/// Classifies a response by its status: accepted from 200 to 299, rejected
/// otherwise.
pub fn response_outcome(status: u16) -> (outcome: DeliveryOutcome)
    ensures
        outcome == outcome_of_status(status),
{
    if 200 <= status && status <= 299 {
        DeliveryOutcome::Accepted
    } else {
        DeliveryOutcome::Rejected { status }
    }
}

impl DeliveryOutcome {
    /// Whether the payload reached the webhook.
    pub fn is_success(&self) -> (r: bool)
        ensures
            r == (*self is Accepted),
    {
        match self {
            DeliveryOutcome::Accepted => true,
            _ => false,
        }
    }
}

} // verus!
