//! The connection manager's part that computes: where to connect, and what to
//! send first.

use vstd::prelude::*;
use crate::json::{json_quoted, quote};
use crate::secrets::{Secrets, SecretsView};

verus! {

/// The address of the stream: the host's streaming endpoint over TLS, with
/// the token as the query parameter `i`.
pub open spec fn streaming_url_text(host: Seq<char>, token: Seq<char>) -> Seq<char> {
    "wss://"@ + host + "/streaming?i="@ + token
}

/// The control message around an identifier that is already written as a
/// JSON string literal.
pub open spec fn connect_frame_text(quoted_id: Seq<char>) -> Seq<char> {
    "{\"type\":\"connect\",\"body\":{\"channel\":\"homeTimeline\",\"id\":"@ + quoted_id + "}}"@
}

/// The control message that subscribes to the home timeline under the
/// subscription identifier `id`.
pub open spec fn connect_message_text(id: Seq<char>) -> Seq<char> {
    connect_frame_text(json_quoted(id))
}

/// What the connection manager needs to open the stream.
#[derive(Clone, Debug, PartialEq, Eq)]
pub struct ConnectPlan {
    /// The address to connect to.
    pub url: String,
    /// The text message to send as soon as the connection is open.
    pub subscribe: String,
}

/// A connect plan as plain text values.
pub struct ConnectPlanView {
    pub url: Seq<char>,
    pub subscribe: Seq<char>,
}

impl View for ConnectPlan {
    type V = ConnectPlanView;

    open spec fn view(&self) -> ConnectPlanView {
        ConnectPlanView { url: self.url@, subscribe: self.subscribe@ }
    }
}

/// The plan for the subscription `id` under the configuration `secrets`.
pub open spec fn connect_plan_of(id: Seq<char>, secrets: SecretsView) -> ConnectPlanView {
    ConnectPlanView {
        url: streaming_url_text(secrets.host, secrets.token),
        subscribe: connect_message_text(id),
    }
}

/// Writes the address of the stream of `host` for the holder of `token`.
pub fn streaming_url(host: &str, token: &str) -> (url: String)
    ensures
        url@ == streaming_url_text(host@, token@),
{
    let mut url = String::from_str("wss://");
    url.append(host);
    url.append("/streaming?i=");
    url.append(token);
    url
}

/// Writes the subscribe message around `quoted_id`, the subscription
/// identifier as a JSON string literal.
pub fn frame_connect_message(quoted_id: &str) -> (message: String)
    ensures
        message@ == connect_frame_text(quoted_id@),
{
    let mut message = String::from_str(
        "{\"type\":\"connect\",\"body\":{\"channel\":\"homeTimeline\",\"id\":",
    );
    message.append(quoted_id);
    message.append("}}");
    message
}

/// Writes the control message that subscribes to the home timeline.
///
/// The message is a JSON object of type `connect` whose body names the
/// channel `homeTimeline` and carries `id`, by which later events are told
/// apart from those of other subscriptions.
pub fn generate_message_to_connect_hometimeline_ch(id: &str) -> (message: String)
    ensures
        message@ == connect_message_text(id@),
{
    let quoted = quote(id);
    frame_connect_message(quoted.as_str())
}

/// Prepares a connection: the address built from host and token, and the
/// subscribe message for `id`.
pub fn connect_plan(id: &str, secrets: &Secrets) -> (plan: ConnectPlan)
    ensures
        plan@ == connect_plan_of(id@, secrets@),
{
    ConnectPlan {
        url: streaming_url(secrets.host.as_str(), secrets.token.as_str()),
        subscribe: generate_message_to_connect_hometimeline_ch(id),
    }
}

} // verus!
