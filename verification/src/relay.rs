//! The relay loop as a state machine.
//!
//! The program that drives the relay performs one action at a time, after
//! the delay that comes with it, and hands back what happened as an event.
//! `step` answers each event with the next state and the next action.

use vstd::prelude::*;
use crate::decode::{parse_event, parsed_event, DecodeError};
use crate::delivery::DeliveryOutcome;
use crate::event::{InboundEvent, InboundEventView};
use crate::filter::{is_target, is_target_note};
use crate::format::{generate_note_info, note_info};
use crate::secrets::{Secrets, SecretsView};
use crate::text::same_text;

verus! {

/// The pacing interval of a relay that was given no other, in seconds.
pub const DEFAULT_PACING_SECS: u64 = 60;

/// What a relay is run with.
#[derive(Clone, Debug, PartialEq, Eq)]
pub struct RelayConfig {
    pub secrets: Secrets,
    /// The identifier of the relay's own channel subscription.
    pub subscription_id: String,
    /// How long the relay rests after handling a message or finding none.
    pub pacing_secs: u64,
    /// Whether the connection is opened anew after the stream had no data.
    pub reconnect_on_idle: bool,
}

/// A relay's configuration as plain values.
pub struct RelayConfigView {
    pub secrets: SecretsView,
    pub subscription_id: Seq<char>,
    pub pacing_secs: u64,
    pub reconnect_on_idle: bool,
}

impl View for RelayConfig {
    type V = RelayConfigView;

    open spec fn view(&self) -> RelayConfigView {
        RelayConfigView {
            secrets: self.secrets@,
            subscription_id: self.subscription_id@,
            pacing_secs: self.pacing_secs,
            reconnect_on_idle: self.reconnect_on_idle,
        }
    }
}

/// Where the relay loop stands.
#[derive(Clone, Copy, Debug, PartialEq, Eq)]
pub enum RelayState {
    /// The connection is being opened.
    Connecting,
    /// The connection is open and messages are read from it.
    Listening,
    /// The loop has ended, for good.
    Terminated,
}

/// What happened when the last action was performed.
#[derive(Clone, Debug, PartialEq, Eq)]
pub enum Event {
    /// The connection is open and the subscribe message was sent.
    Connected,
    /// The connection could not be opened, or the subscribe message not sent.
    ConnectFailed,
    /// A text message was read.
    Text(String),
    /// A message that is no text was read.
    OtherFrame,
    /// The stream had no data at the moment.
    NoData,
    /// Reading failed in any other way.
    ReadFailed,
    /// The delivery attempt ended.
    Delivered(DeliveryOutcome),
}

/// An event as plain values.
pub enum EventView {
    Connected,
    ConnectFailed,
    Text(Seq<char>),
    OtherFrame,
    NoData,
    ReadFailed,
    Delivered(DeliveryOutcome),
}

impl View for Event {
    type V = EventView;

    open spec fn view(&self) -> EventView {
        match *self {
            Event::Connected => EventView::Connected,
            Event::ConnectFailed => EventView::ConnectFailed,
            Event::Text(text) => EventView::Text(text@),
            Event::OtherFrame => EventView::OtherFrame,
            Event::NoData => EventView::NoData,
            Event::ReadFailed => EventView::ReadFailed,
            Event::Delivered(outcome) => EventView::Delivered(outcome),
        }
    }
}

/// What the program does next.
#[derive(Clone, Debug, PartialEq, Eq)]
pub enum Action {
    /// Open the connection and send the subscribe message.
    Connect,
    /// Read one message from the connection.
    Read,
    /// Post this payload to the webhook, once.
    Deliver(String),
    /// Give up: the relay cannot run.
    Abort,
    /// Leave the loop and end the process.
    Exit,
}

/// An action as plain values.
pub enum ActionView {
    Connect,
    Read,
    Deliver(Seq<char>),
    Abort,
    Exit,
}

impl View for Action {
    type V = ActionView;

    open spec fn view(&self) -> ActionView {
        match *self {
            Action::Connect => ActionView::Connect,
            Action::Read => ActionView::Read,
            Action::Deliver(payload) => ActionView::Deliver(payload@),
            Action::Abort => ActionView::Abort,
            Action::Exit => ActionView::Exit,
        }
    }
}

/// What a step of the relay has to report.
#[derive(Clone, Copy, Debug, PartialEq, Eq)]
pub enum Notice {
    /// The stream connection is open.
    Connected,
    /// The stream connection could not be opened.
    ConnectFailed,
    /// A message was no JSON document and was skipped.
    Unreadable,
    /// A post of the target author arrived.
    TargetNote,
    /// The webhook took the payload.
    Delivered,
    /// The webhook did not take the payload.
    DeliveryFailed,
    /// Reading from the stream failed.
    ReadError,
}

/// The log line, or the head of it, that goes with a notice.
pub open spec fn notice_text(notice: Notice) -> Seq<char> {
    match notice {
        Notice::Connected => "Connected to Misskey Streaming API"@,
        Notice::ConnectFailed => "Failed to connect to Misskey Streaming API"@,
        Notice::Unreadable => "Skipped a message that is not JSON"@,
        Notice::TargetNote => "Received target note"@,
        Notice::Delivered => "Send message to Discord:"@,
        Notice::DeliveryFailed => "Failed to send message to Discord:"@,
        Notice::ReadError => "Message receive error:"@,
    }
}

impl Notice {
    /// The log line that goes with this notice. Where it ends in a colon,
    /// the details follow it: the payload, the response, or the error.
    pub fn text(&self) -> (text: &'static str)
        ensures
            text@ == notice_text(*self),
    {
        match self {
            Notice::Connected => "Connected to Misskey Streaming API",
            Notice::ConnectFailed => "Failed to connect to Misskey Streaming API",
            Notice::Unreadable => "Skipped a message that is not JSON",
            Notice::TargetNote => "Received target note",
            Notice::Delivered => "Send message to Discord:",
            Notice::DeliveryFailed => "Failed to send message to Discord:",
            Notice::ReadError => "Message receive error:",
        }
    }
}

/// The answer to one event.
#[derive(Clone, Debug, PartialEq, Eq)]
pub struct Step {
    /// The state after the event.
    pub next: RelayState,
    /// How many seconds to rest before the action.
    pub delay_secs: u64,
    /// What to do then.
    pub action: Action,
    /// What to write to the log, if anything.
    pub notice: Option<Notice>,
}

/// A step as plain values.
pub struct StepView {
    pub next: RelayState,
    pub delay_secs: u64,
    pub action: ActionView,
    pub notice: Option<Notice>,
}

impl View for Step {
    type V = StepView;

    open spec fn view(&self) -> StepView {
        StepView {
            next: self.next,
            delay_secs: self.delay_secs,
            action: self.action@,
            notice: self.notice,
        }
    }
}

/// The first step of a relay: open the connection.
pub open spec fn first_step() -> StepView {
    StepView {
        next: RelayState::Connecting,
        delay_secs: 0,
        action: ActionView::Connect,
        notice: None,
    }
}

/// Keep listening and read the next message at once.
pub open spec fn read_on(notice: Option<Notice>) -> StepView {
    StepView { next: RelayState::Listening, delay_secs: 0, action: ActionView::Read, notice }
}

/// Keep listening and read the next message after the pacing interval.
pub open spec fn rest_then_read(config: RelayConfigView, notice: Option<Notice>) -> StepView {
    StepView {
        next: RelayState::Listening,
        delay_secs: config.pacing_secs,
        action: ActionView::Read,
        notice,
    }
}

/// The loop is over.
pub open spec fn ended() -> StepView {
    StepView {
        next: RelayState::Terminated,
        delay_secs: 0,
        action: ActionView::Exit,
        notice: None,
    }
}

/// The step that answers a decoded event.
///
/// An event of another subscription is dropped and the next message read at
/// once. A target note is formatted and delivered. Any other event of the
/// relay's own subscription is followed by the pacing interval.
pub open spec fn dispatched(config: RelayConfigView, event: InboundEventView) -> StepView {
    if event.channel != config.subscription_id {
        read_on(None)
    } else if is_target(event, config.secrets.target_user_id) {
        StepView {
            next: RelayState::Listening,
            delay_secs: 0,
            action: ActionView::Deliver(note_info(event.post->0)),
            notice: Some(Notice::TargetNote),
        }
    } else {
        rest_then_read(config, None)
    }
}

/// The step that answers what decoding a text message gave.
pub open spec fn decoded_step(
    config: RelayConfigView,
    decoded: Result<InboundEventView, DecodeError>,
) -> StepView {
    match decoded {
        Ok(event) => dispatched(config, event),
        Err(DecodeError::NotJson) => read_on(Some(Notice::Unreadable)),
        Err(DecodeError::NoChannel) => read_on(None),
    }
}

/// The step that answers a text message.
pub open spec fn received(config: RelayConfigView, text: Seq<char>) -> StepView {
    decoded_step(config, parsed_event(text))
}

/// The step that answers the end of a delivery attempt: report it, rest, and
/// read on.
pub open spec fn after_delivery(config: RelayConfigView, outcome: DeliveryOutcome) -> StepView {
    rest_then_read(
        config,
        Some(
            if outcome is Accepted {
                Notice::Delivered
            } else {
                Notice::DeliveryFailed
            },
        ),
    )
}

/// The step that answers an idle stream: rest, then read on, or open the
/// connection anew where the configuration asks for it.
pub open spec fn after_idle(config: RelayConfigView) -> StepView {
    if config.reconnect_on_idle {
        StepView {
            next: RelayState::Connecting,
            delay_secs: config.pacing_secs,
            action: ActionView::Connect,
            notice: None,
        }
    } else {
        rest_then_read(config, None)
    }
}

/// The transition function of the relay.
///
/// While connecting, success leads to listening and failure ends the relay;
/// any other event has the connection opened again. While listening, a text
/// message is decoded and dispatched, a message that is no text is passed
/// over, an idle stream and a finished delivery are followed by the pacing
/// interval, and a read error ends the relay; an event of the connection
/// manager is passed over. Once terminated the relay stays so.
pub open spec fn next_step(config: RelayConfigView, state: RelayState, event: EventView) -> StepView {
    match state {
        RelayState::Connecting => match event {
            EventView::Connected => read_on(Some(Notice::Connected)),
            EventView::ConnectFailed => StepView {
                next: RelayState::Terminated,
                delay_secs: 0,
                action: ActionView::Abort,
                notice: Some(Notice::ConnectFailed),
            },
            _ => first_step(),
        },
        RelayState::Listening => match event {
            EventView::Text(text) => received(config, text),
            EventView::NoData => after_idle(config),
            EventView::ReadFailed => StepView {
                next: RelayState::Terminated,
                delay_secs: 0,
                action: ActionView::Exit,
                notice: Some(Notice::ReadError),
            },
            EventView::Delivered(outcome) => after_delivery(config, outcome),
            _ => read_on(None),
        },
        RelayState::Terminated => ended(),
    }
}

impl RelayConfig {
    /// A configuration with the default pacing interval that does not
    /// reconnect when the stream is idle.
    pub fn new(secrets: Secrets, subscription_id: String) -> (config: RelayConfig)
        ensures
            config.secrets == secrets,
            config.subscription_id == subscription_id,
            config.pacing_secs == DEFAULT_PACING_SECS,
            !config.reconnect_on_idle,
    {
        RelayConfig {
            secrets,
            subscription_id,
            pacing_secs: DEFAULT_PACING_SECS,
            reconnect_on_idle: false,
        }
    }
}

/// Starts a relay: the state is `Connecting` and the connection is to be
/// opened.
pub fn start() -> (step: Step)
    ensures
        step@ == first_step(),
{
    Step { next: RelayState::Connecting, delay_secs: 0, action: Action::Connect, notice: None }
}

fn read_next(delay_secs: u64, notice: Option<Notice>) -> (step: Step)
    ensures
        step@ == (StepView {
            next: RelayState::Listening,
            delay_secs,
            action: ActionView::Read,
            notice,
        }),
{
    Step { next: RelayState::Listening, delay_secs, action: Action::Read, notice }
}

/// Answers a decoded event.
///
/// An event whose channel is not the relay's subscription is dropped: the
/// filter is not asked, nothing is delivered, and the next message is read at
/// once. An event of the relay's subscription goes through the filter. If it
/// is a target note, its formatted payload is to be delivered; if not, the
/// relay rests for the pacing interval and reads on.
pub fn dispatch(config: &RelayConfig, event: &InboundEvent) -> (step: Step)
    ensures
        step@ == dispatched(config@, event@),
{
    if !same_text(event.channel.as_str(), config.subscription_id.as_str()) {
        return read_next(0, None);
    }
    match &event.post {
        Some(post) => {
            if is_target_note(event, &config.secrets) {
                Step {
                    next: RelayState::Listening,
                    delay_secs: 0,
                    action: Action::Deliver(generate_note_info(post)),
                    notice: Some(Notice::TargetNote),
                }
            } else {
                read_next(config.pacing_secs, None)
            }
        },
        None => read_next(config.pacing_secs, None),
    }
}

/// Answers what decoding a text message gave: a decoded event is dispatched;
/// a text that is no JSON document is reported and passed over; a document
/// without a channel is passed over.
pub fn dispatch_decoded(config: &RelayConfig, decoded: &Result<InboundEvent, DecodeError>) -> (step:
    Step)
    ensures
        step@ == decoded_step(
            config@,
            match *decoded {
                Ok(event) => Ok(event@),
                Err(e) => Err(e),
            },
        ),
{
    match decoded {
        Ok(event) => dispatch(config, event),
        Err(DecodeError::NotJson) => read_next(0, Some(Notice::Unreadable)),
        Err(DecodeError::NoChannel) => read_next(0, None),
    }
}

/// Answers a text message: decodes it and dispatches the outcome.
pub fn receive(config: &RelayConfig, text: &str) -> (step: Step)
    ensures
        step@ == received(config@, text@),
{
    let decoded = parse_event(text);
    dispatch_decoded(config, &decoded)
}

/// Answers one event in one state of the relay.
pub fn step(config: &RelayConfig, state: RelayState, event: &Event) -> (step: Step)
    ensures
        step@ == next_step(config@, state, event@),
{
    match state {
        RelayState::Connecting => match event {
            Event::Connected => read_next(0, Some(Notice::Connected)),
            Event::ConnectFailed => Step {
                next: RelayState::Terminated,
                delay_secs: 0,
                action: Action::Abort,
                notice: Some(Notice::ConnectFailed),
            },
            _ => start(),
        },
        RelayState::Listening => match event {
            Event::Text(text) => receive(config, text.as_str()),
            Event::NoData => {
                if config.reconnect_on_idle {
                    Step {
                        next: RelayState::Connecting,
                        delay_secs: config.pacing_secs,
                        action: Action::Connect,
                        notice: None,
                    }
                } else {
                    read_next(config.pacing_secs, None)
                }
            },
            Event::ReadFailed => Step {
                next: RelayState::Terminated,
                delay_secs: 0,
                action: Action::Exit,
                notice: Some(Notice::ReadError),
            },
            Event::Delivered(outcome) => {
                let notice = if outcome.is_success() {
                    Notice::Delivered
                } else {
                    Notice::DeliveryFailed
                };
                read_next(config.pacing_secs, Some(notice))
            },
            _ => read_next(0, None),
        },
        RelayState::Terminated => Step {
            next: RelayState::Terminated,
            delay_secs: 0,
            action: Action::Exit,
            notice: None,
        },
    }
}

/// An event of another subscription never reaches the filter and is never
/// delivered: whatever its payload, and whoever the target author is, it is
/// dropped and the next message is read at once.
pub proof fn lemma_foreign_event_is_dropped(config: RelayConfigView, event: InboundEventView)
    requires
        event.channel != config.subscription_id,
    ensures
        dispatched(config, event) == read_on(None),
        !(dispatched(config, event).action is Deliver),
        forall|other: InboundEventView, target: Seq<char>|
            other.channel == event.channel ==> #[trigger] dispatched(
                RelayConfigView {
                    secrets: SecretsView { target_user_id: target, ..config.secrets },
                    ..config
                },
                other,
            ) == dispatched(config, event),
{
}

/// A text message that decodes to an event of another subscription is
/// answered, in the listening relay, by reading the next message at once,
/// without a delivery.
pub proof fn lemma_foreign_message_is_dropped(
    config: RelayConfigView,
    text: Seq<char>,
    event: InboundEventView,
)
    requires
        parsed_event(text) == Ok::<InboundEventView, DecodeError>(event),
        event.channel != config.subscription_id,
    ensures
        next_step(config, RelayState::Listening, EventView::Text(text)) == read_on(None),
{
}

/// The relay asks for a delivery only while listening, only in answer to a
/// text message that decodes to a target note of its own subscription, and
/// then for the formatted payload of that note.
pub proof fn lemma_delivery_only_of_target_notes(
    config: RelayConfigView,
    state: RelayState,
    event: EventView,
)
    requires
        next_step(config, state, event).action is Deliver,
    ensures
        state == RelayState::Listening,
        event is Text,
        parsed_event(event->Text_0) is Ok,
        ({
            let decoded = parsed_event(event->Text_0)->Ok_0;
            &&& decoded.channel == config.subscription_id
            &&& is_target(decoded, config.secrets.target_user_id)
            &&& next_step(config, state, event).action == ActionView::Deliver(
                note_info(decoded.post->0),
            )
        }),
{
}

/// A relay that has terminated stays terminated, whatever happens.
pub proof fn lemma_terminated_is_final(config: RelayConfigView, event: EventView)
    ensures
        next_step(config, RelayState::Terminated, event) == ended(),
{
}

/// Neither an idle stream nor the end of a delivery attempt, failed or not,
/// ends the listening relay or has anything delivered: the relay rests for
/// the pacing interval and goes on.
pub proof fn lemma_idle_and_delivery_go_on(config: RelayConfigView, event: EventView)
    requires
        event is NoData || event is Delivered,
    ensures
        ({
            let step = next_step(config, RelayState::Listening, event);
            &&& step.next != RelayState::Terminated
            &&& step.delay_secs == config.pacing_secs
            &&& step.action is Read || step.action is Connect
            &&& event is Delivered ==> step == rest_then_read(config, step.notice)
        }),
{
}

/// The listening relay ends only on a read error, and the connecting relay
/// only when the connection cannot be opened.
pub proof fn lemma_termination_causes(config: RelayConfigView, state: RelayState, event: EventView)
    requires
        state != RelayState::Terminated,
        next_step(config, state, event).next == RelayState::Terminated,
    ensures
        state == RelayState::Listening ==> event is ReadFailed,
        state == RelayState::Connecting ==> event is ConnectFailed,
{
}

} // verus!
