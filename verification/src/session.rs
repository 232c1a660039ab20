//! The feed session as a state machine: each step takes what happened and
//! says what to do next. The caller does the network and output work.

use vstd::prelude::*;
use vstd::string::*;
use crate::decode::{decode, decoded, is_message, outcome_view};
use crate::error::{DecodeError, FeedError};
use crate::json::{json_parsed, JsonTree};
use crate::render::{render, table_text};
use crate::snapshot::{DepthSnapshot, SnapshotView};
use crate::subscribe::{
    request_text, stream_url, stream_url_text, SubscriptionRequest, SubscriptionView,
};

verus! {

/// Where a session stands.
#[derive(Clone, Copy, Debug, PartialEq, Eq, Structural)]
pub enum Phase {
    /// Nothing has been opened.
    Disconnected,
    /// The channel is being opened, or the subscription is being sent.
    Connecting,
    /// The subscription was sent; no frame has arrived yet.
    Subscribed,
    /// Frames are being received.
    Streaming,
    /// The stream ended in order.
    Closed,
    /// The session broke off.
    Failed,
}

/// What happened since the last step.
#[derive(Clone, Debug, PartialEq, Eq)]
pub enum Event {
    /// A session is asked for, with the token to open it.
    Open { token: String },
    /// The channel is open.
    Connected,
    /// The channel could not be opened.
    ConnectFailed,
    /// The frame was sent.
    Sent,
    /// The frame could not be sent.
    SendFailed,
    /// A text frame arrived.
    Text { text: String },
    /// A binary or control frame arrived.
    Ignored,
    /// The channel was closed, by the peer or locally.
    EndOfStream,
    /// The channel failed.
    ChannelFailed,
    /// The table could not be written out.
    WriteFailed,
}

/// An event, its texts taken as sequences of characters.
pub enum EventView {
    Open { token: Seq<char> },
    Connected,
    ConnectFailed,
    Sent,
    SendFailed,
    Text { text: Seq<char> },
    Ignored,
    EndOfStream,
    ChannelFailed,
    WriteFailed,
}

impl View for Event {
    type V = EventView;

    open spec fn view(&self) -> EventView {
        match *self {
            Event::Open { token } => EventView::Open { token: token@ },
            Event::Connected => EventView::Connected,
            Event::ConnectFailed => EventView::ConnectFailed,
            Event::Sent => EventView::Sent,
            Event::SendFailed => EventView::SendFailed,
            Event::Text { text } => EventView::Text { text: text@ },
            Event::Ignored => EventView::Ignored,
            Event::EndOfStream => EventView::EndOfStream,
            Event::ChannelFailed => EventView::ChannelFailed,
            Event::WriteFailed => EventView::WriteFailed,
        }
    }
}

/// What the caller is to do next. After `Receive`, `Show` and `Report` the
/// caller waits for the next frame.
#[derive(Debug, PartialEq, Eq)]
pub enum Action {
    /// Open the channel at this address.
    Connect { url: String },
    /// Send this text frame.
    Send { text: String },
    /// Wait for the next frame.
    Receive,
    /// Write this table out, then wait for the next frame.
    Show { table: String },
    /// Report this dropped frame, then wait for the next frame.
    Report { error: DecodeError },
    /// Stop, with this outcome.
    Stop { outcome: Result<(), FeedError> },
}

/// An action, its texts taken as sequences of characters.
pub enum ActionView {
    Connect { url: Seq<char> },
    Send { text: Seq<char> },
    Receive,
    Show { table: Seq<char> },
    Report { error: DecodeError },
    Stop { outcome: Result<(), FeedError> },
}

impl View for Action {
    type V = ActionView;

    open spec fn view(&self) -> ActionView {
        match *self {
            Action::Connect { url } => ActionView::Connect { url: url@ },
            Action::Send { text } => ActionView::Send { text: text@ },
            Action::Receive => ActionView::Receive,
            Action::Show { table } => ActionView::Show { table: table@ },
            Action::Report { error } => ActionView::Report { error },
            Action::Stop { outcome } => ActionView::Stop { outcome },
        }
    }
}

/// One step of a session: the phase it enters and what to do there.
#[derive(Debug, PartialEq, Eq)]
pub struct Transition {
    pub phase: Phase,
    pub action: Action,
}

/// Whether a phase is one that a session never leaves.
pub open spec fn is_terminal(phase: Phase) -> bool {
    phase == Phase::Closed || phase == Phase::Failed
}

/// Whether frames can arrive in a phase.
pub open spec fn is_receiving(phase: Phase) -> bool {
    phase == Phase::Subscribed || phase == Phase::Streaming
}

/// What a decoded frame asks for: nothing for no event, the table for a
/// snapshot, a report for a malformed frame.
pub open spec fn frame_action_of(outcome: Result<Option<SnapshotView>, DecodeError>) -> ActionView {
    match outcome {
        Ok(None) => ActionView::Receive,
        Ok(Some(snapshot)) => ActionView::Show { table: table_text(snapshot) },
        Err(error) => ActionView::Report { error },
    }
}

/// The end of a session that was handed an event its phase does not expect.
pub open spec fn misuse() -> (Phase, ActionView) {
    (Phase::Failed, ActionView::Stop { outcome: Err(FeedError::Protocol) })
}

/// The end of a session on a failure of the network.
pub open spec fn broken() -> (Phase, ActionView) {
    (Phase::Failed, ActionView::Stop { outcome: Err(FeedError::Transport) })
}

/// The text of the frame that an event carries, empty for any other event.
pub open spec fn frame_text(event: EventView) -> Seq<char> {
    match event {
        EventView::Text { text } => text,
        _ => Seq::empty(),
    }
}

/// The step that a session takes: from a phase and an event to the next
/// phase and the action. `parsed` is what the text of a frame parses to.
pub open spec fn next_step(
    phase: Phase,
    event: EventView,
    parsed: Option<JsonTree>,
    request: SubscriptionView,
) -> (Phase, ActionView) {
    match phase {
        Phase::Disconnected => match event {
            EventView::Open { token } => (
                Phase::Connecting,
                ActionView::Connect { url: stream_url_text(token) },
            ),
            _ => misuse(),
        },
        Phase::Connecting => match event {
            EventView::Connected => (
                Phase::Connecting,
                ActionView::Send { text: request_text(request) },
            ),
            EventView::Sent => (Phase::Subscribed, ActionView::Receive),
            EventView::ConnectFailed => broken(),
            EventView::SendFailed => broken(),
            _ => misuse(),
        },
        Phase::Subscribed | Phase::Streaming => match event {
            EventView::Text { text } => (Phase::Streaming, frame_action_of(decoded(parsed))),
            EventView::Ignored => (Phase::Streaming, ActionView::Receive),
            EventView::EndOfStream => (Phase::Closed, ActionView::Stop { outcome: Ok(()) }),
            EventView::ChannelFailed => broken(),
            EventView::WriteFailed => (
                Phase::Failed,
                ActionView::Stop { outcome: Err(FeedError::Output) },
            ),
            _ => misuse(),
        },
        Phase::Closed => (Phase::Closed, ActionView::Stop { outcome: Ok(()) }),
        Phase::Failed => misuse(),
    }
}

/// A closed or failed session stays where it is, whatever happens, and only
/// ever says to stop.
pub proof fn lemma_terminal_phases_stay(
    phase: Phase,
    event: EventView,
    parsed: Option<JsonTree>,
    request: SubscriptionView,
)
    requires
        is_terminal(phase),
    ensures
        next_step(phase, event, parsed, request).0 == phase,
        next_step(phase, event, parsed, request).1 is Stop,
{
}

/// A session reaches `Subscribed` only from `Connecting` and only when the
/// subscription was sent, and `Streaming` only from a phase in which frames
/// arrive: never from a closed or failed session.
pub proof fn lemma_phases_reached_in_order(
    phase: Phase,
    event: EventView,
    parsed: Option<JsonTree>,
    request: SubscriptionView,
)
    ensures
        next_step(phase, event, parsed, request).0 == Phase::Connecting ==> (phase
            == Phase::Disconnected && event is Open) || (phase == Phase::Connecting
            && event is Connected),
        next_step(phase, event, parsed, request).0 == Phase::Subscribed ==> phase
            == Phase::Connecting && event is Sent,
        next_step(phase, event, parsed, request).0 == Phase::Streaming ==> is_receiving(phase),
        next_step(phase, event, parsed, request).0 != Phase::Disconnected,
{
}

/// No text frame ends a session: whatever the frame holds, the session goes
/// on streaming, and a malformed frame is reported with its own error.
pub proof fn lemma_text_frame_keeps_streaming(
    phase: Phase,
    text: Seq<char>,
    parsed: Option<JsonTree>,
    request: SubscriptionView,
)
    requires
        is_receiving(phase),
    ensures
        next_step(phase, EventView::Text { text }, parsed, request).0 == Phase::Streaming,
        !(next_step(phase, EventView::Text { text }, parsed, request).1 is Stop),
        decoded(parsed) matches Err(error) ==> next_step(
            phase,
            EventView::Text { text },
            parsed,
            request,
        ).1 == (ActionView::Report { error }),
{
}

/// A frame that is no data update decodes to no event and has nothing
/// shown; a table is shown only for a data update.
pub proof fn lemma_only_messages_are_shown(
    phase: Phase,
    event: EventView,
    tree: JsonTree,
    request: SubscriptionView,
)
    ensures
        !is_message(tree) ==> decoded(Some(tree)) == Ok::<Option<SnapshotView>, DecodeError>(None),
        !is_message(tree) && is_receiving(phase) && event is Text ==> next_step(
            phase,
            event,
            Some(tree),
            request,
        ).1 == ActionView::Receive,
        next_step(phase, event, Some(tree), request).1 is Show ==> is_message(tree) && event is Text,
{
}

/// What a decoded frame asks for.
pub fn frame_action(outcome: Result<Option<DepthSnapshot>, DecodeError>) -> (res: Action)
    ensures
        res@ == frame_action_of(outcome_view(outcome)),
{
    match outcome {
        Ok(None) => Action::Receive,
        Ok(Some(snapshot)) => Action::Show { table: render(&snapshot) },
        Err(error) => Action::Report { error },
    }
}

/// Takes one step of a session.
pub fn step(phase: Phase, event: Event, request: &SubscriptionRequest) -> (res: Transition)
    ensures
        (res.phase, res.action@) == next_step(
            phase,
            event@,
            json_parsed(frame_text(event@)),
            request@,
        ),
{
    let misuse = Transition {
        phase: Phase::Failed,
        action: Action::Stop { outcome: Err(FeedError::Protocol) },
    };
    let broken = Transition {
        phase: Phase::Failed,
        action: Action::Stop { outcome: Err(FeedError::Transport) },
    };
    match phase {
        Phase::Disconnected => match event {
            Event::Open { token } => Transition {
                phase: Phase::Connecting,
                action: Action::Connect { url: stream_url(token.as_str()) },
            },
            _ => misuse,
        },
        Phase::Connecting => match event {
            Event::Connected => Transition {
                phase: Phase::Connecting,
                action: Action::Send { text: request.to_text() },
            },
            Event::Sent => Transition { phase: Phase::Subscribed, action: Action::Receive },
            Event::ConnectFailed => broken,
            Event::SendFailed => broken,
            _ => misuse,
        },
        Phase::Subscribed | Phase::Streaming => match event {
            Event::Text { text } => Transition {
                phase: Phase::Streaming,
                action: frame_action(decode(text.as_str())),
            },
            Event::Ignored => Transition { phase: Phase::Streaming, action: Action::Receive },
            Event::EndOfStream => Transition {
                phase: Phase::Closed,
                action: Action::Stop { outcome: Ok(()) },
            },
            Event::ChannelFailed => broken,
            Event::WriteFailed => Transition {
                phase: Phase::Failed,
                action: Action::Stop { outcome: Err(FeedError::Output) },
            },
            _ => misuse,
        },
        Phase::Closed => Transition {
            phase: Phase::Closed,
            action: Action::Stop { outcome: Ok(()) },
        },
        Phase::Failed => misuse,
    }
}

/// Starts a session with a token: the session is connecting, and the caller
/// is to open the channel at the address that holds the token.
pub fn connect_data(token: String) -> (res: Transition)
    ensures
        res.phase == Phase::Connecting,
        res.action@ == (ActionView::Connect { url: stream_url_text(token@) }),
{
    Transition {
        phase: Phase::Connecting,
        action: Action::Connect { url: stream_url(token.as_str()) },
    }
}

} // verus!
