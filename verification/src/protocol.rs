//! The vocabulary between the handler and its driver: what the driver
//! reports, what the handler asks for, and the phases in between.

use vstd::prelude::*;
use crate::record::{MarketData, Tick};

verus! {

/// Why a run of the ingestion loop ended in failure.
#[derive(Debug, Clone, Copy, PartialEq, Eq, Structural)]
pub enum FeedError {
    /// The transport connection could not be established.
    Handshake,
    /// The subscription request or a keepalive reply could not be sent.
    Send,
    /// The transport failed while the next message was awaited.
    Receive,
}

/// The subscription request that is sent once per connection.
#[derive(Debug, PartialEq, Eq)]
pub struct Subscription {
    pub kind: String,
    pub channels: Vec<String>,
}

/// What a [`Subscription`] is, mathematically.
pub struct SubscriptionView {
    pub kind: Seq<char>,
    pub channels: Seq<Seq<char>>,
}

impl View for Subscription {
    type V = SubscriptionView;

    open spec fn view(&self) -> SubscriptionView {
        SubscriptionView {
            kind: self.kind@,
            channels: self.channels@.map_values(|c: String| c@),
        }
    }
}

/// The request for the `ticker` and `trades` channels.
pub open spec fn subscription_request() -> SubscriptionView {
    SubscriptionView { kind: "subscribe"@, channels: seq!["ticker"@, "trades"@] }
}

impl Subscription {
    /// The request for the `ticker` and `trades` channels.
    pub fn market_data() -> (request: Subscription)
        ensures
            request@ == subscription_request(),
    {
        let mut channels: Vec<String> = Vec::new();
        channels.push("ticker".to_owned());
        channels.push("trades".to_owned());
        let request = Subscription { kind: "subscribe".to_owned(), channels };
        assert(request@.channels =~= subscription_request().channels);
        request
    }
}

/// An inbound message, as the handler tells messages apart.
#[derive(Debug, PartialEq, Eq)]
pub enum Inbound {
    /// A text message, with the record that its payload decodes to, or
    /// `None` where the payload is no record.
    Text(Option<MarketData>),
    /// A keepalive probe with its payload bytes.
    Ping(Vec<u8>),
    /// The peer's termination notice.
    Close,
    /// Any other message: binary data, a keepalive acknowledgment, a raw
    /// frame.
    Other,
}

/// What an [`Inbound`] is, mathematically.
pub enum InboundView {
    Text(Option<Tick>),
    Ping(Seq<u8>),
    Close,
    Other,
}

impl View for Inbound {
    type V = InboundView;

    open spec fn view(&self) -> InboundView {
        match self {
            Inbound::Text(Some(record)) => InboundView::Text(Some(record@)),
            Inbound::Text(None) => InboundView::Text(None),
            Inbound::Ping(payload) => InboundView::Ping(payload@),
            Inbound::Close => InboundView::Close,
            Inbound::Other => InboundView::Other,
        }
    }
}

/// What the driver reports back: the outcome of the action it was handed
/// last.
#[derive(Debug, PartialEq, Eq)]
pub enum Event {
    /// The transport connection stands.
    HandshakeDone,
    /// The transport connection could not be established.
    HandshakeFailed,
    /// The outbound message has been sent.
    SendDone,
    /// The outbound message could not be sent.
    SendFailed,
    /// The next inbound message has arrived.
    Message(Inbound),
    /// The transport failed while the next message was awaited.
    ReceiveFailed,
    /// The inbound stream has ended without a termination notice.
    EndOfStream,
}

/// What an [`Event`] is, mathematically.
pub enum EventView {
    HandshakeDone,
    HandshakeFailed,
    SendDone,
    SendFailed,
    Message(InboundView),
    ReceiveFailed,
    EndOfStream,
}

impl View for Event {
    type V = EventView;

    open spec fn view(&self) -> EventView {
        match self {
            Event::HandshakeDone => EventView::HandshakeDone,
            Event::HandshakeFailed => EventView::HandshakeFailed,
            Event::SendDone => EventView::SendDone,
            Event::SendFailed => EventView::SendFailed,
            Event::Message(inbound) => EventView::Message(inbound@),
            Event::ReceiveFailed => EventView::ReceiveFailed,
            Event::EndOfStream => EventView::EndOfStream,
        }
    }
}

/// What the handler asks its driver to do next.
#[derive(Debug, PartialEq, Eq)]
pub enum Action {
    /// Open the transport connection to this endpoint address.
    OpenTransport(String),
    /// Send this subscription request.
    SendSubscription(Subscription),
    /// Wait for the next inbound message.
    AwaitMessage,
    /// Send a keepalive acknowledgment with these payload bytes.
    SendPong(Vec<u8>),
    /// Stop: the run has ended with this result.
    Finish(Result<(), FeedError>),
}

/// What an [`Action`] is, mathematically.
pub enum ActionView {
    OpenTransport(Seq<char>),
    SendSubscription(SubscriptionView),
    AwaitMessage,
    SendPong(Seq<u8>),
    Finish(Result<(), FeedError>),
}

impl View for Action {
    type V = ActionView;

    open spec fn view(&self) -> ActionView {
        match self {
            Action::OpenTransport(url) => ActionView::OpenTransport(url@),
            Action::SendSubscription(request) => ActionView::SendSubscription(request@),
            Action::AwaitMessage => ActionView::AwaitMessage,
            Action::SendPong(payload) => ActionView::SendPong(payload@),
            Action::Finish(result) => ActionView::Finish(*result),
        }
    }
}

/// Where a run of the ingestion loop stands.
#[derive(Debug, PartialEq, Eq)]
pub enum Phase {
    /// No connection yet: the transport handshake is awaited.
    Unconnected,
    /// The connection stands and the subscription request is on its way.
    Connected,
    /// Subscribed: the next inbound message is awaited.
    Streaming,
    /// Streaming, with the acknowledgment of a keepalive probe on its way;
    /// no further message is taken before it has been sent.
    Replying(Vec<u8>),
    /// The run has ended with this result. Terminal.
    Closed(Result<(), FeedError>),
}

/// What a [`Phase`] is, mathematically.
pub enum PhaseView {
    Unconnected,
    Connected,
    Streaming,
    Replying(Seq<u8>),
    Closed(Result<(), FeedError>),
}

impl View for Phase {
    type V = PhaseView;

    open spec fn view(&self) -> PhaseView {
        match self {
            Phase::Unconnected => PhaseView::Unconnected,
            Phase::Connected => PhaseView::Connected,
            Phase::Streaming => PhaseView::Streaming,
            Phase::Replying(payload) => PhaseView::Replying(payload@),
            Phase::Closed(result) => PhaseView::Closed(*result),
        }
    }
}

} // verus!
