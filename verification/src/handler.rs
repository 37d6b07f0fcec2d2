//! The feed handler: one connection lifecycle at a time, feeding the history
//! store.

use vstd::prelude::*;
use crate::lifecycle::{FeedState, due_action, next_state, restarted};
use crate::protocol::{Action, Event, FeedError, Inbound, Phase, PhaseView, Subscription};
use crate::record::{MarketData, Tick, ticks};
use crate::store::{CAPACITY, HistoryStore};

verus! {

/// The decisions of the ingestion loop, and the history that the loop fills.
///
/// The handler does no I/O. Its driver starts a run with
/// [`connect`](FeedHandler::connect), performs the action it is handed,
/// reports the outcome to [`advance`](FeedHandler::advance), and goes on with
/// the action that comes back, until that action is [`Action::Finish`].
#[derive(Debug)]
pub struct FeedHandler {
    url: String,
    store: HistoryStore,
    phase: Phase,
}

impl View for FeedHandler {
    type V = FeedState;

    closed spec fn view(&self) -> FeedState {
        FeedState { url: self.url@, phase: self.phase@, history: self.store@ }
    }
}

impl FeedHandler {
    /// A handler for the endpoint at `url`, unconnected and with an empty
    /// history.
    pub fn new(url: String) -> (handler: Self)
        ensures
            handler@ == (FeedState {
                url: url@,
                phase: PhaseView::Unconnected,
                history: Seq::<Tick>::empty(),
            }),
    {
        FeedHandler { url, store: HistoryStore::new(), phase: Phase::Unconnected }
    }

    /// The endpoint address.
    pub fn url(&self) -> (url: &str)
        ensures
            url@ == self@.url,
    {
        self.url.as_str()
    }

    /// The phase of the current run.
    pub fn phase(&self) -> (phase: &Phase)
        ensures
            phase@ == self@.phase,
    {
        &self.phase
    }

    /// The action that the handler asks of its driver in its present state.
    pub fn next_action(&self) -> (action: Action)
        ensures
            action@ == due_action(self@),
    {
        match &self.phase {
            Phase::Unconnected => Action::OpenTransport(self.url.clone()),
            Phase::Connected => Action::SendSubscription(Subscription::market_data()),
            Phase::Streaming => Action::AwaitMessage,
            Phase::Replying(payload) => Action::SendPong(payload.clone()),
            Phase::Closed(result) => Action::Finish(*result),
        }
    }

    /// Starts a run of the ingestion loop: whatever run came before is left
    /// behind, the history stays, and the driver is asked to open the
    /// transport connection.
    pub fn connect(&mut self) -> (action: Action)
        ensures
            final(self)@ == restarted(old(self)@),
            action@ == due_action(final(self)@),
    {
        self.phase = Phase::Unconnected;
        self.next_action()
    }

    /// Takes the outcome of the action handed out last, moves the run on, and
    /// returns the action to perform next.
    pub fn advance(&mut self, event: Event) -> (action: Action)
        ensures
            final(self)@ == next_state(old(self)@, event@),
            action@ == due_action(final(self)@),
    {
        let mut phase = Phase::Unconnected;
        std::mem::swap(&mut phase, &mut self.phase);
        let next = match phase {
            Phase::Unconnected => match event {
                Event::HandshakeDone => Phase::Connected,
                Event::HandshakeFailed => Phase::Closed(Err(FeedError::Handshake)),
                _ => Phase::Unconnected,
            },
            Phase::Connected => match event {
                Event::SendDone => Phase::Streaming,
                Event::SendFailed => Phase::Closed(Err(FeedError::Send)),
                _ => Phase::Connected,
            },
            Phase::Streaming => match event {
                Event::Message(Inbound::Text(Some(record))) => {
                    self.store.append(record);
                    Phase::Streaming
                },
                Event::Message(Inbound::Ping(payload)) => Phase::Replying(payload),
                Event::Message(Inbound::Close) => Phase::Closed(Ok(())),
                Event::ReceiveFailed => Phase::Closed(Err(FeedError::Receive)),
                Event::EndOfStream => Phase::Closed(Ok(())),
                _ => Phase::Streaming,
            },
            Phase::Replying(payload) => match event {
                Event::SendDone => Phase::Streaming,
                Event::SendFailed => Phase::Closed(Err(FeedError::Send)),
                _ => Phase::Replying(payload),
            },
            Phase::Closed(result) => Phase::Closed(result),
        };
        self.phase = next;
        self.next_action()
    }

    /// An independent copy of the history gathered so far, oldest record
    /// first.
    pub fn get_latest_data(&self) -> (records: Vec<MarketData>)
        ensures
            ticks(records@) == self@.history,
            records@.len() <= CAPACITY,
    {
        self.store.snapshot()
    }
}

} // verus!
