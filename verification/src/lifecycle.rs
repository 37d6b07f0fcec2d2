//! The connection lifecycle as a state machine over mathematical values:
//! how each reported event moves the handler on, and which action each state
//! asks for.

use vstd::prelude::*;
use crate::protocol::{
    ActionView, EventView, FeedError, InboundView, PhaseView, subscription_request,
};
use crate::record::Tick;
use crate::store::{CAPACITY, appended, appended_all};

verus! {

/// What a handler is, mathematically: its endpoint address, the phase of its
/// current run, and the history it has gathered.
pub struct FeedState {
    pub url: Seq<char>,
    pub phase: PhaseView,
    pub history: Seq<Tick>,
}

/// The state of a handler that starts a run: no connection yet, endpoint
/// address and history as they were.
pub open spec fn restarted(state: FeedState) -> FeedState {
    FeedState { phase: PhaseView::Unconnected, ..state }
}

/// The state that follows `state` once the driver has reported `event`.
///
/// An event that does not answer what the phase awaits leaves the state as
/// it is, and so does every event once the run is closed.
pub open spec fn next_state(state: FeedState, event: EventView) -> FeedState {
    match (state.phase, event) {
        (PhaseView::Unconnected, EventView::HandshakeDone) => FeedState {
            phase: PhaseView::Connected,
            ..state
        },
        (PhaseView::Unconnected, EventView::HandshakeFailed) => FeedState {
            phase: PhaseView::Closed(Err(FeedError::Handshake)),
            ..state
        },
        (PhaseView::Connected, EventView::SendDone) => FeedState {
            phase: PhaseView::Streaming,
            ..state
        },
        (PhaseView::Connected, EventView::SendFailed) => FeedState {
            phase: PhaseView::Closed(Err(FeedError::Send)),
            ..state
        },
        (PhaseView::Streaming, EventView::Message(InboundView::Text(Some(record)))) => FeedState {
            history: appended(state.history, record),
            ..state
        },
        (PhaseView::Streaming, EventView::Message(InboundView::Ping(payload))) => FeedState {
            phase: PhaseView::Replying(payload),
            ..state
        },
        (PhaseView::Streaming, EventView::Message(InboundView::Close)) => FeedState {
            phase: PhaseView::Closed(Ok(())),
            ..state
        },
        (PhaseView::Streaming, EventView::ReceiveFailed) => FeedState {
            phase: PhaseView::Closed(Err(FeedError::Receive)),
            ..state
        },
        (PhaseView::Streaming, EventView::EndOfStream) => FeedState {
            phase: PhaseView::Closed(Ok(())),
            ..state
        },
        (PhaseView::Replying(_), EventView::SendDone) => FeedState {
            phase: PhaseView::Streaming,
            ..state
        },
        (PhaseView::Replying(_), EventView::SendFailed) => FeedState {
            phase: PhaseView::Closed(Err(FeedError::Send)),
            ..state
        },
        _ => state,
    }
}

/// The action that `state` asks of the driver.
pub open spec fn due_action(state: FeedState) -> ActionView {
    match state.phase {
        PhaseView::Unconnected => ActionView::OpenTransport(state.url),
        PhaseView::Connected => ActionView::SendSubscription(subscription_request()),
        PhaseView::Streaming => ActionView::AwaitMessage,
        PhaseView::Replying(payload) => ActionView::SendPong(payload),
        PhaseView::Closed(result) => ActionView::Finish(result),
    }
}

/// The state that follows `state` once the driver has reported the events of
/// `events` one by one, first to last.
pub open spec fn state_after(state: FeedState, events: Seq<EventView>) -> FeedState
    decreases events.len(),
{
    if events.len() == 0 {
        state
    } else {
        next_state(state_after(state, events.drop_last()), events.last())
    }
}

/// The event that reports a text message whose payload decoded to `record`.
pub open spec fn record_event(record: Tick) -> EventView {
    EventView::Message(InboundView::Text(Some(record)))
}

/// A text message that decodes to a record, taken while streaming, appends
/// that record to the history, and the run goes on with the next message.
pub proof fn lemma_record_is_appended(state: FeedState, record: Tick)
    requires
        state.phase is Streaming,
    ensures
        next_state(state, record_event(record)) == (FeedState {
            history: appended(state.history, record),
            ..state
        }),
        due_action(next_state(state, record_event(record))) == ActionView::AwaitMessage,
{
}

/// A text message that decodes to no record changes nothing, in whatever
/// state it is reported: the history keeps its length and its contents, and
/// a run that was streaming goes on with the next message.
pub proof fn lemma_malformed_text_is_dropped(state: FeedState)
    ensures
        next_state(state, EventView::Message(InboundView::Text(None))) == state,
        state.phase is Streaming ==> due_action(
            next_state(state, EventView::Message(InboundView::Text(None))),
        ) == ActionView::AwaitMessage,
{
}

/// A message that is neither text, keepalive probe nor termination notice
/// changes nothing, in whatever state it is reported.
pub proof fn lemma_other_message_is_ignored(state: FeedState)
    ensures
        next_state(state, EventView::Message(InboundView::Other)) == state,
{
}

/// A keepalive probe with payload `payload`, taken while streaming, is
/// answered by exactly one acknowledgment with the same payload: the action
/// that follows the probe is that acknowledgment, no message is taken before
/// it has been sent, and once it has been sent the handler is back where it
/// was before the probe, its history untouched throughout.
pub proof fn lemma_ping_is_answered_once(state: FeedState, payload: Seq<u8>)
    requires
        state.phase is Streaming,
    ensures
        ({
            let probed = next_state(state, EventView::Message(InboundView::Ping(payload)));
            &&& due_action(probed) == ActionView::SendPong(payload)
            &&& probed.history == state.history
            &&& forall|inbound: InboundView|
                #[trigger] next_state(probed, EventView::Message(inbound)) == probed
            &&& next_state(probed, EventView::SendDone) == state
            &&& due_action(next_state(probed, EventView::SendDone)) == ActionView::AwaitMessage
        }),
{
}

/// A send that fails ends the run with [`FeedError::Send`], be it the
/// subscription request or a keepalive acknowledgment.
pub proof fn lemma_failed_send_is_fatal(state: FeedState)
    requires
        state.phase is Connected || state.phase is Replying,
    ensures
        due_action(next_state(state, EventView::SendFailed)) == ActionView::Finish(
            Err(FeedError::Send),
        ),
        next_state(state, EventView::SendFailed).history == state.history,
{
}

/// Once a run is closed, nothing that is reported changes the handler: the
/// history stays as it is and the action stays the run's result.
pub proof fn lemma_closed_is_terminal(state: FeedState, events: Seq<EventView>)
    requires
        state.phase is Closed,
    ensures
        state_after(state, events) == state,
    decreases events.len(),
{
    if events.len() > 0 {
        lemma_closed_is_terminal(state, events.drop_last());
    }
}

/// A termination notice, taken while streaming, ends the run with success,
/// and whatever `buffered` holds behind it is not consumed: the handler is
/// left as the notice alone leaves it, with the history it had.
pub proof fn lemma_close_ends_the_run(state: FeedState, buffered: Seq<EventView>)
    requires
        state.phase is Streaming,
    ensures
        state_after(state, seq![EventView::Message(InboundView::Close)] + buffered) == (FeedState {
            phase: PhaseView::Closed(Ok(())),
            ..state
        }),
        due_action(state_after(state, seq![EventView::Message(InboundView::Close)] + buffered))
            == ActionView::Finish(Ok(())),
    decreases buffered.len(),
{
    let notice = seq![EventView::Message(InboundView::Close)];
    if buffered.len() == 0 {
        assert(notice + buffered =~= notice);
        assert(state_after(state, notice.drop_last()) == state);
    } else {
        lemma_close_ends_the_run(state, buffered.drop_last());
        assert((notice + buffered).drop_last() =~= notice + buffered.drop_last());
    }
}

/// Records that arrive while streaming are appended in arrival order: after
/// the text messages that decode to `records`, the history is what appending
/// them one by one gives, and the run is still streaming.
pub proof fn lemma_records_arrive_in_order(state: FeedState, records: Seq<Tick>)
    requires
        state.phase is Streaming,
    ensures
        state_after(state, records.map_values(|r: Tick| record_event(r))) == (FeedState {
            history: appended_all(state.history, records),
            ..state
        }),
    decreases records.len(),
{
    let events = records.map_values(|r: Tick| record_event(r));
    if records.len() > 0 {
        lemma_records_arrive_in_order(state, records.drop_last());
        assert(events.drop_last() =~= records.drop_last().map_values(|r: Tick| record_event(r)));
    }
}

/// Reporting `first` and then `later` is reporting the two in one go.
pub proof fn lemma_state_after_composes(
    state: FeedState,
    first: Seq<EventView>,
    later: Seq<EventView>,
)
    ensures
        state_after(state, first + later) == state_after(state_after(state, first), later),
    decreases later.len(),
{
    if later.len() == 0 {
        assert(first + later =~= first);
    } else {
        lemma_state_after_composes(state, first, later.drop_last());
        assert((first + later).drop_last() =~= first + later.drop_last());
    }
}

/// A text message that decodes to no record leaves no trace, wherever in
/// the stream of events it stands: the handler ends up as if the message had
/// never arrived.
pub proof fn lemma_malformed_text_leaves_no_trace(
    state: FeedState,
    before: Seq<EventView>,
    after: Seq<EventView>,
)
    ensures
        state_after(
            state,
            before.push(EventView::Message(InboundView::Text(None))) + after,
        ) == state_after(state, before + after),
{
    let malformed = EventView::Message(InboundView::Text(None));
    lemma_state_after_composes(state, before.push(malformed), after);
    lemma_state_after_composes(state, before, after);
    assert(before.push(malformed).drop_last() =~= before);
}

/// The history changes in one way only, by the append of a record that
/// arrives while streaming, and the endpoint address never changes.
pub proof fn lemma_only_records_change_history(state: FeedState, event: EventView)
    ensures
        next_state(state, event).url == state.url,
        next_state(state, event).history == match (state.phase, event) {
            (PhaseView::Streaming, EventView::Message(InboundView::Text(Some(record)))) => appended(
                state.history,
                record,
            ),
            _ => state.history,
        },
{
}

/// No event makes a history that fits the store outgrow it.
pub proof fn lemma_history_stays_bounded(state: FeedState, event: EventView)
    requires
        state.history.len() <= CAPACITY,
    ensures
        next_state(state, event).history.len() <= CAPACITY,
{
}

} // verus!
