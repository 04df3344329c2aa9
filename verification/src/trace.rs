//! Runs of channel events, and what holds of the counters after them.
//!
//! Each event changes the counters as its handler does: the handlers'
//! contracts are stated over the same transitions of `ChannelModel`.
use vstd::prelude::*;
use crate::state::ChannelModel;

verus! {

/// An event that the host delivers, by the channel it concerns.
pub enum ChannelEvent {
    /// The handshake of the channel was completed and accepted.
    Connect { channel: Seq<char> },
    /// The channel was closed.
    Close { channel: Seq<char> },
    /// A packet arrived whose payload held an action.
    Receive { channel: Seq<char> },
    /// A packet arrived whose payload held none.
    Unreadable { channel: Seq<char> },
    /// A packet sent on the channel timed out.
    Timeout { channel: Seq<char> },
}

/// The counters after one event.
pub open spec fn step(state: ChannelModel, event: ChannelEvent) -> ChannelModel {
    match event {
        ChannelEvent::Connect { channel } => state.connect(channel),
        ChannelEvent::Close { channel } => state.close(channel),
        ChannelEvent::Receive { channel } => state.receive(channel),
        ChannelEvent::Unreadable { channel } => state,
        ChannelEvent::Timeout { channel } => state.time_out(channel),
    }
}

/// The counters after the events of `events`, in their order.
pub open spec fn run(state: ChannelModel, events: Seq<ChannelEvent>) -> ChannelModel
    decreases events.len(),
{
    if events.len() == 0 {
        state
    } else {
        step(run(state, events.drop_last()), events.last())
    }
}

/// How often `event` occurs in `events`.
pub open spec fn occurrences(events: Seq<ChannelEvent>, event: ChannelEvent) -> nat
    decreases events.len(),
{
    if events.len() == 0 {
        0
    } else if events.last() == event {
        occurrences(events.drop_last(), event) + 1
    } else {
        occurrences(events.drop_last(), event)
    }
}

/// Whether `event` occurs nowhere in `events`.
pub open spec fn free_of(events: Seq<ChannelEvent>, event: ChannelEvent) -> bool {
    forall|i: int| 0 <= i < events.len() ==> events[i] != event
}

/// `count` times the same event.
pub open spec fn repeated(event: ChannelEvent, count: nat) -> Seq<ChannelEvent> {
    Seq::new(count, |i: int| event)
}

/// As long as a channel is neither connected anew nor closed, its packet
/// counter grows by one with each processed packet and with nothing else.
pub proof fn lemma_receives_counted(
    state: ChannelModel,
    channel: Seq<char>,
    events: Seq<ChannelEvent>,
)
    requires
        free_of(events, ChannelEvent::Connect { channel }),
        free_of(events, ChannelEvent::Close { channel }),
    ensures
        run(state, events).connection_count(channel) == state.connection_count(channel)
            + occurrences(events, ChannelEvent::Receive { channel }),
    decreases events.len(),
{
    if events.len() > 0 {
        let earlier = events.drop_last();
        assert forall|i: int| 0 <= i < earlier.len() implies earlier[i] != (ChannelEvent::Connect {
            channel,
        }) && earlier[i] != (ChannelEvent::Close { channel }) by {
            assert(earlier[i] == events[i]);
        }
        lemma_receives_counted(state, channel, earlier);
        assert(events.last() == events[events.len() - 1]);
    }
}

/// Right after a channel has connected its packet counter reads zero, and
/// after `count` processed packets it reads `count`.
pub proof fn lemma_count_after_connect(state: ChannelModel, channel: Seq<char>, count: nat)
    ensures
        state.connect(channel).connection_count(channel) == 0,
        run(
            state.connect(channel),
            repeated(ChannelEvent::Receive { channel }, count),
        ).connection_count(channel) == count,
{
    let receive = ChannelEvent::Receive { channel };
    lemma_occurrences_of_repeated(receive, count);
    lemma_receives_counted(state.connect(channel), channel, repeated(receive, count));
}

/// A run of one event, repeated, holds that event as often as it is long.
proof fn lemma_occurrences_of_repeated(event: ChannelEvent, count: nat)
    ensures
        occurrences(repeated(event, count), event) == count,
    decreases count,
{
    if count > 0 {
        lemma_occurrences_of_repeated(event, (count - 1) as nat);
        assert(repeated(event, count).drop_last() =~= repeated(event, (count - 1) as nat));
    }
}

/// A closed channel's packet counter reads zero, and it goes on reading zero
/// until the channel connects anew or a packet is processed on it.
pub proof fn lemma_closed_reads_zero(
    state: ChannelModel,
    channel: Seq<char>,
    events: Seq<ChannelEvent>,
)
    requires
        free_of(events, ChannelEvent::Connect { channel }),
        free_of(events, ChannelEvent::Receive { channel }),
    ensures
        state.close(channel).connection_count(channel) == 0,
        !run(state.close(channel), events).connection_counts.contains_key(channel),
        run(state.close(channel), events).connection_count(channel) == 0,
    decreases events.len(),
{
    if events.len() > 0 {
        let earlier = events.drop_last();
        assert forall|i: int| 0 <= i < earlier.len() implies earlier[i] != (ChannelEvent::Connect {
            channel,
        }) && earlier[i] != (ChannelEvent::Receive { channel }) by {
            assert(earlier[i] == events[i]);
        }
        lemma_closed_reads_zero(state, channel, earlier);
        assert(events.last() == events[events.len() - 1]);
    }
}

/// Whether `channel` is connected after `events`: its last handshake or
/// closing among them was a handshake.
pub open spec fn connected_after(events: Seq<ChannelEvent>, channel: Seq<char>) -> bool
    decreases events.len(),
{
    if events.len() == 0 {
        false
    } else if events.last() == (ChannelEvent::Connect { channel }) {
        true
    } else if events.last() == (ChannelEvent::Close { channel }) {
        false
    } else {
        connected_after(events.drop_last(), channel)
    }
}

/// Whether every packet that `events` processes on `channel` arrives while
/// that channel is connected, as a transport delivers them.
pub open spec fn delivered_while_connected(events: Seq<ChannelEvent>, channel: Seq<char>) -> bool {
    forall|i: int|
        0 <= i < events.len() && events[i] == (ChannelEvent::Receive { channel })
            ==> connected_after(events.take(i), channel)
}

/// Starting with no counters, and with packets delivered only on connected
/// channels, a channel has a packet counter exactly while it is connected.
pub proof fn lemma_counter_exists_while_connected(
    events: Seq<ChannelEvent>,
    channel: Seq<char>,
)
    requires
        delivered_while_connected(events, channel),
    ensures
        run(ChannelModel::empty(), events).connection_counts.contains_key(channel)
            <==> connected_after(events, channel),
    decreases events.len(),
{
    if events.len() > 0 {
        let earlier = events.drop_last();
        assert forall|i: int|
            0 <= i < earlier.len() && earlier[i] == (ChannelEvent::Receive {
                channel,
            }) implies connected_after(earlier.take(i), channel) by {
            assert(earlier[i] == events[i]);
            assert(earlier.take(i) =~= events.take(i));
        }
        lemma_counter_exists_while_connected(earlier, channel);
        assert(events.last() == events[events.len() - 1]);
        assert(events.take(events.len() - 1) =~= earlier);
    }
}

/// A channel's timeout counter grows by one with each of its timeouts and
/// with nothing else: connecting, closing and receiving leave it alone.
pub proof fn lemma_timeouts_counted(
    state: ChannelModel,
    channel: Seq<char>,
    events: Seq<ChannelEvent>,
)
    ensures
        run(state, events).timeout_count(channel) == state.timeout_count(channel) + occurrences(
            events,
            ChannelEvent::Timeout { channel },
        ),
    decreases events.len(),
{
    if events.len() > 0 {
        lemma_timeouts_counted(state, channel, events.drop_last());
    }
}

/// After `count` timeouts on a channel that had none, its timeout counter reads `count`.
pub proof fn lemma_timeouts_from_nothing(state: ChannelModel, channel: Seq<char>, count: nat)
    requires
        state.timeout_count(channel) == 0,
    ensures
        run(state, repeated(ChannelEvent::Timeout { channel }, count)).timeout_count(channel)
            == count,
{
    let timeout = ChannelEvent::Timeout { channel };
    lemma_occurrences_of_repeated(timeout, count);
    lemma_timeouts_counted(state, channel, repeated(timeout, count));
}

/// Closing a channel twice leaves the counters as closing it once does.
pub proof fn lemma_close_idempotent(state: ChannelModel, channel: Seq<char>)
    ensures
        state.close(channel).close(channel) == state.close(channel),
{
    assert(state.connection_counts.remove(channel).remove(channel)
        =~= state.connection_counts.remove(channel));
}

/// A packet whose payload holds no action leaves every counter as it was.
pub proof fn lemma_unreadable_changes_nothing(state: ChannelModel, channel: Seq<char>)
    ensures
        step(state, ChannelEvent::Unreadable { channel }) == state,
{
}

} // verus!
