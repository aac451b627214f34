//! The push loop of one browser connection, as a state machine.
//!
//! The caller owns the daemon session and the browser socket. It feeds what
//! happened into [`step`] and carries out the action that comes back. The
//! loop never retries: once it is closed it stays closed.

use vstd::prelude::*;

verus! {

/// A category of daemon state that the change feed reports.
#[derive(Clone, Copy, Debug, PartialEq, Eq, Structural)]
pub enum Subsystem {
    Database,
    Message,
    Mixer,
    Options,
    Output,
    Partition,
    Player,
    Queue,
    Sticker,
    StoredPlaylist,
    Subscription,
    Update,
    Neighbor,
    Mount,
    /// A category this library has no name for.
    Other,
}

/// Which projection a push loop serves.
#[derive(Clone, Copy, Debug, PartialEq, Eq, Structural)]
pub enum Channel {
    /// The playback status; refreshed on player and queue changes.
    Status,
    /// The queue listing; refreshed on player, queue and option changes.
    Playlist,
    /// The now-playing panel; refreshed on a fixed interval, not on changes.
    NowPlaying,
}

/// Where a push loop stands.
#[derive(Clone, Copy, Debug, PartialEq, Eq, Structural)]
pub enum PushState {
    Connecting,
    Streaming,
    Closed,
}

/// What the caller reports to the loop.
#[derive(Clone, Copy, Debug, PartialEq, Eq, Structural)]
pub enum PushEvent {
    /// The daemon session was opened.
    Connected,
    /// The daemon session could not be opened.
    ConnectFailed,
    /// A projection was computed and written to the browser.
    Sent,
    /// Computing, rendering or writing a projection failed.
    SendFailed,
    /// The change feed reported a subsystem.
    SubsystemChanged(Subsystem),
    /// The change feed ended or reported that the connection closed.
    StreamClosed,
    /// The refresh interval of an interval-driven channel elapsed.
    IntervalElapsed,
}

/// What the caller does next.
#[derive(Clone, Copy, Debug, PartialEq, Eq, Structural)]
pub enum PushAction {
    /// Compute the channel's projection from scratch and write it out.
    SendProjection,
    /// Suspend until the change feed yields its next event.
    AwaitEvent,
    /// Suspend for the given number of milliseconds.
    Sleep(u64),
    /// Leave the loop without telling the browser.
    Stop,
}

/// Milliseconds between two refreshes of the now-playing panel.
pub const NOW_PLAYING_INTERVAL_MS: u64 = 500;

/// Whether a change of `subsystem` makes `channel` send a fresh projection.
pub open spec fn qualifies(channel: Channel, subsystem: Subsystem) -> bool {
    match channel {
        Channel::Status => subsystem == Subsystem::Player || subsystem == Subsystem::Queue,
        Channel::Playlist => subsystem == Subsystem::Player || subsystem == Subsystem::Queue
            || subsystem == Subsystem::Options,
        Channel::NowPlaying => false,
    }
}

/// How a loop that has just sent a projection suspends.
pub open spec fn idle_action(channel: Channel) -> PushAction {
    match channel {
        Channel::NowPlaying => PushAction::Sleep(NOW_PLAYING_INTERVAL_MS),
        _ => PushAction::AwaitEvent,
    }
}

/// The transition relation of the push loop.
pub open spec fn next_step(channel: Channel, state: PushState, event: PushEvent) -> (
    PushState,
    PushAction,
) {
    match state {
        PushState::Connecting => match event {
            PushEvent::Connected => (PushState::Streaming, PushAction::SendProjection),
            _ => (PushState::Closed, PushAction::Stop),
        },
        PushState::Streaming => match event {
            PushEvent::Sent => (PushState::Streaming, idle_action(channel)),
            PushEvent::SubsystemChanged(subsystem) => if channel == Channel::NowPlaying {
                (PushState::Closed, PushAction::Stop)
            } else if qualifies(channel, subsystem) {
                (PushState::Streaming, PushAction::SendProjection)
            } else {
                (PushState::Streaming, PushAction::AwaitEvent)
            },
            PushEvent::IntervalElapsed => if channel == Channel::NowPlaying {
                (PushState::Streaming, PushAction::SendProjection)
            } else {
                (PushState::Closed, PushAction::Stop)
            },
            _ => (PushState::Closed, PushAction::Stop),
        },
        PushState::Closed => (PushState::Closed, PushAction::Stop),
    }
}

/// Decides whether a reported subsystem change refreshes the channel.
pub fn is_qualifying(channel: Channel, subsystem: Subsystem) -> (r: bool)
    ensures
        r == qualifies(channel, subsystem),
{
    match channel {
        Channel::Status => match subsystem {
            Subsystem::Player | Subsystem::Queue => true,
            _ => false,
        },
        Channel::Playlist => match subsystem {
            Subsystem::Player | Subsystem::Queue | Subsystem::Options => true,
            _ => false,
        },
        Channel::NowPlaying => false,
    }
}

/// The state a fresh push loop starts in.
pub fn start() -> (state: PushState)
    ensures
        state == PushState::Connecting,
{
    PushState::Connecting
}

/// Advances the loop by one event and says what to do next.
///
/// An event that cannot occur in the current state closes the loop.
pub fn step(channel: Channel, state: PushState, event: PushEvent) -> (r: (PushState, PushAction))
    ensures
        r == next_step(channel, state, event),
{
    match state {
        PushState::Connecting => match event {
            PushEvent::Connected => (PushState::Streaming, PushAction::SendProjection),
            _ => (PushState::Closed, PushAction::Stop),
        },
        PushState::Streaming => match event {
            PushEvent::Sent => match channel {
                Channel::NowPlaying => (
                    PushState::Streaming,
                    PushAction::Sleep(NOW_PLAYING_INTERVAL_MS),
                ),
                _ => (PushState::Streaming, PushAction::AwaitEvent),
            },
            PushEvent::SubsystemChanged(subsystem) => match channel {
                Channel::NowPlaying => (PushState::Closed, PushAction::Stop),
                _ => if is_qualifying(channel, subsystem) {
                    (PushState::Streaming, PushAction::SendProjection)
                } else {
                    (PushState::Streaming, PushAction::AwaitEvent)
                },
            },
            PushEvent::IntervalElapsed => match channel {
                Channel::NowPlaying => (PushState::Streaming, PushAction::SendProjection),
                _ => (PushState::Closed, PushAction::Stop),
            },
            _ => (PushState::Closed, PushAction::Stop),
        },
        PushState::Closed => (PushState::Closed, PushAction::Stop),
    }
}

/// The state after a whole sequence of events, oldest first.
pub open spec fn run(channel: Channel, state: PushState, events: Seq<PushEvent>) -> PushState
    decreases events.len(),
{
    if events.len() == 0 {
        state
    } else {
        run(channel, next_step(channel, state, events[0]).0, events.drop_first())
    }
}

/// A closed loop stays closed and only ever asks to stop, whatever is
/// reported to it afterwards.
pub proof fn closed_is_terminal(channel: Channel, events: Seq<PushEvent>)
    ensures
        run(channel, PushState::Closed, events) == PushState::Closed,
        forall|event: PushEvent| #[trigger]
            next_step(channel, PushState::Closed, event) == (PushState::Closed, PushAction::Stop),
    decreases events.len(),
{
    if events.len() > 0 {
        closed_is_terminal(channel, events.drop_first());
    }
}

/// A failed connection attempt closes the loop silently: the only action
/// is to stop, and nothing is sent.
pub proof fn failed_connect_closes_silently(channel: Channel)
    ensures
        next_step(channel, PushState::Connecting, PushEvent::ConnectFailed) == (
            PushState::Closed,
            PushAction::Stop,
        ),
{
}

/// A failed send or the end of the change feed closes a streaming loop.
pub proof fn failure_closes_stream(channel: Channel, event: PushEvent)
    requires
        event == PushEvent::SendFailed || event == PushEvent::StreamClosed,
    ensures
        next_step(channel, PushState::Streaming, event) == (PushState::Closed, PushAction::Stop),
{
}

/// The loop sends a projection only while streaming, and once it has left
/// the connecting state it never returns to it.
pub proof fn progress_is_one_way(channel: Channel, state: PushState, event: PushEvent)
    ensures
        next_step(channel, state, event).0 != PushState::Connecting,
        next_step(channel, state, event).1 == PushAction::SendProjection ==> next_step(
            channel,
            state,
            event,
        ).0 == PushState::Streaming,
        next_step(channel, state, event).0 == PushState::Closed <==> next_step(
            channel,
            state,
            event,
        ).1 == PushAction::Stop,
{
}

} // verus!
