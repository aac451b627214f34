use mpd_dashboard::push::{
    is_qualifying, start, step, Channel, PushAction, PushEvent, PushState, Subsystem,
    NOW_PLAYING_INTERVAL_MS,
};

#[test]
fn a_loop_starts_connecting() {
    assert_eq!(start(), PushState::Connecting);
}

#[test]
fn connecting_then_streaming_sends_the_initial_projection() {
    let (state, action) = step(Channel::Status, PushState::Connecting, PushEvent::Connected);
    assert_eq!(state, PushState::Streaming);
    assert_eq!(action, PushAction::SendProjection);
}

#[test]
fn a_failed_connection_closes_without_sending() {
    for channel in [Channel::Status, Channel::Playlist, Channel::NowPlaying] {
        let (state, action) = step(channel, PushState::Connecting, PushEvent::ConnectFailed);
        assert_eq!(state, PushState::Closed);
        assert_eq!(action, PushAction::Stop);
    }
}

#[test]
fn the_status_channel_refreshes_on_player_and_queue_only() {
    assert!(is_qualifying(Channel::Status, Subsystem::Player));
    assert!(is_qualifying(Channel::Status, Subsystem::Queue));
    assert!(!is_qualifying(Channel::Status, Subsystem::Options));
    assert!(!is_qualifying(Channel::Status, Subsystem::Database));
    assert!(!is_qualifying(Channel::Status, Subsystem::Mixer));
    assert!(!is_qualifying(Channel::Status, Subsystem::Other));
}

#[test]
fn the_playlist_channel_refreshes_on_player_queue_and_options() {
    assert!(is_qualifying(Channel::Playlist, Subsystem::Player));
    assert!(is_qualifying(Channel::Playlist, Subsystem::Queue));
    assert!(is_qualifying(Channel::Playlist, Subsystem::Options));
    assert!(!is_qualifying(Channel::Playlist, Subsystem::Database));
    assert!(!is_qualifying(Channel::Playlist, Subsystem::Mixer));
    assert!(!is_qualifying(Channel::Playlist, Subsystem::Update));
}

#[test]
fn a_qualifying_change_sends_again() {
    let event = PushEvent::SubsystemChanged(Subsystem::Queue);
    assert_eq!(
        step(Channel::Status, PushState::Streaming, event),
        (PushState::Streaming, PushAction::SendProjection)
    );
    let event = PushEvent::SubsystemChanged(Subsystem::Options);
    assert_eq!(
        step(Channel::Playlist, PushState::Streaming, event),
        (PushState::Streaming, PushAction::SendProjection)
    );
}

#[test]
fn a_change_that_does_not_qualify_keeps_waiting() {
    let event = PushEvent::SubsystemChanged(Subsystem::Options);
    assert_eq!(
        step(Channel::Status, PushState::Streaming, event),
        (PushState::Streaming, PushAction::AwaitEvent)
    );
    let event = PushEvent::SubsystemChanged(Subsystem::Mixer);
    assert_eq!(
        step(Channel::Playlist, PushState::Streaming, event),
        (PushState::Streaming, PushAction::AwaitEvent)
    );
}

#[test]
fn after_sending_the_loop_waits_for_the_feed() {
    assert_eq!(
        step(Channel::Status, PushState::Streaming, PushEvent::Sent),
        (PushState::Streaming, PushAction::AwaitEvent)
    );
    assert_eq!(
        step(Channel::Playlist, PushState::Streaming, PushEvent::Sent),
        (PushState::Streaming, PushAction::AwaitEvent)
    );
}

#[test]
fn the_now_playing_channel_sleeps_between_sends() {
    assert_eq!(NOW_PLAYING_INTERVAL_MS, 500);
    assert_eq!(
        step(Channel::NowPlaying, PushState::Streaming, PushEvent::Sent),
        (PushState::Streaming, PushAction::Sleep(500))
    );
    assert_eq!(
        step(Channel::NowPlaying, PushState::Streaming, PushEvent::IntervalElapsed),
        (PushState::Streaming, PushAction::SendProjection)
    );
}

#[test]
fn a_failed_send_or_a_closed_stream_ends_the_loop() {
    for channel in [Channel::Status, Channel::Playlist, Channel::NowPlaying] {
        for event in [PushEvent::SendFailed, PushEvent::StreamClosed] {
            assert_eq!(
                step(channel, PushState::Streaming, event),
                (PushState::Closed, PushAction::Stop)
            );
        }
    }
}

#[test]
fn a_closed_loop_never_reopens() {
    let events = [
        PushEvent::Connected,
        PushEvent::ConnectFailed,
        PushEvent::Sent,
        PushEvent::SendFailed,
        PushEvent::SubsystemChanged(Subsystem::Player),
        PushEvent::StreamClosed,
        PushEvent::IntervalElapsed,
    ];
    for channel in [Channel::Status, Channel::Playlist, Channel::NowPlaying] {
        for event in events {
            assert_eq!(
                step(channel, PushState::Closed, event),
                (PushState::Closed, PushAction::Stop)
            );
        }
    }
}

#[test]
fn a_whole_session_of_the_status_channel() {
    let channel = Channel::Status;
    let mut state = start();
    let mut sent = 0;
    let script = [
        (PushEvent::Connected, PushAction::SendProjection),
        (PushEvent::Sent, PushAction::AwaitEvent),
        (PushEvent::SubsystemChanged(Subsystem::Mixer), PushAction::AwaitEvent),
        (PushEvent::SubsystemChanged(Subsystem::Player), PushAction::SendProjection),
        (PushEvent::Sent, PushAction::AwaitEvent),
        (PushEvent::StreamClosed, PushAction::Stop),
        (PushEvent::SubsystemChanged(Subsystem::Player), PushAction::Stop),
    ];
    for (event, expected) in script {
        let (next, action) = step(channel, state, event);
        assert_eq!(action, expected);
        if action == PushAction::SendProjection {
            sent += 1;
        }
        state = next;
    }
    assert_eq!(state, PushState::Closed);
    assert_eq!(sent, 2);
}
