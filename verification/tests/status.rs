use mpd_dashboard::mpd::{
    get_single_tag_value, get_status, mpd_addr, DaemonStatus, PlayState, QueueSlot, QueuedSong,
    SingleMode, Status, Tag, TaggedSong, TimeSpan,
};

fn daemon(state: PlayState, playlist_length: usize, current: Option<(usize, u64)>) -> DaemonStatus {
    DaemonStatus {
        state,
        repeat: false,
        random: false,
        single: SingleMode::Disabled,
        playlist_length,
        current_song: current.map(|(position, id)| QueueSlot { position, id }),
        elapsed: None,
        duration: None,
        update_job: None,
    }
}

fn tagged(url: &str, titles: &[&str], artists: &[&str], albums: &[&str]) -> TaggedSong {
    TaggedSong {
        url: url.to_string(),
        titles: titles.iter().map(|s| s.to_string()).collect(),
        artists: artists.iter().map(|s| s.to_string()).collect(),
        albums: albums.iter().map(|s| s.to_string()).collect(),
        dates: Vec::new(),
        disc: 0,
        track: 0,
    }
}

#[test]
fn an_empty_stopped_player_shows_nothing() {
    let status = get_status(&daemon(PlayState::Stopped, 0, None), None);
    assert_eq!(
        status,
        Status {
            title: None,
            artist: None,
            album: None,
            play_state: PlayState::Stopped,
            has_next: false,
            has_prev: false,
            has_song: false,
            single_mode: SingleMode::Disabled,
            repeat: false,
            random: false,
            ubdating_db: false,
            elapsed: None,
            duration: None,
        }
    );
}

#[test]
fn the_texts_come_from_the_first_value_of_each_tag() {
    let current = QueuedSong {
        id: 7,
        song: tagged("a.flac", &["One", "Uno"], &["Ann", "Bob"], &["First"]),
    };
    let status = get_status(&daemon(PlayState::Playing, 3, Some((0, 7))), Some(&current));
    assert_eq!(status.title, Some("One".to_string()));
    assert_eq!(status.artist, Some("Ann".to_string()));
    assert_eq!(status.album, Some("First".to_string()));
}

#[test]
fn a_song_without_tags_has_no_texts_but_counts_as_a_song() {
    let current = QueuedSong { id: 7, song: tagged("a.flac", &[], &[], &[]) };
    let status = get_status(&daemon(PlayState::Playing, 1, Some((0, 7))), Some(&current));
    assert_eq!(status.title, None);
    assert_eq!(status.artist, None);
    assert_eq!(status.album, None);
    assert!(status.has_song);
    assert!(status.has_prev);
    assert!(!status.has_next);
}

#[test]
fn there_is_a_next_song_until_the_last_entry_plays() {
    for (position, expected) in [(0, true), (1, true), (2, false)] {
        let status = get_status(&daemon(PlayState::Playing, 3, Some((position, 10))), None);
        assert_eq!(status.has_next, expected, "position {position}");
        assert!(status.has_prev);
        assert!(status.has_song);
    }
}

#[test]
fn a_paused_player_is_not_stopped() {
    let status = get_status(&daemon(PlayState::Paused, 2, Some((0, 1))), None);
    assert!(status.has_next);
    assert!(status.has_prev);
    assert_eq!(status.play_state, PlayState::Paused);
}

#[test]
fn a_stopped_player_has_neither_next_nor_previous() {
    for length in [0usize, 1, 2, 3, 100, 100_000, usize::MAX] {
        for position in [0usize, 1, 50] {
            let status = get_status(&daemon(PlayState::Stopped, length, Some((position, 3))), None);
            assert!(!status.has_next, "length {length}, position {position}");
            assert!(!status.has_prev, "length {length}, position {position}");
            assert!(status.has_song);
        }
        let status = get_status(&daemon(PlayState::Stopped, length, None), None);
        assert!(!status.has_next);
        assert!(!status.has_prev);
        assert!(!status.has_song);
    }
}

#[test]
fn without_a_current_song_the_flags_follow_the_state_alone() {
    let status = get_status(&daemon(PlayState::Playing, 5, None), None);
    assert!(!status.has_song);
    assert!(!status.has_next);
    assert!(!status.has_prev);
}

#[test]
fn a_position_at_the_end_of_the_number_range_does_not_overflow() {
    let status = get_status(&daemon(PlayState::Playing, usize::MAX, Some((usize::MAX, 1))), None);
    assert!(!status.has_next);
    let status =
        get_status(&daemon(PlayState::Playing, usize::MAX, Some((usize::MAX - 2, 1))), None);
    assert!(status.has_next);
}

#[test]
fn the_remaining_fields_are_carried_over() {
    let raw = DaemonStatus {
        state: PlayState::Playing,
        repeat: true,
        random: true,
        single: SingleMode::Oneshot,
        playlist_length: 1,
        current_song: Some(QueueSlot { position: 0, id: 4 }),
        elapsed: Some(TimeSpan { secs: 12, nanos: 500_000_000 }),
        duration: Some(TimeSpan { secs: 240, nanos: 0 }),
        update_job: Some(3),
    };
    let status = get_status(&raw, None);
    assert!(status.repeat);
    assert!(status.random);
    assert!(status.ubdating_db);
    assert_eq!(status.single_mode, SingleMode::Oneshot);
    assert_eq!(status.elapsed, Some(TimeSpan { secs: 12, nanos: 500_000_000 }));
    assert_eq!(status.duration, Some(TimeSpan { secs: 240, nanos: 0 }));
}

#[test]
fn a_single_tag_value_is_the_first_one() {
    let mut song = tagged("a.flac", &["One", "Uno"], &[], &["First"]);
    song.dates = vec!["1999".to_string(), "2005".to_string()];
    assert_eq!(get_single_tag_value::<String>(&song, Tag::Title), Some("One".to_string()));
    assert_eq!(get_single_tag_value::<String>(&song, Tag::Artist), None);
    assert_eq!(get_single_tag_value::<String>(&song, Tag::Album), Some("First".to_string()));
    assert_eq!(get_single_tag_value::<i32>(&song, Tag::Date), Some(1999));
    assert_eq!(get_single_tag_value::<String>(&song, Tag::Date), Some("1999".to_string()));
}

#[test]
fn a_tag_value_that_is_no_number_reads_as_nothing() {
    let mut song = tagged("a.flac", &["12"], &[], &[]);
    for (text, expected) in [
        ("2004-05-01", None),
        ("", None),
        ("-", None),
        ("+", None),
        (" 1999", None),
        ("1999 ", None),
        ("19x9", None),
        ("+1999", Some(1999)),
        ("-44", Some(-44)),
        ("0", Some(0)),
        ("-0", Some(0)),
        ("0001999", Some(1999)),
        ("2147483647", Some(i32::MAX)),
        ("2147483648", None),
        ("-2147483648", Some(i32::MIN)),
        ("-2147483649", None),
        ("99999999999999999999999999", None),
        ("٣", None),
    ] {
        song.dates = vec![text.to_string()];
        assert_eq!(get_single_tag_value::<i32>(&song, Tag::Date), expected, "{text:?}");
        assert_eq!(text.parse::<i32>().ok(), expected, "{text:?}");
    }
    assert_eq!(get_single_tag_value::<i32>(&song, Tag::Title), Some(12));
}

#[test]
fn the_daemon_address_has_defaults() {
    assert_eq!(mpd_addr(None, None), "localhost:6600");
    assert_eq!(mpd_addr(Some("music.lan".to_string()), None), "music.lan:6600");
    assert_eq!(mpd_addr(None, Some("7700".to_string())), "localhost:7700");
    assert_eq!(
        mpd_addr(Some("10.0.0.2".to_string()), Some("6601".to_string())),
        "10.0.0.2:6601"
    );
}
