use mpd_dashboard::control::{
    append_album_to_playlist, play, play_album, play_first_added, play_song_by_url,
    remove_from_playlist,
    toggle_random, toggle_repeat, Command,
};
use mpd_dashboard::library::get_songs;
use mpd_dashboard::mpd::{
    get_playlist, get_status, DaemonStatus, PlayState, QueueSlot, QueuedSong, SingleMode, Song,
    TaggedSong,
};

/// A daemon that lives in memory and answers at once.
struct StubDaemon {
    library: Vec<TaggedSong>,
    queue: Vec<QueuedSong>,
    next_id: u64,
    state: PlayState,
    current: Option<u64>,
    repeat: bool,
    random: bool,
}

impl StubDaemon {
    fn new(library: Vec<TaggedSong>) -> Self {
        StubDaemon {
            library,
            queue: Vec::new(),
            next_id: 1,
            state: PlayState::Stopped,
            current: None,
            repeat: false,
            random: false,
        }
    }

    fn position_of(&self, id: u64) -> Option<usize> {
        self.queue.iter().position(|entry| entry.id == id)
    }

    /// Runs one command; an addition answers with the new entry's id.
    fn send(&mut self, command: &Command) -> Option<u64> {
        match command {
            Command::ClearQueue => {
                self.queue.clear();
                self.current = None;
                self.state = PlayState::Stopped;
                None
            }
            Command::Add(url) => {
                let song = self.library.iter().find(|song| &song.url == url).unwrap().clone();
                let id = self.next_id;
                self.next_id += 1;
                self.queue.push(QueuedSong { id, song });
                Some(id)
            }
            Command::PlaySong(id) => {
                assert!(self.position_of(*id).is_some());
                self.current = Some(*id);
                self.state = PlayState::Playing;
                None
            }
            Command::Play => {
                if self.current.is_none() {
                    self.current = self.queue.first().map(|entry| entry.id);
                }
                if self.current.is_some() {
                    self.state = PlayState::Playing;
                }
                None
            }
            Command::SetPause(pause) => {
                if self.state != PlayState::Stopped {
                    self.state = if *pause { PlayState::Paused } else { PlayState::Playing };
                }
                None
            }
            Command::Delete(id) => {
                self.queue.retain(|entry| entry.id != *id);
                if self.current == Some(*id) {
                    self.current = None;
                    self.state = PlayState::Stopped;
                }
                None
            }
            Command::SetRepeat(on) => {
                self.repeat = *on;
                None
            }
            Command::SetRandom(on) => {
                self.random = *on;
                None
            }
            Command::Previous | Command::Next | Command::UpdateDatabase => None,
        }
    }

    fn send_all(&mut self, batch: &[Command]) -> Vec<u64> {
        batch.iter().filter_map(|command| self.send(command)).collect()
    }

    fn status(&self) -> DaemonStatus {
        DaemonStatus {
            state: self.state,
            repeat: self.repeat,
            random: self.random,
            single: SingleMode::Disabled,
            playlist_length: self.queue.len(),
            current_song: self.current.map(|id| QueueSlot {
                position: self.position_of(id).unwrap(),
                id,
            }),
            elapsed: None,
            duration: None,
            update_job: None,
        }
    }

    fn current_song(&self) -> Option<QueuedSong> {
        self.current.map(|id| self.queue[self.position_of(id).unwrap()].clone())
    }
}

fn library_song(url: &str, title: &str, number: u64) -> TaggedSong {
    TaggedSong {
        url: url.to_string(),
        titles: vec![title.to_string()],
        artists: vec!["Ann".to_string()],
        albums: vec!["One".to_string()],
        dates: vec!["1999".to_string()],
        disc: 1,
        track: number,
    }
}

fn library() -> Vec<TaggedSong> {
    vec![
        library_song("one/03.flac", "Third", 3),
        library_song("one/01.flac", "First", 1),
        library_song("one/02.flac", "Second", 2),
        library_song("other.flac", "Other", 1),
    ]
}

#[test]
fn playing_a_song_by_its_url_makes_it_the_current_song() {
    let mut daemon = StubDaemon::new(library());
    daemon.send(&Command::Add("other.flac".to_string()));
    daemon.send(&play(None));

    let added = daemon.send_all(&play_song_by_url("one/02.flac"));
    let follow_up = play_first_added(&added).unwrap();
    daemon.send(&follow_up);

    let status = get_status(&daemon.status(), daemon.current_song().as_ref());
    assert_eq!(status.title, Some("Second".to_string()));
    assert_eq!(status.artist, Some("Ann".to_string()));
    assert_eq!(status.album, Some("One".to_string()));
    assert_eq!(status.play_state, PlayState::Playing);
    assert!(status.has_song);
    assert!(status.has_prev);
    assert!(!status.has_next);

    let lines = get_playlist(daemon.state, &daemon.queue, daemon.current_song().as_ref());
    assert_eq!(lines.len(), 1);
    assert!(lines[0].playing);
    assert_eq!(lines[0].title, "Second");
}

#[test]
fn playing_a_song_by_its_url_clears_first_and_adds_then() {
    assert_eq!(
        play_song_by_url("a/b.flac"),
        vec![Command::ClearQueue, Command::Add("a/b.flac".to_string())]
    );
}

#[test]
fn an_album_is_appended_in_the_order_of_its_listing() {
    let songs = vec![
        Song { url: "b".to_string(), title: "B".to_string(), year: None },
        Song { url: "a".to_string(), title: "A".to_string(), year: Some(1) },
    ];
    assert_eq!(
        append_album_to_playlist(&songs),
        vec![Command::Add("b".to_string()), Command::Add("a".to_string())]
    );
    assert_eq!(append_album_to_playlist(&Vec::new()), Vec::new());
}

#[test]
fn playing_an_album_starts_at_its_first_song() {
    let mut daemon = StubDaemon::new(library());
    daemon.send(&Command::Add("other.flac".to_string()));
    let found: Vec<TaggedSong> =
        library().into_iter().filter(|song| song.url.starts_with("one/")).collect();
    let songs = get_songs(found);

    let mut added = Vec::new();
    for batch in play_album(&songs) {
        added.extend(daemon.send_all(&batch));
    }
    assert_eq!(added.len(), 3);
    daemon.send(&play_first_added(&added).unwrap());

    let status = get_status(&daemon.status(), daemon.current_song().as_ref());
    assert_eq!(status.title, Some("First".to_string()));
    assert!(status.has_next);
    let lines = get_playlist(daemon.state, &daemon.queue, daemon.current_song().as_ref());
    let titles: Vec<&str> = lines.iter().map(|line| line.title.as_str()).collect();
    assert_eq!(titles, vec!["First", "Second", "Third"]);
    let playing: Vec<bool> = lines.iter().map(|line| line.playing).collect();
    assert_eq!(playing, vec![true, false, false]);
}

#[test]
fn playing_an_empty_album_starts_nothing() {
    assert_eq!(play_first_added(&Vec::new()), None);
    assert_eq!(play_first_added(&vec![8, 9]), Some(Command::PlaySong(8)));
}

#[test]
fn playing_goes_to_a_song_or_on_where_the_player_stands() {
    assert_eq!(play(Some(12)), Command::PlaySong(12));
    assert_eq!(play(None), Command::Play);
}

#[test]
fn removing_needs_a_song() {
    assert_eq!(remove_from_playlist(Some(3)), Some(Command::Delete(3)));
    assert_eq!(remove_from_playlist(None), None);
}

#[test]
fn toggling_sends_the_opposite_of_what_is_set() {
    let mut daemon = StubDaemon::new(Vec::new());
    assert_eq!(toggle_repeat(&daemon.status()), Command::SetRepeat(true));
    assert_eq!(toggle_random(&daemon.status()), Command::SetRandom(true));
    let command = toggle_repeat(&daemon.status());
    daemon.send(&command);
    assert_eq!(toggle_repeat(&daemon.status()), Command::SetRepeat(false));
    assert_eq!(toggle_random(&daemon.status()), Command::SetRandom(true));
    let command = toggle_random(&daemon.status());
    daemon.send(&command);
    assert_eq!(toggle_random(&daemon.status()), Command::SetRandom(false));
}

#[test]
fn playing_an_album_clears_first_and_adds_then() {
    let songs = vec![
        Song { url: "b".to_string(), title: "B".to_string(), year: None },
        Song { url: "a".to_string(), title: "A".to_string(), year: Some(1) },
    ];
    assert_eq!(
        play_album(&songs),
        vec![
            vec![Command::ClearQueue],
            vec![Command::Add("b".to_string()), Command::Add("a".to_string())],
        ]
    );
    assert_eq!(play_album(&songs[..1].to_vec()).len(), 2);
    assert_eq!(play_album(&Vec::new()), vec![vec![Command::ClearQueue], Vec::new()]);
}

#[test]
fn a_stopped_daemon_that_keeps_its_current_song_shows_no_playing_line() {
    let mut daemon = StubDaemon::new(library());
    let added = daemon.send_all(&play_song_by_url("one/01.flac"));
    daemon.send(&play_first_added(&added).unwrap());
    daemon.state = PlayState::Stopped;

    let status = get_status(&daemon.status(), daemon.current_song().as_ref());
    assert!(status.has_song);
    assert!(!status.has_next);
    assert!(!status.has_prev);
    let lines = get_playlist(daemon.state, &daemon.queue, daemon.current_song().as_ref());
    assert_eq!(lines.len(), 1);
    assert!(!lines[0].playing);
}
