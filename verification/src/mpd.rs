//! View models of the daemon's state, and the projections that compute
//! them from what the daemon answered.
//!
//! The caller talks to the daemon and hands over the raw answers as
//! [`DaemonStatus`], [`QueuedSong`] and [`TaggedSong`] values. Every
//! projection is computed from scratch from one such snapshot.

use vstd::prelude::*;
use crate::text::{chars_of, parse_i32, parsed_i32};

verus! {

/// Whether the daemon is playing.
#[derive(Clone, Copy, Debug, PartialEq, Eq, Structural)]
pub enum PlayState {
    Stopped,
    Playing,
    Paused,
}

/// Whether playback stops after the current song.
#[derive(Clone, Copy, Debug, PartialEq, Eq, Structural)]
pub enum SingleMode {
    Enabled,
    Disabled,
    Oneshot,
}

/// A length of time: whole seconds and the nanoseconds beyond them.
#[derive(Clone, Copy, Debug, PartialEq, Eq, Structural)]
pub struct TimeSpan {
    pub secs: u64,
    pub nanos: u32,
}

/// A place in the queue: the position counted from zero, and the id that
/// the daemon gave the entry.
#[derive(Clone, Copy, Debug, PartialEq, Eq, Structural)]
pub struct QueueSlot {
    pub position: usize,
    pub id: u64,
}

/// What the daemon reports as its current status.
#[derive(Clone, Copy, Debug, PartialEq, Eq)]
pub struct DaemonStatus {
    pub state: PlayState,
    pub repeat: bool,
    pub random: bool,
    pub single: SingleMode,
    /// Number of entries in the queue.
    pub playlist_length: usize,
    /// Where the current song stands in the queue, if there is one.
    pub current_song: Option<QueueSlot>,
    pub elapsed: Option<TimeSpan>,
    pub duration: Option<TimeSpan>,
    /// The id of the running database update, if one is running.
    pub update_job: Option<u64>,
}

/// The tags this library reads.
#[derive(Clone, Copy, Debug, PartialEq, Eq, Structural)]
pub enum Tag {
    Title,
    Artist,
    Album,
    Date,
}

/// A song as the daemon describes it: its location, the values of its
/// tags in the order given, and its disc and track number (zero where the
/// song has none).
#[derive(Clone, Debug, PartialEq, Eq)]
pub struct TaggedSong {
    pub url: String,
    pub titles: Vec<String>,
    pub artists: Vec<String>,
    pub albums: Vec<String>,
    pub dates: Vec<String>,
    pub disc: u64,
    pub track: u64,
}

pub struct TaggedSongView {
    pub url: Seq<char>,
    pub titles: Seq<Seq<char>>,
    pub artists: Seq<Seq<char>>,
    pub albums: Seq<Seq<char>>,
    pub dates: Seq<Seq<char>>,
    pub disc: u64,
    pub track: u64,
}

impl TaggedSongView {
    /// The values of one tag, in the order given.
    pub open spec fn values(self, tag: Tag) -> Seq<Seq<char>> {
        match tag {
            Tag::Title => self.titles,
            Tag::Artist => self.artists,
            Tag::Album => self.albums,
            Tag::Date => self.dates,
        }
    }
}

impl DeepView for TaggedSong {
    type V = TaggedSongView;

    open spec fn deep_view(&self) -> TaggedSongView {
        TaggedSongView {
            url: self.url.deep_view(),
            titles: self.titles.deep_view(),
            artists: self.artists.deep_view(),
            albums: self.albums.deep_view(),
            dates: self.dates.deep_view(),
            disc: self.disc,
            track: self.track,
        }
    }
}

impl TaggedSong {
    /// The values of one tag, in the order given.
    pub fn tag_values(&self, tag: Tag) -> (values: &Vec<String>)
        ensures
            values.deep_view() == self.deep_view().values(tag),
    {
        match tag {
            Tag::Title => &self.titles,
            Tag::Artist => &self.artists,
            Tag::Album => &self.albums,
            Tag::Date => &self.dates,
        }
    }
}

/// An entry of the queue as the daemon describes it.
#[derive(Clone, Debug, PartialEq, Eq)]
pub struct QueuedSong {
    /// Unique within the queue.
    pub id: u64,
    pub song: TaggedSong,
}

pub struct QueuedSongView {
    pub id: u64,
    pub song: TaggedSongView,
}

impl DeepView for QueuedSong {
    type V = QueuedSongView;

    open spec fn deep_view(&self) -> QueuedSongView {
        QueuedSongView { id: self.id, song: self.song.deep_view() }
    }
}

/// An album of one artist.
#[derive(Clone, Debug, PartialEq, Eq)]
pub struct Album {
    pub album_name: String,
    /// The year of the album's first song by disc and track number.
    pub year: Option<i32>,
    /// The encoded cover, once it was retrieved.
    pub art: Option<Vec<u8>>,
}

pub struct AlbumView {
    pub album_name: Seq<char>,
    pub year: Option<i32>,
    pub art: Option<Seq<u8>>,
}

impl DeepView for Album {
    type V = AlbumView;

    open spec fn deep_view(&self) -> AlbumView {
        AlbumView {
            album_name: self.album_name.deep_view(),
            year: self.year,
            art: self.art.deep_view(),
        }
    }
}

/// What the dashboard shows of the player.
#[derive(Clone, Debug, PartialEq, Eq)]
pub struct Status {
    pub title: Option<String>,
    pub artist: Option<String>,
    pub album: Option<String>,
    pub play_state: PlayState,
    pub has_next: bool,
    pub has_prev: bool,
    pub has_song: bool,
    pub single_mode: SingleMode,
    pub repeat: bool,
    pub random: bool,
    /// Whether a database update is running.
    pub ubdating_db: bool,
    pub elapsed: Option<TimeSpan>,
    pub duration: Option<TimeSpan>,
}

pub struct StatusView {
    pub title: Option<Seq<char>>,
    pub artist: Option<Seq<char>>,
    pub album: Option<Seq<char>>,
    pub play_state: PlayState,
    pub has_next: bool,
    pub has_prev: bool,
    pub has_song: bool,
    pub single_mode: SingleMode,
    pub repeat: bool,
    pub random: bool,
    pub ubdating_db: bool,
    pub elapsed: Option<TimeSpan>,
    pub duration: Option<TimeSpan>,
}

impl DeepView for Status {
    type V = StatusView;

    open spec fn deep_view(&self) -> StatusView {
        StatusView {
            title: self.title.deep_view(),
            artist: self.artist.deep_view(),
            album: self.album.deep_view(),
            play_state: self.play_state,
            has_next: self.has_next,
            has_prev: self.has_prev,
            has_song: self.has_song,
            single_mode: self.single_mode,
            repeat: self.repeat,
            random: self.random,
            ubdating_db: self.ubdating_db,
            elapsed: self.elapsed,
            duration: self.duration,
        }
    }
}

/// One line of the queue listing.
#[derive(Clone, Debug, PartialEq, Eq)]
pub struct SongInQueue {
    pub id: u64,
    pub title: String,
    pub artist: String,
    pub playing: bool,
}

pub struct SongInQueueView {
    pub id: u64,
    pub title: Seq<char>,
    pub artist: Seq<char>,
    pub playing: bool,
}

impl DeepView for SongInQueue {
    type V = SongInQueueView;

    open spec fn deep_view(&self) -> SongInQueueView {
        SongInQueueView {
            id: self.id,
            title: self.title.deep_view(),
            artist: self.artist.deep_view(),
            playing: self.playing,
        }
    }
}

/// One line of an album's song listing.
#[derive(Clone, Debug, PartialEq, Eq)]
pub struct Song {
    pub url: String,
    pub title: String,
    pub year: Option<i32>,
}

pub struct SongView {
    pub url: Seq<char>,
    pub title: Seq<char>,
    pub year: Option<i32>,
}

impl DeepView for Song {
    type V = SongView;

    open spec fn deep_view(&self) -> SongView {
        SongView { url: self.url.deep_view(), title: self.title.deep_view(), year: self.year }
    }
}

/// A kind of value that can be read from the text of a tag.
pub trait TagValue: Sized + DeepView {
    /// The value that `text` stands for, if it stands for one.
    spec fn read(text: Seq<char>) -> Option<Self::V>;

    fn parse(text: &String) -> (value: Option<Self>)
        ensures
            value.deep_view() == Self::read(text@),
    ;
}

/// Any text is a text value.
impl TagValue for String {
    open spec fn read(text: Seq<char>) -> Option<Seq<char>> {
        Some(text)
    }

    fn parse(text: &String) -> (value: Option<String>) {
        Some(text.clone())
    }
}

/// A number is read from its decimal notation; see
/// [`parsed_i32`](crate::text::parsed_i32).
impl TagValue for i32 {
    open spec fn read(text: Seq<char>) -> Option<i32> {
        parsed_i32(text)
    }

    fn parse(text: &String) -> (value: Option<i32>) {
        let chars = chars_of(text.as_str());
        parse_i32(&chars)
    }
}

/// What the first value of a tag reads as; nothing if the song lacks the
/// tag or the first value does not read as a `T`.
pub open spec fn single_tag_value<T: TagValue>(song: TaggedSongView, tag: Tag) -> Option<T::V> {
    let values = song.values(tag);
    if values.len() == 0 {
        None
    } else {
        T::read(values[0])
    }
}

/// Reads the first value of a tag of a song.
pub fn get_single_tag_value<T: TagValue>(song: &TaggedSong, tag: Tag) -> (value: Option<T>)
    ensures
        value.deep_view() == single_tag_value::<T>(song.deep_view(), tag),
{
    let values = song.tag_values(tag);
    if values.len() == 0 {
        None
    } else {
        assert(values.deep_view()[0] == values@[0].deep_view());
        T::parse(&values[0])
    }
}

/// The text of a tag of the current song, if there is a current song and
/// it has the tag.
pub open spec fn current_text(current: Option<QueuedSongView>, tag: Tag) -> Option<Seq<char>> {
    match current {
        Some(entry) => single_tag_value::<String>(entry.song, tag),
        None => None,
    }
}

/// The status projection of one snapshot.
///
/// The flags are computed from `status` alone: there is a next song while
/// the player is not stopped and the current song is not the last of the
/// queue, and a previous one while the player is not stopped and has a
/// current song. The texts come from `current`.
pub open spec fn status_of(status: DaemonStatus, current: Option<QueuedSongView>) -> StatusView {
    let has_song = status.current_song is Some;
    let active = status.state != PlayState::Stopped;
    StatusView {
        title: current_text(current, Tag::Title),
        artist: current_text(current, Tag::Artist),
        album: current_text(current, Tag::Album),
        play_state: status.state,
        has_next: active && has_song && status.current_song.unwrap().position + 1
            < status.playlist_length,
        has_prev: active && has_song,
        has_song,
        single_mode: status.single,
        repeat: status.repeat,
        random: status.random,
        ubdating_db: status.update_job is Some,
        elapsed: status.elapsed,
        duration: status.duration,
    }
}

/// What holds of every status projection: a stopped player offers neither
/// a next nor a previous song, and only a player with a current song
/// offers either.
pub open spec fn is_consistent(status: StatusView) -> bool {
    &&& status.play_state == PlayState::Stopped ==> !status.has_next && !status.has_prev
    &&& status.has_next ==> status.has_song
    &&& status.has_prev ==> status.has_song
}

/// Every status projection is consistent, whatever the daemon reported:
/// in particular there is no next song while the player is stopped,
/// however long the queue is.
pub proof fn status_of_is_consistent(status: DaemonStatus, current: Option<QueuedSongView>)
    ensures
        is_consistent(status_of(status, current)),
        status.state == PlayState::Stopped ==> !status_of(status, current).has_next,
{
}

fn current_tag_text(current: Option<&QueuedSong>, tag: Tag) -> (text: Option<String>)
    ensures
        text.deep_view() == current_text(current.deep_view(), tag),
{
    match current {
        Some(entry) => get_single_tag_value::<String>(&entry.song, tag),
        None => None,
    }
}

/// Computes the status projection from the daemon's status and current
/// song, as one batched query returned them.
pub fn get_status(status: &DaemonStatus, current_song: Option<&QueuedSong>) -> (projection: Status)
    ensures
        projection.deep_view() == status_of(*status, current_song.deep_view()),
        is_consistent(projection.deep_view()),
        status.state == PlayState::Stopped ==> !projection.has_next && !projection.has_prev,
        status.current_song is None ==> !projection.has_next && !projection.has_prev
            && !projection.has_song,
        current_song is None ==> projection.title is None && projection.artist is None
            && projection.album is None,
{
    let active = match status.state {
        PlayState::Stopped => false,
        _ => true,
    };
    let has_song = status.current_song.is_some();
    let has_next = match status.current_song {
        Some(slot) => active && slot.position < status.playlist_length && slot.position + 1
            < status.playlist_length,
        None => false,
    };
    Status {
        title: current_tag_text(current_song, Tag::Title),
        artist: current_tag_text(current_song, Tag::Artist),
        album: current_tag_text(current_song, Tag::Album),
        play_state: status.state,
        has_next,
        has_prev: active && has_song,
        has_song,
        single_mode: status.single,
        repeat: status.repeat,
        random: status.random,
        ubdating_db: status.update_job.is_some(),
        elapsed: status.elapsed,
        duration: status.duration,
    }
}

/// The text of a tag of a song, empty if the song lacks the tag.
pub open spec fn tag_text(song: TaggedSongView, tag: Tag) -> Seq<char> {
    match single_tag_value::<String>(song, tag) {
        Some(text) => text,
        None => Seq::empty(),
    }
}

/// One line of the queue listing: the entry's id, title and first artist,
/// marked as playing if the player is not stopped and the entry is the
/// current song.
pub open spec fn queue_line(
    state: PlayState,
    entry: QueuedSongView,
    current: Option<QueuedSongView>,
) -> SongInQueueView {
    SongInQueueView {
        id: entry.id,
        title: tag_text(entry.song, Tag::Title),
        artist: tag_text(entry.song, Tag::Artist),
        playing: state != PlayState::Stopped && current is Some && current.unwrap().id
            == entry.id,
    }
}

/// The queue projection of one snapshot: one line per entry, in queue order.
pub open spec fn playlist_of(
    state: PlayState,
    queue: Seq<QueuedSongView>,
    current: Option<QueuedSongView>,
) -> Seq<SongInQueueView> {
    Seq::new(queue.len(), |i: int| queue_line(state, queue[i], current))
}

/// Reads the text of a tag of a song, empty if the song lacks the tag.
pub fn tag_text_of(song: &TaggedSong, tag: Tag) -> (text: String)
    ensures
        text@ == tag_text(song.deep_view(), tag),
{
    match get_single_tag_value::<String>(song, tag) {
        Some(text) => text,
        None => String::new(),
    }
}

/// Computes the queue projection from the play state, the queue and the
/// current song, as one batched query returned them.
pub fn get_playlist(
    state: PlayState,
    queue: &Vec<QueuedSong>,
    current_song: Option<&QueuedSong>,
) -> (lines: Vec<SongInQueue>)
    ensures
        lines.deep_view() == playlist_of(state, queue.deep_view(), current_song.deep_view()),
{
    let active = match state {
        PlayState::Stopped => false,
        _ => true,
    };
    let mut lines: Vec<SongInQueue> = Vec::new();
    let mut i: usize = 0;
    while i < queue.len()
        invariant
            i <= queue.len(),
            lines.len() == i,
            active == (state != PlayState::Stopped),
            forall|k: int|
                0 <= k < i ==> (#[trigger] lines@[k]).deep_view() == queue_line(
                    state,
                    queue@[k].deep_view(),
                    current_song.deep_view(),
                ),
        decreases queue.len() - i,
    {
        let entry = &queue[i];
        let playing = match current_song {
            Some(current) => active && current.id == entry.id,
            None => false,
        };
        lines.push(
            SongInQueue {
                id: entry.id,
                title: tag_text_of(&entry.song, Tag::Title),
                artist: tag_text_of(&entry.song, Tag::Artist),
                playing,
            },
        );
        i += 1;
    }
    assert(lines.deep_view() =~= playlist_of(state, queue.deep_view(), current_song.deep_view()));
    lines
}

/// How many lines of a queue listing are marked as playing.
pub open spec fn playing_count(lines: Seq<SongInQueueView>) -> nat {
    lines.filter(|line: SongInQueueView| line.playing).len()
}

/// No two entries of the queue share an id.
pub open spec fn ids_are_unique(queue: Seq<QueuedSongView>) -> bool {
    forall|i: int, j: int|
        #![trigger queue[i], queue[j]]
        0 <= i < j < queue.len() ==> queue[i].id != queue[j].id
}

/// Some entry of the queue has the id of `song`.
pub open spec fn is_queued(queue: Seq<QueuedSongView>, song: QueuedSongView) -> bool {
    exists|i: int| 0 <= i < queue.len() && (#[trigger] queue[i]).id == song.id
}

proof fn lemma_count_marked(lines: Seq<SongInQueueView>, marked: Option<int>)
    requires
        match marked {
            Some(k) => 0 <= k < lines.len() && forall|i: int|
                0 <= i < lines.len() ==> ((#[trigger] lines[i]).playing <==> i == k),
            None => forall|i: int| 0 <= i < lines.len() ==> !(#[trigger] lines[i]).playing,
        },
    ensures
        playing_count(lines) == (if marked is Some {
            1nat
        } else {
            0nat
        }),
    decreases lines.len(),
{
    reveal(Seq::filter);
    if lines.len() > 0 {
        let front = lines.drop_last();
        let last = lines.len() - 1;
        assert(lines.last() == lines[last]);
        assert forall|i: int| 0 <= i < front.len() implies front[i] == lines[i] by {}
        match marked {
            Some(k) => {
                if k == last {
                    lemma_count_marked(front, None);
                } else {
                    lemma_count_marked(front, Some(k));
                }
            },
            None => {
                lemma_count_marked(front, None);
            },
        }
    }
}

/// At most one line of a queue listing is marked as playing. None is
/// while the player is stopped or has no current song, and exactly one is
/// while the player is not stopped and its current song is an entry of the
/// queue.
pub proof fn one_line_plays(
    state: PlayState,
    queue: Seq<QueuedSongView>,
    current: Option<QueuedSongView>,
)
    requires
        ids_are_unique(queue),
    ensures
        playing_count(playlist_of(state, queue, current)) <= 1,
        state == PlayState::Stopped || current is None ==> playing_count(
            playlist_of(state, queue, current),
        ) == 0,
        state != PlayState::Stopped && current is Some && is_queued(queue, current.unwrap())
            ==> playing_count(playlist_of(state, queue, current)) == 1,
{
    let lines = playlist_of(state, queue, current);
    if state != PlayState::Stopped && current is Some && is_queued(queue, current.unwrap()) {
        let k = choose|k: int| 0 <= k < queue.len() && (#[trigger] queue[k]).id == current.unwrap().id;
        assert forall|i: int| 0 <= i < lines.len() implies ((#[trigger] lines[i]).playing <==> i
            == k) by {
            if i < k {
                assert(queue[i].id != queue[k].id);
            } else if k < i {
                assert(queue[k].id != queue[i].id);
            }
        }
        lemma_count_marked(lines, Some(k));
    } else {
        assert forall|i: int| 0 <= i < lines.len() implies !(#[trigger] lines[i]).playing by {
            if state != PlayState::Stopped && current is Some {
                assert(queue[i].id != current.unwrap().id);
            }
        }
        lemma_count_marked(lines, None);
    }
}

/// In a snapshot whose current song, if any, is an entry of the queue,
/// exactly one line is marked as playing if the player is not stopped and
/// has a current song, and none is otherwise.
pub proof fn playing_line_follows_state(
    state: PlayState,
    queue: Seq<QueuedSongView>,
    current: Option<QueuedSongView>,
)
    requires
        ids_are_unique(queue),
        current is Some ==> is_queued(queue, current.unwrap()),
    ensures
        playing_count(playlist_of(state, queue, current)) == (if state != PlayState::Stopped
            && current is Some {
            1nat
        } else {
            0nat
        }),
{
    one_line_plays(state, queue, current);
}

/// The address of the daemon: host and port joined by a colon, with
/// `localhost` and `6600` standing in for what is not configured.
pub open spec fn address_of(host: Option<Seq<char>>, port: Option<Seq<char>>) -> Seq<char> {
    let host = match host {
        Some(name) => name,
        None => "localhost"@,
    };
    let port = match port {
        Some(number) => number,
        None => "6600"@,
    };
    host + seq![':'] + port
}

/// Builds the address of the daemon from the configured host and port.
pub fn mpd_addr(host: Option<String>, port: Option<String>) -> (address: String)
    ensures
        address@ == address_of(host.deep_view(), port.deep_view()),
{
    let mut address = match host {
        Some(name) => name,
        None => "localhost".to_owned(),
    };
    address.push(':');
    match port {
        Some(number) => address.append(number.as_str()),
        None => address.append("6600"),
    }
    assert(address@ =~= address_of(host.deep_view(), port.deep_view()));
    address
}

} // verus!
