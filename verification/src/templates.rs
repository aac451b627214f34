//! The view models that the pages are rendered from, and the texts that
//! the pages show for numbers.
//!
//! Rendering itself is the caller's business; what a page holds is decided
//! here.

use itertools::Itertools;
use vstd::prelude::*;
use crate::mpd::{Album, Song, SongInQueue, Status};
use crate::ranking::{sorted_by_rank, sorted_by_rank_is_stable_sort, stable_sort, Ranked};
use crate::text::{
    chars_of,
    chars_le,
    lex_le,
    lex_le_is_total,
    lex_le_is_transitive,
    lowercase,
    push_two_digits,
    two_digits,
    uppercase,
    uppercase_of,
};

verus! {

/// Which tab of the dashboard is shown as active.
#[derive(Clone, Copy, Debug, PartialEq, Eq)]
pub struct TabsTemplate {
    pub library_active: bool,
    pub playlist_active: bool,
    pub database_active: bool,
    pub now_playing_active: bool,
}

impl Default for TabsTemplate {
    /// No tab is active.
    fn default() -> (tabs: TabsTemplate)
        ensures
            !tabs.library_active,
            !tabs.playlist_active,
            !tabs.database_active,
            !tabs.now_playing_active,
    {
        TabsTemplate {
            library_active: false,
            playlist_active: false,
            database_active: false,
            now_playing_active: false,
        }
    }
}

/// The library page. The tabs are given when the page is sent on its own,
/// not inside the index page.
#[derive(Clone, Debug, PartialEq, Eq)]
pub struct LibraryTemplate {
    pub tabs: Option<TabsTemplate>,
}

/// The artist listing: groups of artists, each under a heading character.
#[derive(Clone, Debug, PartialEq, Eq)]
pub struct ArtistsTemplate {
    pub artists: Vec<(char, Vec<String>)>,
}

/// The albums of one artist.
#[derive(Clone, Debug, PartialEq, Eq)]
pub struct AlbumsTemplate {
    pub tabs: Option<TabsTemplate>,
    pub artist: String,
    pub albums: Vec<Album>,
}

/// The player status.
#[derive(Clone, Debug, PartialEq, Eq)]
pub struct StatusTemplate {
    pub status: Status,
}

/// The queue page, without its listing.
#[derive(Clone, Debug, PartialEq, Eq)]
pub struct PlaylistTemplate {
    pub tabs: Option<TabsTemplate>,
}

/// The queue listing.
#[derive(Clone, Debug, PartialEq, Eq)]
pub struct PlaylistSongsTemplate {
    pub songs: Vec<SongInQueue>,
    pub status: Status,
}

/// The songs of one album.
#[derive(Clone, Debug, PartialEq, Eq)]
pub struct AlbumSongsTemplate {
    pub tabs: Option<TabsTemplate>,
    pub artist: String,
    pub album: String,
    pub songs: Vec<Song>,
}

/// What the daemon reports about its database. Times are in whole seconds.
#[derive(Clone, Copy, Debug, PartialEq, Eq)]
pub struct Stats {
    pub artists: u64,
    pub albums: u64,
    pub songs: u64,
    pub uptime: u64,
    pub playtime: u64,
    pub db_playtime: u64,
    /// UNIX timestamp of the last database update.
    pub db_last_update: u64,
}

/// The database page.
#[derive(Clone, Debug, PartialEq, Eq)]
pub struct DatabaseTemplate {
    pub tabs: Option<TabsTemplate>,
    pub mpd_addr: String,
    pub stats: Stats,
}

/// Whether a database update is running.
#[derive(Clone, Copy, Debug, PartialEq, Eq)]
pub struct DatabaseUpdateStatusTemplate {
    pub updating: bool,
}

/// The now-playing page, without its content.
#[derive(Clone, Debug, PartialEq, Eq)]
pub struct NowPlayingTemplate {
    pub tabs: Option<TabsTemplate>,
}

/// The content of the now-playing page.
#[derive(Clone, Debug, PartialEq, Eq)]
pub struct NowPlayingContentTemplate {
    pub status: Status,
}

/// The page that the index page wraps.
#[derive(Clone, Debug, PartialEq, Eq)]
pub enum Page {
    Library(LibraryTemplate),
    Albums(AlbumsTemplate),
    Songs(AlbumSongsTemplate),
    NowPlaying(NowPlayingTemplate),
    Database(DatabaseTemplate),
    Playlist(PlaylistTemplate),
}

/// The index page: a page with the tabs around it, and the connection
/// error if the daemon cannot be reached.
#[derive(Clone, Debug, PartialEq, Eq)]
pub struct IndexTemplate {
    pub error: Option<String>,
    pub page: Page,
    pub tabs: TabsTemplate,
}

/// The character that a name is filed under: the upper-case form of its
/// first character, the first character of that form if it has several,
/// and the null character for an empty name.
pub open spec fn first_letter_of(name: Seq<char>) -> char {
    let first = if name.len() > 0 {
        name[0]
    } else {
        '\0'
    };
    let upper = uppercase(first);
    if upper.len() > 0 {
        upper[0]
    } else {
        '\0'
    }
}

/// Computes the character that a name is filed under.
pub fn first_letter(s: &str) -> (letter: char)
    ensures
        letter == first_letter_of(s@),
{
    let mut chars = s.chars();
    let first = match chars.next() {
        Some(c) => c,
        None => '\0',
    };
    let upper = uppercase_of(first);
    if upper.len() > 0 {
        upper[0]
    } else {
        '\0'
    }
}

/// An artist's name with the key it is sorted by.
pub struct KeyedName {
    pub key: Vec<char>,
    pub name: String,
}

pub struct KeyedNameView {
    pub key: Seq<char>,
    pub name: Seq<char>,
}

impl DeepView for KeyedName {
    type V = KeyedNameView;

    open spec fn deep_view(&self) -> KeyedNameView {
        KeyedNameView { key: self.key@, name: self.name@ }
    }
}

/// Names rank by their keys, character by character.
impl Ranked for KeyedName {
    open spec fn rank_le(a: KeyedNameView, b: KeyedNameView) -> bool {
        lex_le(a.key, b.key)
    }

    proof fn rank_le_is_total(a: KeyedNameView, b: KeyedNameView) {
        lex_le_is_total(a.key, b.key);
    }

    proof fn rank_le_is_transitive(a: KeyedNameView, b: KeyedNameView, c: KeyedNameView) {
        lex_le_is_transitive(a.key, b.key, c.key);
    }

    fn ranks_no_higher_than(&self, other: &Self) -> (r: bool) {
        chars_le(&self.key, &other.key)
    }
}

/// Each name with its lower-case form as the key.
pub open spec fn keyed_by_lowercase(names: Seq<Seq<char>>) -> Seq<KeyedNameView> {
    names.map_values(|name: Seq<char>| KeyedNameView { key: lowercase(name), name })
}

/// The names in the order of their lower-case forms, names with the same
/// lower-case form in the order given.
pub open spec fn sorted_names(names: Seq<Seq<char>>) -> Seq<Seq<char>> {
    sorted_by_rank::<KeyedName>(keyed_by_lowercase(names)).map_values(
        |keyed: KeyedNameView| keyed.name,
    )
}

/// The names of all groups, one group after the other.
pub open spec fn grouped_names(groups: Seq<(char, Seq<Seq<char>>)>) -> Seq<Seq<char>> {
    groups.map_values(|group: (char, Seq<Seq<char>>)| group.1).flatten()
}

/// `groups` cuts `names` into runs of names filed under the same
/// character: no group is empty, each stands under the character of its
/// names, neighbouring groups stand under different characters, and the
/// groups one after the other give `names`.
pub open spec fn is_run_grouping(groups: Seq<(char, Seq<Seq<char>>)>, names: Seq<Seq<char>>) -> bool {
    &&& grouped_names(groups) == names
    &&& forall|g: int|
        0 <= g < groups.len() ==> (#[trigger] groups[g]).1.len() > 0 && forall|k: int|
            0 <= k < groups[g].1.len() ==> first_letter_of(#[trigger] groups[g].1[k])
                == groups[g].0
    &&& forall|g: int|
        0 <= g < groups.len() - 1 ==> (#[trigger] groups[g]).0 != groups[g + 1].0
}

/// `Itertools::group_by` of the `itertools` crate, keyed by
/// [`first_letter`], with each group gathered into a list. Consecutive
/// names with the same key form one group, so the result is the run
/// grouping of the names.
#[verifier::external_body]
fn group_by_first_letter(names: Vec<String>) -> (groups: Vec<(char, Vec<String>)>)
    ensures
        is_run_grouping(groups.deep_view(), names.deep_view()),
{
    names.into_iter().group_by(|name| first_letter(name)).into_iter().map(
        |(letter, group)| (letter, group.collect()),
    ).collect()
}

/// The number of artists up to which the listing is not divided.
pub const UNDIVIDED_LIMIT: usize = 20;

impl ArtistsTemplate {
    /// Arranges artists for the listing.
    ///
    /// The artists are sorted by their lower-case names. Up to
    /// [`UNDIVIDED_LIMIT`] artists form one group under a blank heading;
    /// more are cut into runs filed under the same character.
    pub fn new(artists_vec: Vec<String>) -> (template: Self)
        ensures
            artists_vec.len() <= UNDIVIDED_LIMIT ==> template.artists.deep_view() == seq![
                (' ', sorted_names(artists_vec.deep_view())),
            ],
            artists_vec.len() > UNDIVIDED_LIMIT ==> is_run_grouping(
                template.artists.deep_view(),
                sorted_names(artists_vec.deep_view()),
            ),
    {
        let ghost given = artists_vec.deep_view();
        let mut keyed: Vec<KeyedName> = Vec::new();
        let mut i: usize = 0;
        while i < artists_vec.len()
            invariant
                i <= artists_vec.len(),
                given == artists_vec.deep_view(),
                keyed.len() == i,
                forall|k: int|
                    0 <= k < i ==> (#[trigger] keyed@[k]).deep_view() == (KeyedNameView {
                        key: lowercase(given[k]),
                        name: given[k],
                    }),
            decreases artists_vec.len() - i,
        {
            let name = &artists_vec[i];
            assert(given[i as int] == name@);
            keyed.push(KeyedName { key: chars_of(name.to_lowercase().as_str()), name: name.clone() });
            i += 1;
        }
        assert(keyed.deep_view() =~= keyed_by_lowercase(given));
        let sorted = stable_sort(keyed);
        let mut names: Vec<String> = Vec::new();
        let mut j: usize = 0;
        while j < sorted.len()
            invariant
                j <= sorted.len(),
                names.len() == j,
                forall|k: int| 0 <= k < j ==> (#[trigger] names@[k])@ == sorted@[k].name@,
            decreases sorted.len() - j,
        {
            names.push(sorted[j].name.clone());
            j += 1;
        }
        proof {
            assert(names.deep_view() =~= sorted_names(given));
            // Sorting keeps the number of names, which decides whether they are divided.
            sorted_by_rank_is_stable_sort::<KeyedName>(keyed_by_lowercase(given));
        }
        let artists = if names.len() <= UNDIVIDED_LIMIT {
            let mut single: Vec<(char, Vec<String>)> = Vec::new();
            single.push((' ', names));
            assert(single.deep_view() =~= seq![(' ', sorted_names(given))]);
            single
        } else {
            group_by_first_letter(names)
        };
        ArtistsTemplate { artists }
    }
}

/// A length of time as hours, minutes and seconds, each with at least two
/// digits, separated by colons.
pub open spec fn duration_text(total_seconds: u64) -> Seq<char> {
    two_digits((total_seconds / 60 / 60) as nat) + seq![':'] + two_digits(
        (total_seconds / 60 % 60) as nat,
    ) + seq![':'] + two_digits((total_seconds % 60) as nat)
}

/// Writes a length of time as `hh:mm:ss`.
pub fn duration(total_seconds: u64) -> (text: String)
    ensures
        text@ == duration_text(total_seconds),
{
    let seconds = total_seconds % 60;
    let minutes = (total_seconds / 60) % 60;
    let hours = (total_seconds / 60) / 60;
    let mut text = String::new();
    push_two_digits(&mut text, hours);
    text.push(':');
    push_two_digits(&mut text, minutes);
    text.push(':');
    push_two_digits(&mut text, seconds);
    assert(text@ =~= duration_text(total_seconds));
    text
}

/// A length of time as minutes and seconds, each with at least two
/// digits, separated by a colon. The minutes are not cut at the hour.
pub open spec fn duration_m_s_text(total_seconds: u64) -> Seq<char> {
    two_digits((total_seconds / 60) as nat) + seq![':'] + two_digits((total_seconds % 60) as nat)
}

/// Writes a length of time as `mm:ss`.
pub fn duration_m_s(total_seconds: u64) -> (text: String)
    ensures
        text@ == duration_m_s_text(total_seconds),
{
    let seconds = total_seconds % 60;
    let minutes = total_seconds / 60;
    let mut text = String::new();
    push_two_digits(&mut text, minutes);
    text.push(':');
    push_two_digits(&mut text, seconds);
    assert(text@ =~= duration_m_s_text(total_seconds));
    text
}

/// The text `YYYY-MM-DD hh:mm:ss+00:00` of the moment that lies `secs`
/// seconds after the start of 1970 in UTC; nothing if the moment is
/// outside the range of dates that can be represented.
pub uninterp spec fn utc_text(secs: i64) -> Option<Seq<char>>;

/// `chrono::DateTime::from_timestamp` with no nanoseconds, and the
/// moment written by `DateTime::format` with the pattern
/// `%Y-%m-%d %H:%M:%S+00:00`. The contract only names the outcome.
#[verifier::external_body]
fn format_utc(secs: i64) -> (text: Option<String>)
    ensures
        text.deep_view() == utc_text(secs),
{
    let moment = chrono::DateTime::from_timestamp(secs, 0)?;
    Some(format!("{}", moment.format("%Y-%m-%d %H:%M:%S+00:00")))
}

/// The signed number that has the same 64 bits as `unix_timestamp`.
pub open spec fn signed_seconds(unix_timestamp: u64) -> i64 {
    if unix_timestamp <= i64::MAX {
        unix_timestamp as i64
    } else {
        (unix_timestamp - 0x1_0000_0000_0000_0000) as i64
    }
}

/// Writes the date and time of a UNIX timestamp in UTC.
///
/// The timestamp is read as a signed number of seconds; there is no text
/// for a moment outside the range of dates that can be represented.
pub fn datetime(unix_timestamp: u64) -> (text: Option<String>)
    ensures
        text.deep_view() == utc_text(signed_seconds(unix_timestamp)),
{
    let secs: i64 = if unix_timestamp <= 0x7fff_ffff_ffff_ffff {
        unix_timestamp as i64
    } else {
        let below: u64 = u64::MAX - unix_timestamp;
        -(below as i64) - 1
    };
    format_utc(secs)
}

} // verus!
