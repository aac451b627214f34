//! The library queries: which artists, albums and songs are listed, and in
//! which order.
//!
//! The caller asks the daemon and hands over what it found; the daemon's
//! order is never assumed to be the wanted one.

use vstd::prelude::*;
use crate::mpd::{
    single_tag_value,
    tag_text,
    tag_text_of,
    get_single_tag_value,
    Album,
    AlbumView,
    Song,
    SongView,
    Tag,
    TaggedSong,
    TaggedSongView,
};
use crate::ranking::{
    sorted_by_rank,
    sorted_by_rank_is_stable_sort,
    sorted_by_rank_starts_lowest,
    stable_sort,
    Ranked,
};
use crate::text::{chars_of, contains_chars, is_substring, lowercase};

verus! {

/// Songs rank by disc number, and within a disc by track number.
impl Ranked for TaggedSong {
    open spec fn rank_le(a: TaggedSongView, b: TaggedSongView) -> bool {
        a.disc < b.disc || (a.disc == b.disc && a.track <= b.track)
    }

    proof fn rank_le_is_total(a: TaggedSongView, b: TaggedSongView) {
    }

    proof fn rank_le_is_transitive(a: TaggedSongView, b: TaggedSongView, c: TaggedSongView) {
    }

    fn ranks_no_higher_than(&self, other: &Self) -> (r: bool) {
        self.disc < other.disc || (self.disc == other.disc && self.track <= other.track)
    }
}

/// A year comes no later than another; an album without a year comes
/// before every album that has one.
pub open spec fn year_le(a: Option<i32>, b: Option<i32>) -> bool {
    match (a, b) {
        (None, _) => true,
        (Some(_), None) => false,
        (Some(x), Some(y)) => x <= y,
    }
}

/// Albums rank by year.
impl Ranked for Album {
    open spec fn rank_le(a: AlbumView, b: AlbumView) -> bool {
        year_le(a.year, b.year)
    }

    proof fn rank_le_is_total(a: AlbumView, b: AlbumView) {
    }

    proof fn rank_le_is_transitive(a: AlbumView, b: AlbumView, c: AlbumView) {
    }

    fn ranks_no_higher_than(&self, other: &Self) -> (r: bool) {
        match self.year {
            None => true,
            Some(x) => match other.year {
                None => false,
                Some(y) => x <= y,
            },
        }
    }
}

/// A condition on the songs that the daemon is asked for: the tag has
/// exactly this value.
#[derive(Clone, Debug, PartialEq, Eq)]
pub struct TagEquals {
    pub tag: Tag,
    pub value: String,
}

impl DeepView for TagEquals {
    type V = (Tag, Seq<char>);

    open spec fn deep_view(&self) -> (Tag, Seq<char>) {
        (self.tag, self.value@)
    }
}

/// The conditions, all of which must hold, under which a song belongs to
/// the song listing of an album: it has the artist and it has the album.
pub fn songs_filter(artist: &str, album: &str) -> (conditions: Vec<TagEquals>)
    ensures
        conditions.deep_view() == seq![(Tag::Artist, artist@), (Tag::Album, album@)],
{
    let mut conditions: Vec<TagEquals> = Vec::new();
    conditions.push(TagEquals { tag: Tag::Artist, value: artist.to_owned() });
    conditions.push(TagEquals { tag: Tag::Album, value: album.to_owned() });
    assert(conditions.deep_view() =~= seq![(Tag::Artist, artist@), (Tag::Album, album@)]);
    conditions
}

/// The conditions under which an album name belongs to the album listing
/// of an artist: a song of that name has the artist.
pub fn albums_filter(artist: &str) -> (conditions: Vec<TagEquals>)
    ensures
        conditions.deep_view() == seq![(Tag::Artist, artist@)],
{
    let mut conditions: Vec<TagEquals> = Vec::new();
    conditions.push(TagEquals { tag: Tag::Artist, value: artist.to_owned() });
    assert(conditions.deep_view() =~= seq![(Tag::Artist, artist@)]);
    conditions
}


/// The listing line of one song: its location, its title (empty if it has
/// none) and the year that its date reads as.
pub open spec fn song_of(song: TaggedSongView) -> SongView {
    SongView {
        url: song.url,
        title: tag_text(song, Tag::Title),
        year: single_tag_value::<i32>(song, Tag::Date),
    }
}

/// The song listing of an album: the songs found, in ascending disc and
/// track number, songs with the same numbers in the order found.
pub open spec fn songs_of(found: Seq<TaggedSongView>) -> Seq<SongView> {
    sorted_by_rank::<TaggedSong>(found).map_values(|song: TaggedSongView| song_of(song))
}

/// Lists the songs that the daemon found for one artist and album.
pub fn get_songs(found: Vec<TaggedSong>) -> (songs: Vec<Song>)
    ensures
        songs.deep_view() == songs_of(found.deep_view()),
{
    let sorted = stable_sort(found);
    let mut songs: Vec<Song> = Vec::new();
    let mut i: usize = 0;
    while i < sorted.len()
        invariant
            i <= sorted.len(),
            songs.len() == i,
            forall|k: int|
                0 <= k < i ==> (#[trigger] songs@[k]).deep_view() == song_of(
                    sorted@[k].deep_view(),
                ),
        decreases sorted.len() - i,
    {
        let song = &sorted[i];
        songs.push(
            Song {
                url: song.url.clone(),
                title: tag_text_of(song, Tag::Title),
                year: get_single_tag_value::<i32>(song, Tag::Date),
            },
        );
        i += 1;
    }
    assert(songs.deep_view() =~= sorted.deep_view().map_values(
        |song: TaggedSongView| song_of(song),
    ));
    songs
}

/// The song listing holds one line for each song found, and the lines
/// stand in ascending disc and track number of their songs, whatever the
/// order in which the songs were found: the songs of one disc stand in
/// ascending track number.
pub proof fn songs_are_listed_by_number(found: Seq<TaggedSongView>)
    ensures
        ({
            let sorted = sorted_by_rank::<TaggedSong>(found);
            &&& sorted.to_multiset() == found.to_multiset()
            &&& songs_of(found).len() == found.len()
            &&& forall|i: int|
                0 <= i < found.len() ==> #[trigger] songs_of(found)[i] == song_of(sorted[i])
            &&& forall|i: int, j: int|
                #![trigger sorted[i], sorted[j]]
                0 <= i <= j < found.len() ==> sorted[i].disc < sorted[j].disc || (sorted[i].disc
                    == sorted[j].disc && sorted[i].track <= sorted[j].track)
            &&& forall|i: int, j: int|
                #![trigger sorted[i], sorted[j]]
                0 <= i <= j < found.len() && sorted[i].disc == sorted[j].disc ==> sorted[i].track
                    <= sorted[j].track
        }),
{
    sorted_by_rank_is_stable_sort::<TaggedSong>(found);
    let sorted = sorted_by_rank::<TaggedSong>(found);
    assert forall|i: int, j: int|
        #![trigger sorted[i], sorted[j]]
        0 <= i <= j < found.len() implies sorted[i].disc < sorted[j].disc || (sorted[i].disc
        == sorted[j].disc && sorted[i].track <= sorted[j].track) by {
        assert(<TaggedSong as Ranked>::rank_le(sorted[i], sorted[j]));
    }
}

/// The songs that the daemon found for one album name.
#[derive(Clone, Debug, PartialEq, Eq)]
pub struct AlbumTracks {
    pub album_name: String,
    pub tracks: Vec<TaggedSong>,
}

pub struct AlbumTracksView {
    pub album_name: Seq<char>,
    pub tracks: Seq<TaggedSongView>,
}

impl DeepView for AlbumTracks {
    type V = AlbumTracksView;

    open spec fn deep_view(&self) -> AlbumTracksView {
        AlbumTracksView {
            album_name: self.album_name.deep_view(),
            tracks: self.tracks.deep_view(),
        }
    }
}

/// The year of the first line of a song listing, if there is a line and
/// it has a year.
pub open spec fn first_year(songs: Seq<SongView>) -> Option<i32> {
    if songs.len() == 0 {
        None
    } else {
        songs[0].year
    }
}

/// An album with the year of its first song by disc and track number.
pub open spec fn album_of(entry: AlbumTracksView) -> AlbumView {
    AlbumView {
        album_name: entry.album_name,
        year: first_year(songs_of(entry.tracks)),
        art: None,
    }
}

/// The year of an album is read from a song of the album that no other
/// song of the album comes before, by disc and track number; an album
/// without songs has no year.
pub proof fn album_year_is_from_lowest_song(entry: AlbumTracksView, i: int)
    requires
        0 <= i < entry.tracks.len(),
    ensures
        ({
            let first = sorted_by_rank::<TaggedSong>(entry.tracks)[0];
            &&& entry.tracks.contains(first)
            &&& album_of(entry).year == single_tag_value::<i32>(first, Tag::Date)
            &&& first.disc < entry.tracks[i].disc || (first.disc == entry.tracks[i].disc
                && first.track <= entry.tracks[i].track)
        }),
        album_of(AlbumTracksView { album_name: entry.album_name, tracks: Seq::empty() }).year
            is None,
{
    let sorted = sorted_by_rank::<TaggedSong>(entry.tracks);
    sorted_by_rank_is_stable_sort::<TaggedSong>(entry.tracks);
    sorted_by_rank_starts_lowest::<TaggedSong>(entry.tracks, i);
    vstd::seq_lib::to_multiset_contains(sorted, sorted[0]);
    vstd::seq_lib::to_multiset_contains(entry.tracks, sorted[0]);
    assert(sorted.contains(sorted[0]));
    assert(<TaggedSong as Ranked>::rank_le(sorted[0], entry.tracks[i]));
    let none = AlbumTracksView { album_name: entry.album_name, tracks: Seq::empty() };
    assert(sorted_by_rank::<TaggedSong>(none.tracks).len() == 0);
}


/// The album listing of an artist: the albums found, in ascending year,
/// those without a year first, albums of the same year in the order found.
pub open spec fn albums_of(found: Seq<AlbumTracksView>) -> Seq<AlbumView> {
    sorted_by_rank::<Album>(found.map_values(|entry: AlbumTracksView| album_of(entry)))
}

/// Lists the albums that the daemon found for one artist, each given with
/// the songs found for it.
pub fn get_albums(found: Vec<AlbumTracks>) -> (albums: Vec<Album>)
    ensures
        albums.deep_view() == albums_of(found.deep_view()),
{
    let ghost original = found.deep_view();
    let mut rest = found;
    let mut albums: Vec<Album> = Vec::new();
    while rest.len() > 0
        invariant
            rest.len() <= original.len(),
            rest.deep_view() == original.take(rest.len() as int),
            albums.len() == original.len() - rest.len(),
            forall|k: int|
                0 <= k < albums.len() ==> (#[trigger] albums@[k]).deep_view() == album_of(
                    original[rest.len() + k],
                ),
        decreases rest.len(),
    {
        let ghost before = albums@;
        let ghost rest_before = rest.deep_view();
        let entry = rest.pop().unwrap();
        assert(entry.deep_view() == rest_before[rest.len() as int]);
        let AlbumTracks { album_name, tracks } = entry;
        let songs = get_songs(tracks);
        let year = if songs.len() == 0 {
            None
        } else {
            assert(songs.deep_view()[0] == songs@[0].deep_view());
            songs[0].year
        };
        albums.insert(0, Album { album_name, year, art: None });
        proof {
            assert(rest.deep_view() =~= original.take(rest.len() as int));
            assert forall|k: int| 0 <= k < albums.len() implies (#[trigger] albums@[k]).deep_view()
                == album_of(original[rest.len() + k]) by {
                if k > 0 {
                    assert(albums@[k] == before[k - 1]);
                }
            }
        }
    }
    assert(albums.deep_view() =~= original.map_values(|entry: AlbumTracksView| album_of(entry)));
    stable_sort(albums)
}

/// The album listing holds each album found once, and its years never
/// decrease: every album without a year stands before every album with one.
pub proof fn albums_are_listed_by_year(found: Seq<AlbumTracksView>)
    ensures
        ({
            let albums = albums_of(found);
            &&& albums.len() == found.len()
            &&& albums.to_multiset() == found.map_values(
                |entry: AlbumTracksView| album_of(entry),
            ).to_multiset()
            &&& forall|i: int, j: int|
                #![trigger albums[i], albums[j]]
                0 <= i <= j < albums.len() ==> year_le(albums[i].year, albums[j].year)
            &&& forall|i: int, j: int|
                #![trigger albums[i], albums[j]]
                0 <= i < albums.len() && 0 <= j < albums.len() && albums[i].year is None
                    && albums[j].year is Some ==> i < j
        }),
{
    let unsorted = found.map_values(|entry: AlbumTracksView| album_of(entry));
    sorted_by_rank_is_stable_sort::<Album>(unsorted);
    let albums = albums_of(found);
    assert forall|i: int, j: int|
        #![trigger albums[i], albums[j]]
        0 <= i <= j < albums.len() implies year_le(albums[i].year, albums[j].year) by {
        assert(<Album as Ranked>::rank_le(albums[i], albums[j]));
    }
    assert forall|i: int, j: int|
        #![trigger albums[i], albums[j]]
        0 <= i < albums.len() && 0 <= j < albums.len() && albums[i].year is None
            && albums[j].year is Some implies i < j by {
        if j <= i {
            assert(<Album as Ranked>::rank_le(albums[j], albums[i]));
        }
    }
}

/// Whether an artist passes the name filter: there is no filter, or the
/// filter stands in the artist's name, both taken in lower case.
pub open spec fn passes_filter(name_filter: Option<Seq<char>>) -> spec_fn(Seq<char>) -> bool {
    |artist: Seq<char>|
        match name_filter {
            Some(text) => is_substring(lowercase(text), lowercase(artist)),
            None => true,
        }
}

/// Lists the artists that the daemon named, in the daemon's order, leaving
/// out those that do not pass the name filter.
pub fn get_artists(all: Vec<String>, name_filter: Option<String>) -> (artists: Vec<String>)
    ensures
        artists.deep_view() == all.deep_view().filter(passes_filter(name_filter.deep_view())),
{
    let needle = match &name_filter {
        Some(text) => Some(chars_of(text.to_lowercase().as_str())),
        None => None,
    };
    let ghost pred = passes_filter(name_filter.deep_view());
    let ghost names = all.deep_view();
    let mut artists: Vec<String> = Vec::new();
    let mut i: usize = 0;
    proof {
        reveal(Seq::filter);
        assert(names.take(0).filter(pred) =~= Seq::<Seq<char>>::empty());
        assert(artists.deep_view() =~= Seq::<Seq<char>>::empty());
    }
    while i < all.len()
        invariant
            i <= all.len(),
            names == all.deep_view(),
            pred == passes_filter(name_filter.deep_view()),
            artists.deep_view() == names.take(i as int).filter(pred),
            match needle {
                Some(chars) => name_filter is Some && chars@ == lowercase(name_filter.unwrap()@),
                None => name_filter is None,
            },
        decreases all.len() - i,
    {
        let ghost kept = artists.deep_view();
        let artist = &all[i];
        let keep = match &needle {
            Some(chars) => {
                let name = chars_of(artist.to_lowercase().as_str());
                contains_chars(&name, chars)
            },
            None => true,
        };
        proof {
            assert(names[i as int] == artist@);
            assert(keep == pred(names[i as int]));
            assert(names.take(i + 1) =~= names.take(i as int).push(names[i as int]));
            names.take(i as int).lemma_filter_push(names[i as int], pred);
        }
        if keep {
            artists.push(artist.clone());
            assert(artists.deep_view() =~= kept.push(names[i as int]));
        }
        i += 1;
    }
    assert(names.take(i as int) =~= names);
    artists
}

} // verus!
