use mpd_dashboard::library::{
    albums_filter, get_albums, get_artists, get_songs, songs_filter, AlbumTracks, TagEquals,
};
use mpd_dashboard::mpd::{Album, Song, Tag, TaggedSong};

fn track(url: &str, title: &str, date: Option<&str>, disc: u64, number: u64) -> TaggedSong {
    TaggedSong {
        url: url.to_string(),
        titles: vec![title.to_string()],
        artists: vec!["Artist".to_string()],
        albums: vec!["Album".to_string()],
        dates: date.map(|d| d.to_string()).into_iter().collect(),
        disc,
        track: number,
    }
}

fn urls(songs: &[Song]) -> Vec<&str> {
    songs.iter().map(|song| song.url.as_str()).collect()
}

fn names(artists: &[&str]) -> Vec<String> {
    artists.iter().map(|a| a.to_string()).collect()
}

#[test]
fn songs_are_listed_by_track_number_whatever_the_order_found() {
    let found = vec![
        track("c", "Three", Some("2001"), 0, 3),
        track("a", "One", Some("1999"), 0, 1),
        track("d", "Four", None, 0, 4),
        track("b", "Two", Some("2000"), 0, 2),
    ];
    let songs = get_songs(found);
    assert_eq!(
        songs,
        vec![
            Song { url: "a".to_string(), title: "One".to_string(), year: Some(1999) },
            Song { url: "b".to_string(), title: "Two".to_string(), year: Some(2000) },
            Song { url: "c".to_string(), title: "Three".to_string(), year: Some(2001) },
            Song { url: "d".to_string(), title: "Four".to_string(), year: None },
        ]
    );
}

#[test]
fn the_disc_number_comes_before_the_track_number() {
    let found = vec![
        track("2-1", "", None, 2, 1),
        track("1-2", "", None, 1, 2),
        track("0-9", "", None, 0, 9),
        track("1-1", "", None, 1, 1),
        track("2-0", "", None, 2, 0),
    ];
    assert_eq!(urls(&get_songs(found)), vec!["0-9", "1-1", "1-2", "2-0", "2-1"]);
}

#[test]
fn songs_with_the_same_numbers_keep_the_order_found() {
    let found = vec![
        track("x", "", None, 0, 2),
        track("first", "", None, 0, 0),
        track("second", "", None, 0, 0),
        track("y", "", None, 0, 1),
        track("third", "", None, 0, 0),
    ];
    assert_eq!(urls(&get_songs(found)), vec!["first", "second", "third", "y", "x"]);
}

#[test]
fn every_order_of_the_same_songs_gives_the_same_listing() {
    let base = [("a", 1u64), ("b", 2), ("c", 3), ("d", 4)];
    let orders: [[usize; 4]; 6] =
        [[0, 1, 2, 3], [3, 2, 1, 0], [1, 3, 0, 2], [2, 0, 3, 1], [0, 2, 1, 3], [3, 0, 1, 2]];
    for order in orders {
        let found = order.iter().map(|&i| track(base[i].0, "", None, 0, base[i].1)).collect();
        assert_eq!(urls(&get_songs(found)), vec!["a", "b", "c", "d"]);
    }
}

#[test]
fn a_song_without_a_title_has_an_empty_one() {
    let mut song = track("a", "", None, 0, 0);
    song.titles.clear();
    assert_eq!(
        get_songs(vec![song]),
        vec![Song { url: "a".to_string(), title: String::new(), year: None }]
    );
    assert_eq!(get_songs(Vec::new()), Vec::new());
}

#[test]
fn a_date_that_is_no_year_gives_no_year() {
    let songs = get_songs(vec![track("a", "t", Some("2004-05-01"), 0, 1)]);
    assert_eq!(songs[0].year, None);
}

fn album(name: &str, tracks: Vec<TaggedSong>) -> AlbumTracks {
    AlbumTracks { album_name: name.to_string(), tracks }
}

fn listed(name: &str, year: Option<i32>) -> Album {
    Album { album_name: name.to_string(), year, art: None }
}

#[test]
fn albums_are_listed_by_year_with_the_undated_first() {
    let found = vec![
        album("Late", vec![track("l", "", Some("2010"), 0, 1)]),
        album("Undated", vec![track("u", "", None, 0, 1)]),
        album("Early", vec![track("e", "", Some("1990"), 0, 1)]),
        album("Empty", Vec::new()),
        album("Middle", vec![track("m", "", Some("2000"), 0, 1)]),
    ];
    assert_eq!(
        get_albums(found),
        vec![
            listed("Undated", None),
            listed("Empty", None),
            listed("Early", Some(1990)),
            listed("Middle", Some(2000)),
            listed("Late", Some(2010)),
        ]
    );
}

#[test]
fn the_year_of_an_album_is_that_of_its_lowest_numbered_song() {
    let found = vec![album(
        "Mixed",
        vec![
            track("3", "", Some("2003"), 0, 3),
            track("1", "", Some("2001"), 0, 1),
            track("2", "", Some("2002"), 0, 2),
        ],
    )];
    assert_eq!(get_albums(found), vec![listed("Mixed", Some(2001))]);
    let found = vec![album(
        "First undated",
        vec![track("2", "", Some("2002"), 0, 2), track("1", "", None, 0, 1)],
    )];
    assert_eq!(get_albums(found), vec![listed("First undated", None)]);
}

#[test]
fn albums_of_the_same_year_keep_the_order_found() {
    let found = vec![
        album("B", vec![track("b", "", Some("2000"), 0, 1)]),
        album("A", vec![track("a", "", Some("2000"), 0, 1)]),
        album("C", vec![track("c", "", Some("1999"), 0, 1)]),
        album("Negative", vec![track("n", "", Some("-5"), 0, 1)]),
    ];
    let albums = get_albums(found);
    let order: Vec<&str> = albums.iter().map(|a| a.album_name.as_str()).collect();
    assert_eq!(order, vec!["Negative", "C", "B", "A"]);
    assert_eq!(get_albums(Vec::new()), Vec::new());
}

#[test]
fn without_a_filter_every_artist_is_listed_in_the_order_given() {
    let all = names(&["Zappa", "abba", "Queen"]);
    assert_eq!(get_artists(all.clone(), None), all);
    assert_eq!(get_artists(Vec::new(), None), Vec::<String>::new());
}

#[test]
fn the_filter_finds_its_text_anywhere_and_in_any_case() {
    let all = names(&["Queen", "The Queens", "queensryche", "Dequeue", "Quee", "ABBA", "QUEEN"]);
    let found = get_artists(all, Some("QuEEn".to_string()));
    assert_eq!(found, names(&["Queen", "The Queens", "queensryche", "QUEEN"]));
}

#[test]
fn the_filter_knows_letters_beyond_ascii() {
    let all = names(&["Björk", "BJÖRK", "Bjork", "Sigur Rós"]);
    assert_eq!(get_artists(all.clone(), Some("JÖ".to_string())), names(&["Björk", "BJÖRK"]));
    assert_eq!(get_artists(all, Some("rós".to_string())), names(&["Sigur Rós"]));
}

#[test]
fn an_empty_filter_keeps_everything_and_a_long_one_nothing() {
    let all = names(&["a", "", "bc"]);
    assert_eq!(get_artists(all.clone(), Some(String::new())), all);
    assert_eq!(get_artists(all, Some("abcd".to_string())), Vec::<String>::new());
}

#[test]
fn the_songs_of_an_album_are_asked_for_by_artist_and_album() {
    assert_eq!(
        songs_filter("Ann", "One"),
        vec![
            TagEquals { tag: Tag::Artist, value: "Ann".to_string() },
            TagEquals { tag: Tag::Album, value: "One".to_string() },
        ]
    );
}

#[test]
fn the_albums_of_an_artist_are_asked_for_by_artist() {
    assert_eq!(
        albums_filter("Ann"),
        vec![TagEquals { tag: Tag::Artist, value: "Ann".to_string() }]
    );
}
