//! The control operations, as the commands they send to the daemon.
//!
//! The caller opens a session, sends what is computed here, and closes the
//! session. A batch is a list of commands that travel to the daemon in one
//! round trip. Operations that depend on an answer of the daemon are split
//! at the answer: one function says what to send first, the next what to
//! send once the answer is known.

use vstd::prelude::*;
use crate::mpd::{DaemonStatus, Song, SongView};

verus! {

/// A command to the daemon.
#[derive(Clone, Debug, PartialEq, Eq)]
pub enum Command {
    /// Resume or start playback at the current song.
    Play,
    /// Start playback at the queue entry with this id.
    PlaySong(u64),
    /// Pause (`true`) or resume (`false`) playback.
    SetPause(bool),
    Previous,
    Next,
    /// Remove every entry from the queue.
    ClearQueue,
    /// Remove the queue entry with this id.
    Delete(u64),
    /// Append the song at this location to the queue; the daemon answers
    /// with the id of the new entry.
    Add(String),
    SetRepeat(bool),
    SetRandom(bool),
    /// Rescan the music directory.
    UpdateDatabase,
}

pub enum CommandView {
    Play,
    PlaySong(u64),
    SetPause(bool),
    Previous,
    Next,
    ClearQueue,
    Delete(u64),
    Add(Seq<char>),
    SetRepeat(bool),
    SetRandom(bool),
    UpdateDatabase,
}

impl DeepView for Command {
    type V = CommandView;

    open spec fn deep_view(&self) -> CommandView {
        match self {
            Command::Play => CommandView::Play,
            Command::PlaySong(id) => CommandView::PlaySong(*id),
            Command::SetPause(pause) => CommandView::SetPause(*pause),
            Command::Previous => CommandView::Previous,
            Command::Next => CommandView::Next,
            Command::ClearQueue => CommandView::ClearQueue,
            Command::Delete(id) => CommandView::Delete(*id),
            Command::Add(url) => CommandView::Add(url@),
            Command::SetRepeat(on) => CommandView::SetRepeat(*on),
            Command::SetRandom(on) => CommandView::SetRandom(*on),
            Command::UpdateDatabase => CommandView::UpdateDatabase,
        }
    }
}

/// Starts playback: at the given queue entry, or where the player stands
/// if none is given.
pub fn play(song_id: Option<u64>) -> (command: Command)
    ensures
        command.deep_view() == (match song_id {
            Some(id) => CommandView::PlaySong(id),
            None => CommandView::Play,
        }),
{
    match song_id {
        Some(id) => Command::PlaySong(id),
        None => Command::Play,
    }
}

/// Removes a queue entry, if one is named.
pub fn remove_from_playlist(song_id: Option<u64>) -> (command: Option<Command>)
    ensures
        command.deep_view() == (match song_id {
            Some(id) => Some(CommandView::Delete(id)),
            None => None,
        }),
{
    match song_id {
        Some(id) => Some(Command::Delete(id)),
        None => None,
    }
}

/// Switches repeat mode to the opposite of what the daemon reports.
pub fn toggle_repeat(status: &DaemonStatus) -> (command: Command)
    ensures
        command.deep_view() == CommandView::SetRepeat(!status.repeat),
{
    Command::SetRepeat(!status.repeat)
}

/// Switches random mode to the opposite of what the daemon reports.
pub fn toggle_random(status: &DaemonStatus) -> (command: Command)
    ensures
        command.deep_view() == CommandView::SetRandom(!status.random),
{
    Command::SetRandom(!status.random)
}

/// The batch that replaces the queue by one song: clear, then add.
pub fn play_song_by_url(url: &str) -> (batch: Vec<Command>)
    ensures
        batch.deep_view() == seq![CommandView::ClearQueue, CommandView::Add(url@)],
{
    let mut batch: Vec<Command> = Vec::new();
    batch.push(Command::ClearQueue);
    batch.push(Command::Add(url.to_owned()));
    assert(batch.deep_view() =~= seq![CommandView::ClearQueue, CommandView::Add(url@)]);
    batch
}

/// The batch that appends the songs of a listing to the queue, in the
/// order of the listing.
pub fn append_album_to_playlist(songs: &Vec<Song>) -> (batch: Vec<Command>)
    ensures
        batch.deep_view() == songs.deep_view().map_values(
            |song: SongView| CommandView::Add(song.url),
        ),
{
    let mut batch: Vec<Command> = Vec::new();
    let mut i: usize = 0;
    while i < songs.len()
        invariant
            i <= songs.len(),
            batch.len() == i,
            forall|k: int|
                0 <= k < i ==> (#[trigger] batch@[k]).deep_view() == CommandView::Add(
                    songs@[k].url@,
                ),
        decreases songs.len() - i,
    {
        batch.push(Command::Add(songs[i].url.clone()));
        i += 1;
    }
    assert(batch.deep_view() =~= songs.deep_view().map_values(
        |song: SongView| CommandView::Add(song.url),
    ));
    batch
}

/// The batches that replace the queue by the songs of a listing: the
/// queue is cleared in a round trip of its own, then the songs are added
/// in one batch, in the order of the listing.
pub fn play_album(songs: &Vec<Song>) -> (batches: Vec<Vec<Command>>)
    ensures
        batches.deep_view() == seq![
            seq![CommandView::ClearQueue],
            songs.deep_view().map_values(|song: SongView| CommandView::Add(song.url)),
        ],
{
    let mut clearing: Vec<Command> = Vec::new();
    clearing.push(Command::ClearQueue);
    assert(clearing.deep_view() =~= seq![CommandView::ClearQueue]);
    let adding = append_album_to_playlist(songs);
    let mut batches: Vec<Vec<Command>> = Vec::new();
    batches.push(clearing);
    batches.push(adding);
    assert(batches.deep_view() =~= seq![
        seq![CommandView::ClearQueue],
        songs.deep_view().map_values(|song: SongView| CommandView::Add(song.url)),
    ]);
    batches
}

/// What follows a batch of additions when the songs are to be played:
/// playback starts at the first entry that was added, and nothing is sent
/// if nothing was added.
pub fn play_first_added(added_ids: &Vec<u64>) -> (command: Option<Command>)
    ensures
        command.deep_view() == (if added_ids.len() > 0 {
            Some(CommandView::PlaySong(added_ids[0]))
        } else {
            None
        }),
{
    if added_ids.len() > 0 {
        Some(Command::PlaySong(added_ids[0]))
    } else {
        None
    }
}

} // verus!
