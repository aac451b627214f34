//! The bounded cache of album art.
//!
//! The cache maps an (artist, album) pair to encoded image bytes. It holds
//! at most [`CAPACITY`] entries and forgets the entry that was inserted
//! first when it is full. Looking an entry up never changes the order in
//! which entries are forgotten.
//!
//! The entries stand in one queue, oldest first, each with its key and its
//! bytes. The queue is the mapping and the order of eviction at once, so
//! the two cannot disagree, and with at most [`CAPACITY`] entries a lookup
//! walks a short list.

use std::collections::VecDeque;
use vstd::prelude::*;

verus! {

/// The number of entries that the cache holds at most.
pub const CAPACITY: usize = 100;

/// One cached image.
pub struct ArtEntry {
    artist: String,
    album: String,
    bytes: Vec<u8>,
}

/// One cached image, as contracts see it.
pub struct CachedArt {
    pub artist: Seq<char>,
    pub album: Seq<char>,
    pub bytes: Seq<u8>,
}

impl DeepView for ArtEntry {
    type V = CachedArt;

    closed spec fn deep_view(&self) -> CachedArt {
        CachedArt {
            artist: self.artist@,
            album: self.album@,
            bytes: self.bytes@,
        }
    }
}

/// The entry at index `i` is the one for (`artist`, `album`).
pub open spec fn is_at(cache: Seq<CachedArt>, artist: Seq<char>, album: Seq<char>, i: int) -> bool {
    0 <= i < cache.len() && cache[i].artist == artist && cache[i].album == album
}

/// The cache has an entry for (`artist`, `album`).
pub open spec fn holds(cache: Seq<CachedArt>, artist: Seq<char>, album: Seq<char>) -> bool {
    exists|i: int| is_at(cache, artist, album, i)
}

/// No two entries are for the same (artist, album) pair.
pub open spec fn keys_are_unique(cache: Seq<CachedArt>) -> bool {
    forall|i: int, j: int|
        #![trigger cache[i], cache[j]]
        0 <= i < j < cache.len() ==> !(cache[i].artist == cache[j].artist && cache[i].album
            == cache[j].album)
}

/// What every cache satisfies: it is within its capacity and has one entry
/// per key.
pub open spec fn well_formed(cache: Seq<CachedArt>) -> bool {
    cache.len() <= CAPACITY && keys_are_unique(cache)
}

/// The bytes cached for (`artist`, `album`), if there are any.
pub open spec fn lookup(cache: Seq<CachedArt>, artist: Seq<char>, album: Seq<char>) -> Option<
    Seq<u8>,
> {
    if holds(cache, artist, album) {
        Some(cache[choose|i: int| is_at(cache, artist, album, i)].bytes)
    } else {
        None
    }
}

/// The newest [`CAPACITY`] entries of `cache`.
pub open spec fn trimmed(cache: Seq<CachedArt>) -> Seq<CachedArt> {
    if cache.len() > CAPACITY {
        cache.skip(cache.len() - CAPACITY)
    } else {
        cache
    }
}

/// The cache after `entry` was offered to it: unchanged if it already has
/// an entry for that key; else with `entry` as its newest entry and
/// without the oldest entries that no longer fit.
pub open spec fn inserted(cache: Seq<CachedArt>, entry: CachedArt) -> Seq<CachedArt> {
    if holds(cache, entry.artist, entry.album) {
        cache
    } else {
        trimmed(cache.push(entry))
    }
}

/// The cache after each of `entries` was offered to it, first to last.
pub open spec fn inserted_all(cache: Seq<CachedArt>, entries: Seq<CachedArt>) -> Seq<CachedArt>
    decreases entries.len(),
{
    if entries.len() == 0 {
        cache
    } else {
        inserted(inserted_all(cache, entries.drop_last()), entries.last())
    }
}

/// Offering an entry to a cache gives a cache again.
pub proof fn inserted_is_well_formed(cache: Seq<CachedArt>, entry: CachedArt)
    requires
        well_formed(cache),
    ensures
        well_formed(inserted(cache, entry)),
        holds(inserted(cache, entry), entry.artist, entry.album),
{
    if holds(cache, entry.artist, entry.album) {
    } else {
        let grown = cache.push(entry);
        assert forall|i: int, j: int|
            #![trigger grown[i], grown[j]]
            0 <= i < j < grown.len() implies !(grown[i].artist == grown[j].artist
            && grown[i].album == grown[j].album) by {
            if j == cache.len() {
                assert(!is_at(cache, entry.artist, entry.album, i));
            } else {
                assert(grown[i] == cache[i] && grown[j] == cache[j]);
            }
        }
        let kept = trimmed(grown);
        let cut = grown.len() - kept.len();
        assert forall|i: int, j: int|
            #![trigger kept[i], kept[j]]
            0 <= i < j < kept.len() implies !(kept[i].artist == kept[j].artist && kept[i].album
            == kept[j].album) by {
            assert(kept[i] == grown[i + cut] && kept[j] == grown[j + cut]);
        }
        assert(is_at(kept, entry.artist, entry.album, kept.len() - 1));
    }
}

/// Offering an entry for a key that the cache already has changes nothing:
/// neither the bytes cached for the key nor the order in which entries
/// will be forgotten.
pub proof fn present_key_changes_nothing(cache: Seq<CachedArt>, entry: CachedArt)
    requires
        holds(cache, entry.artist, entry.album),
    ensures
        inserted(cache, entry) == cache,
{
}

/// Two fetches for the same key that both missed and both offer what they
/// fetched leave exactly one entry for the key: the second offer changes
/// nothing, and the bytes of the first stay.
pub proof fn racing_fetches_leave_one_entry(
    cache: Seq<CachedArt>,
    first: CachedArt,
    second: CachedArt,
)
    requires
        well_formed(cache),
        first.artist == second.artist,
        first.album == second.album,
    ensures
        inserted(inserted(cache, first), second) == inserted(cache, first),
        forall|i: int, j: int|
            is_at(inserted(cache, first), first.artist, first.album, i) && is_at(
                inserted(cache, first),
                first.artist,
                first.album,
                j,
            ) ==> i == j,
        !holds(cache, first.artist, first.album) ==> lookup(
            inserted(inserted(cache, first), second),
            first.artist,
            first.album,
        ) == Some(first.bytes),
{
    inserted_is_well_formed(cache, first);
    let after = inserted(cache, first);
    assert forall|i: int, j: int|
        is_at(after, first.artist, first.album, i) && is_at(
            after,
            first.artist,
            first.album,
            j,
        ) implies i == j by {
        if i < j {
            assert(!(after[i].artist == after[j].artist && after[i].album == after[j].album));
        } else if j < i {
            assert(!(after[j].artist == after[i].artist && after[j].album == after[i].album));
        }
    }
    if !holds(cache, first.artist, first.album) {
        let last = after.len() - 1;
        assert(after[last] == first);
        assert(is_at(after, first.artist, first.album, last));
        let chosen = choose|i: int| is_at(after, first.artist, first.album, i);
        assert(chosen == last);
    }
}

/// Entries with pairwise different keys, offered to an empty cache one
/// after the other, are forgotten in the order in which they were offered:
/// what remains are the newest [`CAPACITY`] of them, oldest first. After
/// one entry more than the capacity, exactly the first is gone.
pub proof fn oldest_entries_are_forgotten_first(entries: Seq<CachedArt>)
    requires
        keys_are_unique(entries),
    ensures
        inserted_all(Seq::empty(), entries) == trimmed(entries),
        entries.len() == CAPACITY + 1 ==> inserted_all(Seq::empty(), entries) == entries.skip(1),
    decreases entries.len(),
{
    if entries.len() == 0 {
    } else {
        let front = entries.drop_last();
        let last = entries.last();
        assert forall|i: int, j: int|
            #![trigger front[i], front[j]]
            0 <= i < j < front.len() implies !(front[i].artist == front[j].artist
            && front[i].album == front[j].album) by {
            assert(front[i] == entries[i] && front[j] == entries[j]);
        }
        oldest_entries_are_forgotten_first(front);
        let before = trimmed(front);
        let cut = front.len() - before.len();
        assert forall|i: int| !is_at(before, last.artist, last.album, i) by {
            if 0 <= i < before.len() {
                assert(before[i] == entries[i + cut]);
                assert(last == entries[entries.len() - 1]);
            }
        }
        assert(trimmed(before.push(last)) =~= trimmed(entries));
    }
}

/// The bounded cache of album art, keyed by artist and album.
pub struct AlbumArtCache {
    entries: VecDeque<ArtEntry>,
}

impl View for AlbumArtCache {
    type V = Seq<CachedArt>;

    /// The entries, oldest first.
    closed spec fn view(&self) -> Seq<CachedArt> {
        self.entries.deep_view()
    }
}

impl AlbumArtCache {
    #[verifier::type_invariant]
    spec fn is_valid(self) -> bool {
        well_formed(self@)
    }

    /// An empty cache.
    pub fn new() -> (cache: Self)
        ensures
            cache@ == Seq::<CachedArt>::empty(),
    {
        let cache = AlbumArtCache { entries: VecDeque::new() };
        assert(cache@ =~= Seq::<CachedArt>::empty());
        cache
    }

    /// The number of entries.
    pub fn len(&self) -> (n: usize)
        ensures
            n == self@.len(),
            n <= CAPACITY,
            well_formed(self@),
    {
        proof {
            use_type_invariant(self);
        }
        self.entries.len()
    }

    fn position(&self, artist: &String, album: &String) -> (found: Option<usize>)
        ensures
            well_formed(self@),
            match found {
                Some(i) => is_at(self@, artist@, album@, i as int),
                None => !holds(self@, artist@, album@),
            },
    {
        proof {
            use_type_invariant(self);
        }
        let mut i: usize = 0;
        while i < self.entries.len()
            invariant
                i <= self.entries.len(),
                well_formed(self@),
                forall|k: int| 0 <= k < i ==> !is_at(self@, artist@, album@, k),
            decreases self.entries.len() - i,
        {
            let entry = &self.entries[i];
            assert(self@[i as int] == entry.deep_view());
            if entry.artist == *artist && entry.album == *album {
                return Some(i);
            }
            i += 1;
        }
        None
    }

    /// Whether the cache has an entry for (`artist`, `album`).
    pub fn contains(&self, artist: &str, album: &str) -> (r: bool)
        ensures
            r == holds(self@, artist@, album@),
    {
        self.position(&artist.to_owned(), &album.to_owned()).is_some()
    }

    /// Copies out the bytes cached for (`artist`, `album`), if there are
    /// any. The cache is left as it is.
    pub fn get(&self, artist: &str, album: &str) -> (bytes: Option<Vec<u8>>)
        ensures
            bytes.deep_view() == lookup(self@, artist@, album@),
    {
        match self.position(&artist.to_owned(), &album.to_owned()) {
            Some(i) => {
                let entry = &self.entries[i];
                let copy = entry.bytes.clone();
                proof {
                    let chosen = choose|k: int| is_at(self@, artist@, album@, k);
                    assert(self@[i as int] == entry.deep_view());
                    if chosen < i {
                        assert(!(self@[chosen].artist == self@[i as int].artist
                            && self@[chosen].album == self@[i as int].album));
                    } else if i < chosen {
                        assert(!(self@[i as int].artist == self@[chosen].artist
                            && self@[i as int].album == self@[chosen].album));
                    }
                    assert(copy.deep_view() =~= entry.bytes@);
                }
                Some(copy)
            },
            None => None,
        }
    }

    /// Offers the bytes fetched for (`artist`, `album`) to the cache and
    /// tells whether they were taken.
    ///
    /// They are taken only if the cache has no entry for the key: a second
    /// fetch that raced with the first changes nothing. A new entry is the
    /// newest; while the cache is over its capacity the oldest entry is
    /// dropped.
    pub fn insert(&mut self, artist: String, album: String, bytes: Vec<u8>) -> (taken: bool)
        ensures
            taken == !holds(old(self)@, artist@, album@),
            final(self)@ == inserted(
                old(self)@,
                CachedArt { artist: artist@, album: album@, bytes: bytes@ },
            ),
            well_formed(final(self)@),
            holds(final(self)@, artist@, album@),
    {
        let ghost before = self@;
        let ghost offered = CachedArt { artist: artist@, album: album@, bytes: bytes@ };
        if self.position(&artist, &album).is_some() {
            return false;
        }
        let mut entries: VecDeque<ArtEntry> = VecDeque::new();
        assert(entries.deep_view() =~= Seq::<CachedArt>::empty());
        core::mem::swap(&mut self.entries, &mut entries);
        let entry = ArtEntry { artist, album, bytes };
        assert(entry.deep_view() == offered);
        entries.push_back(entry);
        assert(entries.deep_view() =~= before.push(offered));
        while entries.len() > CAPACITY
            invariant
                entries.len() <= before.len() + 1,
                entries.len() >= CAPACITY || entries.len() == before.len() + 1,
                before.len() <= CAPACITY,
                entries.deep_view() == before.push(offered).skip(
                    before.len() + 1 - entries.len(),
                ),
            decreases entries.len(),
        {
            let ghost full = entries.deep_view();
            let dropped = entries.pop_front();
            assert(entries.deep_view() =~= full.skip(1));
            assert(full.skip(1) =~= before.push(offered).skip(before.len() + 1 - entries.len()));
        }
        proof {
            inserted_is_well_formed(before, offered);
            assert(entries.deep_view() =~= trimmed(before.push(offered)));
        }
        self.entries = entries;
        true
    }

    /// The (artist, album) pairs that the cache has entries for, oldest
    /// first: the order in which they will be forgotten.
    pub fn keys(&self) -> (keys: Vec<(String, String)>)
        ensures
            keys.deep_view() == self@.map_values(|entry: CachedArt| (entry.artist, entry.album)),
    {
        let mut keys: Vec<(String, String)> = Vec::new();
        let mut i: usize = 0;
        while i < self.entries.len()
            invariant
                i <= self.entries.len(),
                keys.len() == i,
                forall|k: int|
                    0 <= k < i ==> (#[trigger] keys@[k]).deep_view() == (
                        self@[k].artist,
                        self@[k].album,
                    ),
            decreases self.entries.len() - i,
        {
            let entry = &self.entries[i];
            assert(self@[i as int] == entry.deep_view());
            keys.push((entry.artist.clone(), entry.album.clone()));
            i += 1;
        }
        assert(keys.deep_view() =~= self@.map_values(
            |entry: CachedArt| (entry.artist, entry.album),
        ));
        keys
    }
}

} // verus!
