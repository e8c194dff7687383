//! Catalog swap: a key-independent description of the playback state,
//! taken before the old catalog is dropped and resolved again against
//! the new one. Keys that no longer resolve are dropped, so the rebuilt
//! state only ever indexes the new catalog.

use vstd::prelude::*;
use std::collections::VecDeque;
use crate::collection::{Collection, SongKey};
use crate::state::{keys_valid, state_inv, AudioState, Repeat, StateModel, Volume};

verus! {

/// A queue entry resolved to strings: artist name, album title, song title.
type SongNames = (String, String, String);

/// A playback state with every song named instead of keyed, so it
/// survives a catalog swap.
pub struct AudioStateRestore {
    /// The queue, each entry as artist name, album title and song title.
    pub queue: Vec<SongNames>,
    /// Position of the current song within `queue`, if any.
    pub queue_idx: Option<usize>,
    /// Seconds of the song already played.
    pub elapsed: u32,
    /// Total seconds of the song.
    pub runtime: u32,
    /// Whether playback was running.
    pub playing: bool,
    /// The repeat mode.
    pub repeat: Repeat,
    /// The volume percentage.
    pub volume: Volume,
}

/// Whether the catalog's song `j` carries exactly these names.
pub open spec fn spec_song_matches(c: Collection, j: int, d: SongNames) -> bool {
    &&& c.songs@[j].title@ == d.2@
    &&& c.albums@[c.songs@[j].album.0 as int].title@ == d.1@
    &&& c.artists@[c.albums@[c.songs@[j].album.0 as int].artist.0 as int].name@ == d.0@
}

/// First song from position `j` on that carries these names.
pub open spec fn spec_find_from(c: Collection, d: SongNames, j: int) -> Option<SongKey>
    decreases c.songs@.len() - j,
{
    if j < 0 || j >= c.songs@.len() {
        None
    } else if spec_song_matches(c, j, d) {
        Some(SongKey(j as usize))
    } else {
        spec_find_from(c, d, j + 1)
    }
}

/// First song of the catalog that carries these names.
pub open spec fn spec_find_song(c: Collection, d: SongNames) -> Option<SongKey> {
    spec_find_from(c, d, 0)
}

/// The rebuilt queue: each description resolved against the catalog, in
/// order, dropping those that no longer resolve.
pub open spec fn spec_rebuild_queue(c: Collection, ds: Seq<SongNames>) -> Seq<SongKey>
    decreases ds.len(),
{
    if ds.len() == 0 {
        Seq::empty()
    } else {
        spec_rebuild_queue(c, ds.drop_last()) + (match spec_find_song(c, ds.last()) {
            Some(k) => seq![k],
            None => Seq::empty(),
        })
    }
}

/// The song of the rebuilt state: the old queue entry, if it still resolves.
pub open spec fn spec_rebuilt_song(
    c: Collection,
    ds: Seq<SongNames>,
    idx: Option<usize>,
) -> Option<SongKey> {
    match idx {
        Some(i) => if i < ds.len() {
            spec_find_song(c, ds[i as int])
        } else {
            None
        },
        None => None,
    }
}

/// The position of the rebuilt song within the rebuilt queue: the count
/// of entries before it that still resolve.
pub open spec fn spec_rebuilt_idx(
    c: Collection,
    ds: Seq<SongNames>,
    idx: Option<usize>,
) -> Option<usize> {
    match idx {
        Some(i) => if i < ds.len() && spec_find_song(c, ds[i as int]) is Some {
            Some(spec_rebuild_queue(c, ds.subrange(0, i as int)).len() as usize)
        } else {
            None
        },
        None => None,
    }
}

impl Collection {
    /// First song of the catalog carrying these names, scanning in key
    /// order; `None` when no song does.
    pub fn find_song(&self, d: &SongNames) -> (r: Option<SongKey>)
        requires
            self.wf(),
        ensures
            r == spec_find_song(*self, *d),
            r matches Some(k) ==> k.0 < self.songs@.len() && spec_song_matches(
                *self,
                k.0 as int,
                *d,
            ),
    {
        let n = self.songs.len();
        let mut j: usize = 0;
        while j < n
            invariant
                self.wf(),
                j <= n,
                n == self.songs@.len(),
                spec_find_song(*self, *d) == spec_find_from(*self, *d, j as int),
            decreases n - j,
        {
            let song = &self.songs[j];
            let album = &self.albums[song.album.0];
            let artist = &self.artists[album.artist.0];
            if song.title == d.2 && album.title == d.1 && artist.name == d.0 {
                return Some(SongKey(j));
            }
            j = j + 1;
        }
        None
    }
}

impl AudioStateRestore {
    /// Describe a playback state by names, against the catalog its keys
    /// index. Each queue entry becomes the artist name, album title and
    /// song title of its song.
    pub fn from_audio_state(state: &AudioState, c: &Collection) -> (r: AudioStateRestore)
        requires
            c.wf(),
            keys_valid(state@, *c),
        ensures
            r.queue@.len() == state@.queue.len(),
            forall|i: int|
                0 <= i < r.queue@.len() ==> spec_song_matches(
                    *c,
                    state@.queue[i].0 as int,
                    #[trigger] r.queue@[i],
                ),
            r.queue_idx == state@.queue_idx,
            r.elapsed == state@.elapsed,
            r.runtime == state@.runtime,
            r.playing == state@.playing,
            r.repeat == state@.repeat,
            r.volume == state@.volume,
    {
        let mut queue: Vec<SongNames> = Vec::new();
        let n = state.queue.len();
        let mut i: usize = 0;
        while i < n
            invariant
                c.wf(),
                keys_valid(state@, *c),
                i <= n,
                n == state@.queue.len(),
                queue@.len() == i,
                forall|p: int|
                    0 <= p < i ==> spec_song_matches(
                        *c,
                        state@.queue[p].0 as int,
                        #[trigger] queue@[p],
                    ),
            decreases n - i,
        {
            let key = state.queue[i];
            let song = &c.songs[key.0];
            let album = &c.albums[song.album.0];
            let artist = &c.artists[album.artist.0];
            queue.push((artist.name.clone(), album.title.clone(), song.title.clone()));
            i = i + 1;
        }
        AudioStateRestore {
            queue,
            queue_idx: state.queue_idx,
            elapsed: state.elapsed,
            runtime: state.runtime,
            playing: state.playing,
            repeat: state.repeat,
            volume: state.volume,
        }
    }

    /// Resolve the description against a (new) catalog. Entries that no
    /// longer resolve are dropped; the queue position follows its song to
    /// the song's new place, or is dropped with it. Every key of the
    /// result indexes the new catalog, and the state invariants hold.
    pub fn into_audio_state(&self, c: &Collection) -> (r: AudioState)
        requires
            c.wf(),
        ensures
            r@.queue == spec_rebuild_queue(*c, self.queue@),
            r@.song == spec_rebuilt_song(*c, self.queue@, self.queue_idx),
            r@.queue_idx == spec_rebuilt_idx(*c, self.queue@, self.queue_idx),
            r@.repeat == self.repeat,
            r@.volume.0 == Volume::spec_clamp(self.volume.0),
            r@.song matches Some(k) ==> r@.runtime == c.songs@[k.0 as int].runtime && r@.elapsed
                == (if self.elapsed > c.songs@[k.0 as int].runtime {
                c.songs@[k.0 as int].runtime
            } else {
                self.elapsed
            }) && r@.playing == self.playing,
            r@.song is None ==> r@.runtime == 0 && r@.elapsed == 0 && !r@.playing,
            keys_valid(r@, *c),
            state_inv(r@, *c),
    {
        let ghost ds = self.queue@;
        let mut queue: VecDeque<SongKey> = VecDeque::new();
        let mut new_idx: Option<usize> = None;
        let mut song: Option<SongKey> = None;
        let n = self.queue.len();
        let mut i: usize = 0;
        while i < n
            invariant
                c.wf(),
                i <= n,
                n == ds.len(),
                ds == self.queue@,
                queue@ == spec_rebuild_queue(*c, ds.subrange(0, i as int)),
                forall|p: int|
                    0 <= p < queue@.len() ==> (#[trigger] queue@[p]).0 < c.songs@.len(),
                song == (match self.queue_idx {
                    Some(ii) => if ii < i {
                        spec_find_song(*c, ds[ii as int])
                    } else {
                        None::<SongKey>
                    },
                    None => None::<SongKey>,
                }),
                new_idx == (match self.queue_idx {
                    Some(ii) => if ii < i && spec_find_song(*c, ds[ii as int]) is Some {
                        Some(spec_rebuild_queue(*c, ds.subrange(0, ii as int)).len() as usize)
                    } else {
                        None::<usize>
                    },
                    None => None::<usize>,
                }),
                (song matches Some(k)) <==> (new_idx is Some),
                new_idx matches Some(x) ==> x < queue@.len() && song == Some(queue@[x as int]),
            decreases n - i,
        {
            let is_current = match self.queue_idx {
                Some(ii) => ii == i,
                None => false,
            };
            let found = c.find_song(&self.queue[i]);
            proof {
                assert(ds.subrange(0, i + 1).drop_last() =~= ds.subrange(0, i as int));
                assert(ds.subrange(0, i + 1).last() == ds[i as int]);
            }
            match found {
                Some(k) => {
                    if is_current {
                        new_idx = Some(queue.len());
                        song = Some(k);
                    }
                    queue.push_back(k);
                },
                None => {},
            }
            i = i + 1;
        }
        proof {
            assert(ds.subrange(0, n as int) =~= ds);
        }
        let (elapsed, runtime, playing) = match song {
            Some(k) => {
                let rt = c.songs[k.0].runtime;
                let el = if self.elapsed > rt {
                    rt
                } else {
                    self.elapsed
                };
                (el, rt, self.playing)
            },
            None => (0, 0, false),
        };
        let r = AudioState {
            queue,
            queue_idx: new_idx,
            song,
            elapsed,
            runtime,
            playing,
            repeat: self.repeat,
            volume: self.volume.check(),
        };
        r
    }
}

} // verus!
