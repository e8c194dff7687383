//! The audio engine's state machine: every command's effect on the
//! playback state, stated as spec-level transitions and implemented by
//! verified operations on [`Audio`].
//!
//! The engine owns the authoritative [`AudioState`], the flag that a
//! reader (demuxer and decoder) is loaded, and the pending seek that the
//! decode loop applies on its next iteration. Opening files, decoding
//! and writing samples happen outside; they call in with plain values.

use vstd::prelude::*;
use crate::collection::{AlbumKey, ArtistKey, Collection, SongKey};
use crate::state::{
    keys_valid, spec_finish, state_inv, Append, AudioState, Repeat, Seek, StateModel, Volume,
};
use crate::rng::rng_below;
use vstd::multiset::Multiset;

verus! {

/// A command the kernel forwards to the engine. Playlist additions carry
/// the song keys already resolved from the playlist store.
pub enum Command {
    /// Flip between playing and paused; no-op without a loaded song.
    Toggle,
    /// Start playback; no-op without a loaded song.
    Play,
    /// Stop consuming packets; no-op without a loaded song.
    Pause,
    /// Advance one queue position.
    Next,
    /// Go back one queue position, or restart the current song past the
    /// threshold (the global default when `None`).
    Previous(Option<u32>),
    /// Set the repeat mode.
    Repeat(Repeat),
    /// Set the volume.
    Volume(Volume),
    /// Add one song: key, placement, clear-first, force-play.
    QueueAddSong(SongKey, Append, bool, bool),
    /// Add an album's songs: key, placement, clear-first, force-play,
    /// offset of the song to start at.
    QueueAddAlbum(AlbumKey, Append, bool, bool, usize),
    /// Add an artist's songs: key, placement, clear-first, force-play,
    /// offset of the song to start at.
    QueueAddArtist(ArtistKey, Append, bool, bool, usize),
    /// Add already-resolved playlist songs: keys, placement, clear-first,
    /// force-play, offset of the song to start at.
    QueueAddPlaylist(Vec<SongKey>, Append, bool, bool, usize),
    /// Permute the queue at random and start at its new front.
    Shuffle,
    /// Empty the queue; the flag tells whether playback keeps running.
    Clear(bool),
    /// Seek within the current song.
    Seek(Seek, u64),
    /// Advance the given number of queue positions.
    Skip(usize),
    /// Go back the given number of queue positions, always ignoring the
    /// restart threshold.
    Back(usize),
    /// Jump to the given queue position.
    QueueSetIndex(usize),
    /// Remove the positions `start..end`; the flag tells whether the
    /// song at the removal point starts playing.
    QueueRemoveRange(usize, usize, bool),
}

/// Mathematical model of the whole engine.
#[verifier::ext_equal]
pub ghost struct AudioModel {
    /// The playback state.
    pub state: StateModel,
    /// Whether a reader is loaded for the current song.
    pub current: bool,
    /// A seek, in seconds, that the decode loop still has to apply.
    pub pending_seek: Option<u64>,
}

/// The audio engine.
pub struct Audio {
    /// The playback state.
    pub state: AudioState,
    /// Whether a reader is loaded for the current song.
    pub current: bool,
    /// A seek, in seconds, that the decode loop still has to apply.
    pub pending_seek: Option<u64>,
}

impl View for Audio {
    type V = AudioModel;

    open spec fn view(&self) -> AudioModel {
        AudioModel { state: self.state@, current: self.current, pending_seek: self.pending_seek }
    }
}

/// The engine invariants: the state invariants, and a loaded reader
/// implies a loaded song.
pub open spec fn audio_inv(m: AudioModel, c: Collection) -> bool {
    &&& state_inv(m.state, c)
    &&& (m.current ==> m.state.song is Some)
}

//------------------------------------------------------- spec transitions

/// Effect of loading a song: it becomes current, its clock starts at
/// zero, and its runtime comes from the catalog.
pub open spec fn spec_set(m: AudioModel, key: SongKey, c: Collection) -> AudioModel {
    AudioModel {
        state: StateModel {
            song: Some(key),
            elapsed: 0,
            runtime: c.songs@[key.0 as int].runtime,
            ..m.state
        },
        current: true,
        pending_seek: m.pending_seek,
    }
}

/// Effect of moving to queue position `new` and loading the song there.
pub open spec fn spec_advance(m: AudioModel, new: usize, c: Collection) -> AudioModel {
    let ms = spec_set(m, m.state.queue[new as int], c);
    AudioModel { state: StateModel { queue_idx: Some(new), ..ms.state }, ..ms }
}

/// Effect of wrapping to the front of the queue under a repeat mode;
/// `QueuePause` also pauses.
pub open spec fn spec_wrap(m: AudioModel, c: Collection) -> AudioModel {
    let m1 = if m.state.queue.len() > 0 {
        spec_advance(m, 0, c)
    } else {
        m
    };
    if m.state.repeat == Repeat::QueuePause {
        AudioModel { state: StateModel { playing: false, ..m1.state }, ..m1 }
    } else {
        m1
    }
}

/// Effect of running out of songs: state finished, reader dropped.
pub open spec fn spec_stop(m: AudioModel) -> AudioModel {
    AudioModel { state: spec_finish(m.state), current: false, pending_seek: m.pending_seek }
}

/// Effect of `skip(n)`.
pub open spec fn spec_skip(m: AudioModel, n: usize, c: Collection) -> AudioModel {
    if n == 0 {
        m
    } else if m.state.repeat == Repeat::Song {
        match m.state.song {
            Some(k) => spec_set(m, k, c),
            None => m,
        }
    } else {
        match m.state.queue_idx {
            Some(i) => {
                if i + n < m.state.queue.len() {
                    spec_advance(m, (i + n) as usize, c)
                } else if m.state.repeat == Repeat::Queue || m.state.repeat
                    == Repeat::QueuePause {
                    spec_wrap(m, c)
                } else {
                    spec_stop(m)
                }
            },
            None => {
                if n == 1 {
                    if m.state.repeat == Repeat::Queue || m.state.repeat == Repeat::QueuePause {
                        spec_wrap(m, c)
                    } else {
                        spec_stop(m)
                    }
                } else {
                    m
                }
            },
        }
    }
}

/// Effect of `seek(mode, time)`: a no-op without a reader; a pending
/// seek within bounds; `skip(1)` past the end of the song.
pub open spec fn spec_seek(m: AudioModel, seek: Seek, time: u64, c: Collection) -> AudioModel {
    if !m.current {
        m
    } else {
        match seek {
            Seek::Forward => {
                if time + m.state.elapsed > m.state.runtime {
                    spec_skip(m, 1, c)
                } else {
                    AudioModel { pending_seek: Some((time + m.state.elapsed) as u64), ..m }
                }
            },
            Seek::Backward => {
                let secs: u64 = if time > m.state.elapsed {
                    0
                } else {
                    (m.state.elapsed - time) as u64
                };
                AudioModel { pending_seek: Some(secs), ..m }
            },
            Seek::Absolute => {
                if time > m.state.runtime {
                    spec_skip(m, 1, c)
                } else {
                    AudioModel { pending_seek: Some(time), ..m }
                }
            },
        }
    }
}

/// Effect of `back(n, threshold)` with `atomic` as the global threshold.
pub open spec fn spec_back(
    m: AudioModel,
    n: usize,
    threshold: Option<u32>,
    atomic: u32,
    c: Collection,
) -> AudioModel {
    if m.state.queue.len() == 0 {
        m
    } else {
        match m.state.queue_idx {
            None => m,
            Some(i) => {
                if i < n {
                    spec_advance(m, 0, c)
                } else {
                    let t = match threshold {
                        Some(t) => t,
                        None => atomic,
                    };
                    if t != 0 && m.state.elapsed > t {
                        spec_seek(m, Seek::Absolute, 0, c)
                    } else {
                        if i - n < m.state.queue.len() {
                            spec_advance(m, (i - n) as usize, c)
                        } else {
                            m
                        }
                    }
                }
            },
        }
    }
}

/// Effect of `clear(keep_playing)`: the queue empties either way; when
/// not keeping, the song, position, clock, reader and pending seek go too.
pub open spec fn spec_clear(m: AudioModel, keep_playing: bool) -> AudioModel {
    let s1 = StateModel { queue: Seq::empty(), playing: keep_playing, ..m.state };
    if keep_playing {
        AudioModel { state: s1, ..m }
    } else {
        AudioModel { state: spec_finish(s1), current: false, pending_seek: None }
    }
}

/// Effect of `volume(v)`: the stored volume is the clamp of the asked one.
pub open spec fn spec_volume(m: AudioModel, v: Volume) -> AudioModel {
    AudioModel { state: StateModel { volume: Volume(Volume::spec_clamp(v.0)), ..m.state }, ..m }
}

/// Effect of `repeat(r)`.
pub open spec fn spec_repeat(m: AudioModel, r: Repeat) -> AudioModel {
    AudioModel { state: StateModel { repeat: r, ..m.state }, ..m }
}

/// Effect of `toggle`.
pub open spec fn spec_toggle(m: AudioModel) -> AudioModel {
    if m.current {
        AudioModel { state: StateModel { playing: !m.state.playing, ..m.state }, ..m }
    } else {
        m
    }
}

/// Effect of `play`.
pub open spec fn spec_play(m: AudioModel) -> AudioModel {
    if m.current {
        AudioModel { state: StateModel { playing: true, ..m.state }, ..m }
    } else {
        m
    }
}

/// Effect of `pause`.
pub open spec fn spec_pause(m: AudioModel) -> AudioModel {
    if m.current {
        AudioModel { state: StateModel { playing: false, ..m.state }, ..m }
    } else {
        m
    }
}

/// Effect of `queue_set_index(i)`: jump there, or finish when out of range.
pub open spec fn spec_set_index(m: AudioModel, index: usize, c: Collection) -> AudioModel {
    if index < m.state.queue.len() {
        spec_advance(m, index, c)
    } else {
        spec_stop(m)
    }
}

/// Effect of adding `keys` to the queue. An empty `keys` does nothing.
/// An offset past the keys counts as zero. When a song starts (nothing
/// was loaded on a tail append, or the append went to the head), the
/// queue position is the place the started song now occupies; an
/// insertion at or before the current position shifts the position
/// along with its song. An insertion position past the queue leaves the
/// queue unchanged, and a forced play then only takes effect if a song
/// is loaded.
pub open spec fn spec_add(
    m: AudioModel,
    keys: Seq<SongKey>,
    append: Append,
    clear: bool,
    play: bool,
    offset: usize,
    c: Collection,
) -> AudioModel {
    if keys.len() == 0 {
        m
    } else {
        let m1 = if clear {
            spec_clear(m, play)
        } else {
            m
        };
        let off: usize = if offset >= keys.len() {
            0
        } else {
            offset
        };
        let m2 = match append {
            Append::Back => {
                let mq = AudioModel {
                    state: StateModel { queue: m1.state.queue + keys, ..m1.state },
                    ..m1
                };
                if !m1.current {
                    spec_advance(mq, (m1.state.queue.len() + off) as usize, c)
                } else {
                    mq
                }
            },
            Append::Front => {
                let mq = AudioModel {
                    state: StateModel { queue: keys + m1.state.queue, ..m1.state },
                    ..m1
                };
                spec_advance(mq, off, c)
            },
            Append::Index(at) => {
                if at <= m1.state.queue.len() {
                    let q = m1.state.queue.subrange(0, at as int) + keys + m1.state.queue.subrange(
                        at as int,
                        m1.state.queue.len() as int,
                    );
                    let mq = AudioModel { state: StateModel { queue: q, ..m1.state }, ..m1 };
                    if at == 0 {
                        spec_advance(mq, off, c)
                    } else {
                        let idx2 = match m1.state.queue_idx {
                            Some(i) => if at <= i && i < m1.state.queue.len() {
                                Some((i + keys.len()) as usize)
                            } else {
                                Some(i)
                            },
                            None => None::<usize>,
                        };
                        AudioModel { state: StateModel { queue_idx: idx2, ..mq.state }, ..mq }
                    }
                } else {
                    m1
                }
            },
        };
        let appended = match append {
            Append::Index(at) => at <= m1.state.queue.len(),
            _ => true,
        };
        if !clear && play && (appended || m2.state.song is Some) {
            AudioModel { state: StateModel { playing: true, ..m2.state }, ..m2 }
        } else {
            m2
        }
    }
}

/// Effect of `queue_remove_range(start, end, next)`: with a senseless
/// range nothing happens. Else the range leaves the queue; a position
/// after it shifts down by its width; a position inside it restarts at
/// the removal point (keeping its index when `next` plays the song now
/// there), falls back to the queue's front, or finishes with an emptied
/// queue.
pub open spec fn spec_remove_range(
    m: AudioModel,
    start: usize,
    end: usize,
    next: bool,
    c: Collection,
) -> AudioModel {
    let len = m.state.queue.len();
    if !(start < end && start < len && end <= len) {
        m
    } else {
        let q = m.state.queue.subrange(0, start as int) + m.state.queue.subrange(
            end as int,
            len as int,
        );
        let m1 = AudioModel { state: StateModel { queue: q, ..m.state }, ..m };
        match m.state.queue_idx {
            None => m1,
            Some(i) => {
                if start <= i < end {
                    if start == 0 && len > end {
                        let mi = AudioModel {
                            state: StateModel { queue_idx: Some(0usize), ..m1.state },
                            ..m1
                        };
                        if next {
                            spec_set(mi, q[0], c)
                        } else {
                            mi
                        }
                    } else if next && i == start && start < q.len() {
                        spec_set(m1, q[start as int], c)
                    } else if q.len() > 0 {
                        let mi = AudioModel {
                            state: StateModel { queue_idx: Some(0usize), ..m1.state },
                            ..m1
                        };
                        if next {
                            spec_set(mi, q[0], c)
                        } else {
                            mi
                        }
                    } else {
                        AudioModel {
                            state: spec_finish(m1.state),
                            current: false,
                            pending_seek: m1.pending_seek,
                        }
                    }
                } else if i >= end {
                    AudioModel {
                        state: StateModel { queue_idx: Some((i - (end - start)) as usize), ..m1.state },
                        ..m1
                    }
                } else {
                    m1
                }
            },
        }
    }
}

/// Effect of restoring a saved state at boot: the state is installed
/// wholesale; a saved song is loaded again and, past second zero, a
/// pending absolute seek brings its clock back.
pub open spec fn spec_restore(m: AudioModel, saved: StateModel, c: Collection) -> AudioModel {
    let base = AudioModel { state: saved, current: m.current, pending_seek: m.pending_seek };
    match saved.song {
        None => base,
        Some(k) => {
            let m1 = spec_set(base, k, c);
            if saved.elapsed > 0 {
                spec_seek(m1, Seek::Absolute, saved.elapsed as u64, c)
            } else {
                m1
            }
        },
    }
}

/// Effect of the decode loop applying the pending seek: the clock moves
/// there, clamped to the runtime; the pending seek is consumed. Without
/// one, nothing changes.
pub open spec fn spec_apply_seek(m: AudioModel) -> AudioModel {
    match m.pending_seek {
        None => m,
        Some(s) => {
            let e: u32 = if s > m.state.runtime {
                m.state.runtime
            } else {
                s as u32
            };
            AudioModel {
                state: StateModel { elapsed: e, ..m.state },
                current: m.current,
                pending_seek: None,
            }
        },
    }
}

/// Effect of the decode loop observing a new packet timestamp: the clock
/// becomes the given second, clamped to the runtime.
pub open spec fn spec_tick(m: AudioModel, seconds: u64) -> AudioModel {
    let e: u32 = if seconds > m.state.runtime {
        m.state.runtime
    } else {
        seconds as u32
    };
    AudioModel { state: StateModel { elapsed: e, ..m.state }, ..m }
}

/// Effect of every deterministic command; `Shuffle` is random and stated
/// on [`Audio::shuffle`] itself, so here it changes nothing.
pub open spec fn spec_apply(m: AudioModel, cmd: Command, atomic: u32, c: Collection) -> AudioModel {
    match cmd {
        Command::Toggle => spec_toggle(m),
        Command::Play => spec_play(m),
        Command::Pause => spec_pause(m),
        Command::Next => spec_skip(m, 1, c),
        Command::Previous(t) => spec_back(m, 1, t, atomic, c),
        Command::Repeat(r) => spec_repeat(m, r),
        Command::Volume(v) => spec_volume(m, v),
        Command::QueueAddSong(k, ap, cl, pl) => spec_add(m, seq![k], ap, cl, pl, 0, c),
        Command::QueueAddAlbum(k, ap, cl, pl, off) => spec_add(
            m,
            c.albums@[k.0 as int].songs@,
            ap,
            cl,
            pl,
            off,
            c,
        ),
        Command::QueueAddArtist(k, ap, cl, pl, off) => spec_add(
            m,
            c.artists@[k.0 as int].songs@,
            ap,
            cl,
            pl,
            off,
            c,
        ),
        Command::QueueAddPlaylist(keys, ap, cl, pl, off) => spec_add(m, keys@, ap, cl, pl, off, c),
        Command::Shuffle => m,
        Command::Clear(keep) => spec_clear(m, keep),
        Command::Seek(sk, t) => spec_seek(m, sk, t, c),
        Command::Skip(n) => spec_skip(m, n, c),
        Command::Back(n) => spec_back(m, n, Some(0), atomic, c),
        Command::QueueSetIndex(i) => spec_set_index(m, i, c),
        Command::QueueRemoveRange(s, e, nx) => spec_remove_range(m, s, e, nx, c),
    }
}

/// The second a packet timestamp names under a timebase of
/// `numer / denom` seconds per timestamp unit: the decode loop updates
/// the clock whenever this value changes.
pub fn timebase_seconds(numer: u32, denom: u32, ts: u64) -> (r: u64)
    requires
        denom != 0,
        (ts as int) * (numer as int) / (denom as int) <= u64::MAX,
    ensures
        r == (ts as int) * (numer as int) / (denom as int),
{
    proof {
        assert((ts as int) * (numer as int) <= 0xFFFFFFFFFFFFFFFF * 0xFFFFFFFF)
            by (nonlinear_arith)
            requires
                0 <= ts as int <= 0xFFFFFFFFFFFFFFFF,
                0 <= numer as int <= 0xFFFFFFFF,
        ;
    }
    let prod: u128 = (ts as u128) * (numer as u128);
    let q: u128 = prod / (denom as u128);
    q as u64
}

//------------------------------------------------------- executable engine

impl Audio {
    /// A fresh engine around the given boot state: no reader, no pending seek.
    pub fn new(state: AudioState) -> (r: Audio)
        ensures
            r@.state == state@,
            !r@.current,
            r@.pending_seek is None,
    {
        Audio { state, current: false, pending_seek: None }
    }

    /// Load the song under `key`: reset the clock, take the runtime from
    /// the catalog, mark a reader loaded. The caller opens the real file.
    fn set_song(&mut self, key: SongKey, c: &Collection)
        requires
            key.0 < c.songs@.len(),
        ensures
            final(self)@ == spec_set(old(self)@, key, *c),
    {
        self.state.song = Some(key);
        self.state.elapsed = 0;
        self.state.runtime = c.songs[key.0].runtime;
        self.current = true;
    }

    /// Wrap to the front of the queue under a repeat mode.
    fn wrap(&mut self, c: &Collection)
        requires
            keys_valid(old(self)@.state, *c),
        ensures
            final(self)@ == spec_wrap(old(self)@, *c),
    {
        if self.state.queue.len() > 0 {
            let key = self.state.queue[0];
            self.set_song(key, c);
            self.state.queue_idx = Some(0);
        }
        if self.state.repeat == Repeat::QueuePause {
            self.state.playing = false;
        }
    }

    /// Flip between playing and paused; nothing happens without a reader.
    pub fn toggle(&mut self)
        ensures
            final(self)@ == spec_toggle(old(self)@),
    {
        if self.current {
            self.state.playing = !self.state.playing;
        }
    }

    /// Start playback; nothing happens without a reader.
    pub fn play(&mut self)
        ensures
            final(self)@ == spec_play(old(self)@),
    {
        if self.current {
            self.state.playing = true;
        }
    }

    /// Pause playback; nothing happens without a reader.
    pub fn pause(&mut self)
        ensures
            final(self)@ == spec_pause(old(self)@),
    {
        if self.current {
            self.state.playing = false;
        }
    }

    /// Set the repeat mode.
    pub fn repeat(&mut self, r: Repeat)
        ensures
            final(self)@ == spec_repeat(old(self)@, r),
    {
        self.state.repeat = r;
    }

    /// Set the volume, clamped into `0..=100`. Returns the value stored,
    /// for the caller to publish to the process-wide mirror.
    pub fn volume(&mut self, v: Volume) -> (r: u8)
        ensures
            final(self)@ == spec_volume(old(self)@, v),
            r == final(self)@.state.volume.0,
            r == Volume::spec_clamp(v.0),
    {
        let vv = v.check();
        self.state.volume = vv;
        vv.inner()
    }

    /// Empty the queue. When not keeping playback, the loaded song, the
    /// queue position, the clock, the reader and any pending seek go too.
    pub fn clear(&mut self, keep_playing: bool)
        ensures
            final(self)@ == spec_clear(old(self)@, keep_playing),
    {
        self.state.queue.clear();
        self.state.playing = keep_playing;
        if !keep_playing {
            self.state.finish();
            self.pending_seek = None;
            self.current = false;
        }
    }

    /// Advance `n` queue positions: move within the queue while it
    /// lasts; wrap under a repeat mode; otherwise finish.
    pub fn skip(&mut self, n: usize, c: &Collection)
        requires
            keys_valid(old(self)@.state, *c),
        ensures
            final(self)@ == spec_skip(old(self)@, n, *c),
    {
        if n == 0 {
            return ;
        }
        if self.state.repeat == Repeat::Song {
            if let Some(key) = self.state.song {
                self.set_song(key, c);
            }
            return ;
        }
        match self.state.queue_idx {
            Some(i) => {
                let len = self.state.queue.len();
                let over = match i.checked_add(n) {
                    Some(new) => {
                        if new < len {
                            let key = self.state.queue[new];
                            self.set_song(key, c);
                            self.state.queue_idx = Some(new);
                            false
                        } else {
                            true
                        }
                    },
                    None => true,
                };
                if over {
                    if self.state.repeat == Repeat::Queue || self.state.repeat
                        == Repeat::QueuePause {
                        self.wrap(c);
                    } else {
                        self.state.finish();
                        self.current = false;
                    }
                }
            },
            None => {
                if n == 1 {
                    if self.state.repeat == Repeat::Queue || self.state.repeat
                        == Repeat::QueuePause {
                        self.wrap(c);
                    } else {
                        self.state.finish();
                        self.current = false;
                    }
                }
            },
        }
    }

    /// Seek within the current song: past its end the queue advances,
    /// else the seek is left pending for the decode loop.
    pub fn seek(&mut self, seek: Seek, time: u64, c: &Collection)
        requires
            keys_valid(old(self)@.state, *c),
        ensures
            final(self)@ == spec_seek(old(self)@, seek, time, *c),
    {
        if !self.current {
            return ;
        }
        match seek {
            Seek::Forward => {
                let mut over = true;
                match time.checked_add(self.state.elapsed as u64) {
                    Some(secs) => {
                        if secs <= self.state.runtime as u64 {
                            self.pending_seek = Some(secs);
                            over = false;
                        }
                    },
                    None => {},
                }
                if over {
                    self.skip(1, c);
                }
            },
            Seek::Backward => {
                let elapsed = self.state.elapsed as u64;
                let secs: u64 = if time > elapsed {
                    0
                } else {
                    elapsed - time
                };
                self.pending_seek = Some(secs);
            },
            Seek::Absolute => {
                if time > self.state.runtime as u64 {
                    self.skip(1, c);
                } else {
                    self.pending_seek = Some(time);
                }
            },
        }
    }

    /// Go back `n` queue positions: before the queue's start the first
    /// song plays; past the threshold the current song restarts instead.
    pub fn back(&mut self, n: usize, threshold: Option<u32>, atomic: u32, c: &Collection)
        requires
            keys_valid(old(self)@.state, *c),
        ensures
            final(self)@ == spec_back(old(self)@, n, threshold, atomic, *c),
    {
        if self.state.queue.len() == 0 {
            return ;
        }
        match self.state.queue_idx {
            None => {},
            Some(i) => {
                if i < n {
                    let key = self.state.queue[0];
                    self.set_song(key, c);
                    self.state.queue_idx = Some(0);
                } else {
                    let t = match threshold {
                        Some(t) => t,
                        None => atomic,
                    };
                    if t != 0 && self.state.elapsed > t {
                        self.seek(Seek::Absolute, 0, c);
                    } else {
                        let new = i - n;
                        if new < self.state.queue.len() {
                            let key = self.state.queue[new];
                            self.set_song(key, c);
                            self.state.queue_idx = Some(new);
                        }
                    }
                }
            },
        }
    }

    /// Add `keys` to the queue under the given placement; shared body of
    /// the four queue additions.
    fn add_keys(
        &mut self,
        keys: &Vec<SongKey>,
        append: Append,
        clear: bool,
        play: bool,
        offset: usize,
        c: &Collection,
    )
        requires
            keys@.len() > 0,
            forall|i: int| 0 <= i < keys@.len() ==> (#[trigger] keys@[i]).0 < c.songs@.len(),
        ensures
            final(self)@ == spec_add(old(self)@, keys@, append, clear, play, offset, *c),
    {
        if clear {
            self.clear(play);
        }
        let offset: usize = if offset >= keys.len() {
            0
        } else {
            offset
        };
        let ghost m1 = self@;
        let mut appended = true;
        match append {
            Append::Back => {
                let base = self.state.queue.len();
                let mut i: usize = 0;
                while i < keys.len()
                    invariant
                        i <= keys@.len(),
                        self@.state.queue == m1.state.queue + keys@.subrange(0, i as int),
                        self@ == (AudioModel {
                            state: StateModel { queue: self@.state.queue, ..m1.state },
                            ..m1
                        }),
                    decreases keys@.len() - i,
                {
                    self.state.queue.push_back(keys[i]);
                    i = i + 1;
                }
                proof {
                    assert(self@.state.queue =~= m1.state.queue + keys@);
                }
                if !self.current {
                    let total = self.state.queue.len();
                    proof {
                        assert(base + offset < total);
                    }
                    let pos = base + offset;
                    self.state.queue_idx = Some(pos);
                    self.set_song(keys[offset], c);
                    proof {
                        assert(self@.state.queue[pos as int] == keys@[offset as int]);
                    }
                }
            },
            Append::Front => {
                let mut i: usize = keys.len();
                while i > 0
                    invariant
                        i <= keys@.len(),
                        self@.state.queue == keys@.subrange(i as int, keys@.len() as int)
                            + m1.state.queue,
                        self@ == (AudioModel {
                            state: StateModel { queue: self@.state.queue, ..m1.state },
                            ..m1
                        }),
                    decreases i,
                {
                    i = i - 1;
                    self.state.queue.push_front(keys[i]);
                    proof {
                        assert(self@.state.queue =~= keys@.subrange(i as int, keys@.len() as int)
                            + m1.state.queue);
                    }
                }
                proof {
                    assert(self@.state.queue =~= keys@ + m1.state.queue);
                }
                self.state.queue_idx = Some(offset);
                self.set_song(keys[offset], c);
                proof {
                    assert(self@.state.queue[offset as int] == keys@[offset as int]);
                }
            },
            Append::Index(at) => {
                let qlen_e = self.state.queue.len();
                if at <= qlen_e {
                    let ghost qlen = m1.state.queue.len();
                    let mut tail = self.state.queue.split_off(at);
                    let mut i: usize = 0;
                    while i < keys.len()
                        invariant
                            i <= keys@.len(),
                            self@.state.queue == m1.state.queue.subrange(0, at as int)
                                + keys@.subrange(0, i as int),
                            tail@ == m1.state.queue.subrange(at as int, qlen as int),
                            self@ == (AudioModel {
                                state: StateModel { queue: self@.state.queue, ..m1.state },
                                ..m1
                            }),
                        decreases keys@.len() - i,
                    {
                        self.state.queue.push_back(keys[i]);
                        i = i + 1;
                    }
                    self.state.queue.append(&mut tail);
                    proof {
                        assert(self@.state.queue =~= m1.state.queue.subrange(0, at as int) + keys@
                            + m1.state.queue.subrange(at as int, qlen as int));
                    }
                    if at == 0 {
                        self.state.queue_idx = Some(offset);
                        self.set_song(keys[offset], c);
                        proof {
                            assert(self@.state.queue[offset as int] == keys@[offset as int]);
                        }
                    } else {
                        match self.state.queue_idx {
                            Some(i) => {
                                if at <= i && i < qlen_e {
                                    let total = self.state.queue.len();
                                    proof {
                                        assert(i + keys@.len() < total);
                                    }
                                    self.state.queue_idx = Some(i + keys.len());
                                }
                            },
                            None => {},
                        }
                    }
                } else {
                    appended = false;
                }
            },
        }
        if !clear && play {
            if appended || self.state.song.is_some() {
                self.state.playing = true;
            }
        }
    }

    /// Add one song to the queue.
    pub fn queue_add_song(&mut self, key: SongKey, append: Append, clear: bool, play: bool, c: &Collection)
        requires
            key.0 < c.songs@.len(),
        ensures
            final(self)@ == spec_add(old(self)@, seq![key], append, clear, play, 0, *c),
    {
        let keys: Vec<SongKey> = vec![key];
        proof {
            assert(keys@ =~= seq![key]);
        }
        self.add_keys(&keys, append, clear, play, 0, c);
    }

    /// Add all songs of an album to the queue; `offset` picks the song
    /// that starts playing.
    pub fn queue_add_album(
        &mut self,
        key: AlbumKey,
        append: Append,
        clear: bool,
        play: bool,
        offset: usize,
        c: &Collection,
    )
        requires
            c.wf(),
            key.0 < c.albums@.len(),
        ensures
            final(self)@ == spec_add(
                old(self)@,
                c.albums@[key.0 as int].songs@,
                append,
                clear,
                play,
                offset,
                *c,
            ),
    {
        let keys = self.collection_album_keys(key, c);
        proof {
            assert(c.albums@[key.0 as int].songs@.len() >= 1);
        }
        self.add_keys(&keys, append, clear, play, offset, c);
    }

    /// Add every song by an artist to the queue; `offset` picks the song
    /// that starts playing.
    pub fn queue_add_artist(
        &mut self,
        key: ArtistKey,
        append: Append,
        clear: bool,
        play: bool,
        offset: usize,
        c: &Collection,
    )
        requires
            c.wf(),
            key.0 < c.artists@.len(),
        ensures
            final(self)@ == spec_add(
                old(self)@,
                c.artists@[key.0 as int].songs@,
                append,
                clear,
                play,
                offset,
                *c,
            ),
    {
        let keys = c.all_songs(key);
        proof {
            assert(c.artists@[key.0 as int].songs@.len() >= 1);
        }
        self.add_keys(&keys, append, clear, play, offset, c);
    }

    /// Add already-resolved playlist songs to the queue; an empty
    /// playlist does nothing at all.
    pub fn queue_add_playlist(
        &mut self,
        keys: &Vec<SongKey>,
        append: Append,
        clear: bool,
        play: bool,
        offset: usize,
        c: &Collection,
    )
        requires
            forall|i: int| 0 <= i < keys@.len() ==> (#[trigger] keys@[i]).0 < c.songs@.len(),
        ensures
            final(self)@ == spec_add(old(self)@, keys@, append, clear, play, offset, *c),
    {
        if keys.len() == 0 {
            return ;
        }
        self.add_keys(keys, append, clear, play, offset, c);
    }

    /// Remove queue positions `start..end`. A senseless range (empty, or
    /// reaching past the queue) changes nothing. The queue position is
    /// remapped so it keeps naming the same song where that song survives.
    pub fn queue_remove_range(&mut self, start: usize, end: usize, next: bool, c: &Collection)
        requires
            keys_valid(old(self)@.state, *c),
        ensures
            final(self)@ == spec_remove_range(old(self)@, start, end, next, *c),
    {
        let len = self.state.queue.len();
        if !(start < end && start < len && end <= len) {
            return ;
        }
        let ghost m0 = self@;
        let mut tail = self.state.queue.split_off(end);
        let _ = self.state.queue.split_off(start);
        self.state.queue.append(&mut tail);
        proof {
            assert(self@.state.queue =~= m0.state.queue.subrange(0, start as int)
                + m0.state.queue.subrange(end as int, len as int));
        }
        match self.state.queue_idx {
            Some(index) => {
                if start <= index && index < end {
                    if start == 0 && len > end {
                        self.state.queue_idx = Some(0);
                        if next {
                            let key = self.state.queue[0];
                            self.set_song(key, c);
                        }
                    } else if next && index == start && start < self.state.queue.len() {
                        let key = self.state.queue[start];
                        self.set_song(key, c);
                    } else if self.state.queue.len() > 0 {
                        self.state.queue_idx = Some(0);
                        if next {
                            let key = self.state.queue[0];
                            self.set_song(key, c);
                        }
                    } else {
                        self.state.finish();
                        self.current = false;
                    }
                } else if index >= end {
                    self.state.queue_idx = Some(index - (end - start));
                }
            },
            None => {},
        }
    }

    /// Permute the queue uniformly at random, move to its front and load
    /// the song there. The songs are kept: only their order changes.
    pub fn shuffle(&mut self, rng: &mut rand::rngs::SmallRng, c: &Collection)
        requires
            keys_valid(old(self)@.state, *c),
        ensures
            old(self)@.state.queue.len() == 0 ==> final(self)@ == old(self)@,
            old(self)@.state.queue.len() > 0 ==> {
                &&& final(self)@.state.queue.to_multiset()
                    == old(self)@.state.queue.to_multiset()
                &&& final(self)@.state.queue.len() == old(self)@.state.queue.len()
                &&& final(self)@ == spec_advance(
                    AudioModel {
                        state: StateModel { queue: final(self)@.state.queue, ..old(self)@.state },
                        ..old(self)@
                    },
                    0,
                    *c,
                )
            },
    {
        broadcast use vstd::seq_lib::group_to_multiset_ensures;
        broadcast use vstd::multiset::group_multiset_axioms;

        if self.state.queue.len() == 0 {
            return ;
        }
        let ghost m0 = self@;
        let mut rest: Vec<SongKey> = Vec::new();
        while self.state.queue.len() > 0
            invariant
                rest@ + self@.state.queue == m0.state.queue,
                self@ == (AudioModel {
                    state: StateModel { queue: self@.state.queue, ..m0.state },
                    ..m0
                }),
            decreases self@.state.queue.len(),
        {
            let ghost before = rest@ + self@.state.queue;
            match self.state.queue.pop_front() {
                Some(k) => {
                    rest.push(k);
                    proof {
                        assert(rest@ + self@.state.queue =~= before);
                    }
                },
                None => {},
            }
        }
        proof {
            assert(rest@ =~= m0.state.queue);
        }
        let ghost whole = m0.state.queue.to_multiset();
        proof {
            assert(rest@.to_multiset().add(self@.state.queue.to_multiset()) =~= whole) by {
                rest@.to_multiset_ensures();
                self@.state.queue.to_multiset_ensures();
                assert(self@.state.queue =~= Seq::<SongKey>::empty());
                assert(self@.state.queue.to_multiset() =~= Multiset::<SongKey>::empty());
            }
        }
        while rest.len() > 0
            invariant
                rest@.to_multiset().add(self@.state.queue.to_multiset()) =~= whole,
                rest@.len() + self@.state.queue.len() == m0.state.queue.len(),
                forall|i: int|
                    0 <= i < rest@.len() ==> (#[trigger] rest@[i]).0 < c.songs@.len(),
                forall|i: int|
                    0 <= i < self@.state.queue.len() ==> (#[trigger] self@.state.queue[i]).0
                        < c.songs@.len(),
                self@ == (AudioModel {
                    state: StateModel { queue: self@.state.queue, ..m0.state },
                    ..m0
                }),
            decreases rest@.len(),
        {
            let j = rng_below(rng, rest.len());
            let ghost rest0 = rest@;
            let ghost queue0 = self@.state.queue;
            let k = rest.remove(j);
            self.state.queue.push_back(k);
            proof {
                rest0.to_multiset_ensures();
                queue0.to_multiset_ensures();
                assert(rest0[j as int] == k);
                assert(rest0.contains(k));
                assert(rest0.to_multiset().count(k) >= 1);
                assert(rest@ == rest0.remove(j as int));
                assert(rest0.remove(j as int).to_multiset() =~= rest0.to_multiset().remove(k));
                assert(self@.state.queue == queue0.push(k));
                assert(queue0.push(k).to_multiset() =~= queue0.to_multiset().insert(k));
                assert(rest@.to_multiset().add(self@.state.queue.to_multiset()) =~= whole);
            }
        }
        proof {
            assert(self@.state.queue.to_multiset() =~= whole) by {
                assert(rest@.to_multiset() =~= Multiset::<SongKey>::empty());
            }
            assert(self@.state.queue.len() == m0.state.queue.len()) by {
                self@.state.queue.to_multiset_ensures();
                m0.state.queue.to_multiset_ensures();
            }
        }
        self.state.queue_idx = Some(0);
        let key = self.state.queue[0];
        self.set_song(key, c);
    }

    /// Consume the pending seek and move the clock there, clamped to the
    /// runtime; the decode loop calls this once the reader took the
    /// seek. Returns the seconds consumed, if any.
    pub fn apply_pending_seek(&mut self) -> (r: Option<u64>)
        ensures
            final(self)@ == spec_apply_seek(old(self)@),
            r == old(self)@.pending_seek,
    {
        match self.pending_seek {
            None => None,
            Some(s) => {
                self.pending_seek = None;
                if s > self.state.runtime as u64 {
                    self.state.elapsed = self.state.runtime;
                } else {
                    self.state.elapsed = s as u32;
                }
                Some(s)
            },
        }
    }

    /// Drop the pending seek without moving the clock: the decode loop
    /// calls this when the reader refused the seek.
    pub fn clear_pending_seek(&mut self)
        ensures
            final(self)@ == (AudioModel { pending_seek: None, ..old(self)@ }),
    {
        self.pending_seek = None;
    }

    /// Move the clock to the second a decoded packet's timestamp names,
    /// clamped to the runtime.
    pub fn tick(&mut self, seconds: u64)
        ensures
            final(self)@ == spec_tick(old(self)@, seconds),
    {
        if seconds > self.state.runtime as u64 {
            self.state.elapsed = self.state.runtime;
        } else {
            self.state.elapsed = seconds as u32;
        }
    }

    /// Install a state saved on disk and validated against the catalog:
    /// the saved song is loaded again and, past second zero, a pending
    /// absolute seek brings its clock back. Returns the volume for the
    /// caller to publish to the process-wide mirror.
    pub fn restore_audio_state(&mut self, saved: &AudioState, c: &Collection) -> (r: u8)
        requires
            keys_valid(saved@, *c),
        ensures
            final(self)@ == spec_restore(old(self)@, saved@, *c),
            r == final(self)@.state.volume.0,
    {
        let elapsed = saved.elapsed;
        self.state = saved.duplicate();
        match self.state.song {
            None => {},
            Some(key) => {
                self.set_song(key, c);
                if elapsed > 0 {
                    self.seek(Seek::Absolute, elapsed as u64, c);
                }
            },
        }
        self.state.volume.inner()
    }

    /// Dispatch one command. Every deterministic command lands exactly on
    /// its spec transition; `Shuffle` keeps the queue's songs and starts
    /// at the new front, as [`Audio::shuffle`] states.
    pub fn apply(
        &mut self,
        cmd: Command,
        atomic: u32,
        rng: &mut rand::rngs::SmallRng,
        c: &Collection,
    )
        requires
            c.wf(),
            keys_valid(old(self)@.state, *c),
            cmd_valid(cmd, *c),
        ensures
            !(cmd is Shuffle) ==> final(self)@ == spec_apply(old(self)@, cmd, atomic, *c),
            cmd is Shuffle && old(self)@.state.queue.len() == 0 ==> final(self)@ == old(self)@,
            cmd is Shuffle && old(self)@.state.queue.len() > 0 ==> {
                &&& final(self)@.state.queue.to_multiset()
                    == old(self)@.state.queue.to_multiset()
                &&& final(self)@.state.queue.len() == old(self)@.state.queue.len()
                &&& final(self)@ == spec_advance(
                    AudioModel {
                        state: StateModel { queue: final(self)@.state.queue, ..old(self)@.state },
                        ..old(self)@
                    },
                    0,
                    *c,
                )
            },
    {
        match cmd {
            Command::Toggle => self.toggle(),
            Command::Play => self.play(),
            Command::Pause => self.pause(),
            Command::Next => self.skip(1, c),
            Command::Previous(t) => self.back(1, t, atomic, c),
            Command::Repeat(r) => self.repeat(r),
            Command::Volume(v) => {
                let _ = self.volume(v);
            },
            Command::QueueAddSong(k, ap, cl, pl) => self.queue_add_song(k, ap, cl, pl, c),
            Command::QueueAddAlbum(k, ap, cl, pl, off) => self.queue_add_album(
                k,
                ap,
                cl,
                pl,
                off,
                c,
            ),
            Command::QueueAddArtist(k, ap, cl, pl, off) => self.queue_add_artist(
                k,
                ap,
                cl,
                pl,
                off,
                c,
            ),
            Command::QueueAddPlaylist(keys, ap, cl, pl, off) => self.queue_add_playlist(
                &keys,
                ap,
                cl,
                pl,
                off,
                c,
            ),
            Command::Shuffle => self.shuffle(rng, c),
            Command::Clear(keep) => self.clear(keep),
            Command::Seek(sk, t) => self.seek(sk, t, c),
            Command::Skip(n) => self.skip(n, c),
            Command::Back(n) => self.back(n, Some(0), atomic, c),
            Command::QueueSetIndex(i) => self.queue_set_index(i, c),
            Command::QueueRemoveRange(s, e, nx) => self.queue_remove_range(s, e, nx, c),
        }
    }

    /// A copy of an album's song keys.
    fn collection_album_keys(&self, key: AlbumKey, c: &Collection) -> (r: Vec<SongKey>)
        requires
            key.0 < c.albums@.len(),
        ensures
            r@ == c.albums@[key.0 as int].songs@,
    {
        c.albums[key.0].songs.clone()
    }

    /// Jump to queue position `index`; out of range, playback finishes.
    pub fn queue_set_index(&mut self, index: usize, c: &Collection)
        requires
            keys_valid(old(self)@.state, *c),
        ensures
            final(self)@ == spec_set_index(old(self)@, index, *c),
    {
        if index < self.state.queue.len() {
            let key = self.state.queue[index];
            self.set_song(key, c);
            self.state.queue_idx = Some(index);
        } else {
            self.state.finish();
            self.current = false;
        }
    }
}

/// The keys a command hands to the engine index existing catalog entries.
pub open spec fn cmd_valid(cmd: Command, c: Collection) -> bool {
    match cmd {
        Command::QueueAddSong(k, _, _, _) => k.0 < c.songs@.len(),
        Command::QueueAddAlbum(k, _, _, _, _) => k.0 < c.albums@.len(),
        Command::QueueAddArtist(k, _, _, _, _) => k.0 < c.artists@.len(),
        Command::QueueAddPlaylist(keys, _, _, _, _) => forall|i: int|
            0 <= i < keys@.len() ==> (#[trigger] keys@[i]).0 < c.songs@.len(),
        _ => true,
    }
}

} // verus!
