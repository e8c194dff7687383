//! Laws of the engine's transitions: the state invariants survive every
//! command (outside the few named inputs whose described behaviour keeps
//! the loaded song while emptying or thinning the queue around it),
//! skipping forward and back are inverse, and removing a queue range
//! only shifts positions.

use vstd::prelude::*;
use crate::collection::Collection;
use crate::engine::{
    audio_inv, cmd_valid, spec_add, spec_advance, spec_apply, spec_apply_seek, spec_back,
    spec_clear, spec_remove_range, spec_restore, spec_seek, spec_set, spec_set_index, spec_skip,
    spec_stop, spec_tick, spec_volume, spec_wrap, AudioModel, Command,
};
use crate::collection::SongKey;
use crate::state::{keys_valid, state_inv, Append, Repeat, Seek, StateModel, Volume, VOLUME_MAX};

verus! {

/// The removals after which the queue position still names the loaded
/// song: the position lies outside the removed range, or playback moves
/// on to a remaining song (`next`), or nothing remains at all.
pub open spec fn remove_keeps_integrity(
    m: AudioModel,
    start: usize,
    end: usize,
    next: bool,
) -> bool {
    let len = m.state.queue.len();
    if !(start < end && start < len && end <= len) {
        true
    } else {
        match m.state.queue_idx {
            None => (end - start < len) || (m.state.song is None && !m.state.playing),
            Some(i) => {
                ||| i < start
                ||| i >= end
                ||| next
                ||| end - start == len
            },
        }
    }
}

/// The commands whose effect keeps the state invariants, from any valid
/// state. Left out: `Clear(true)` and the clear-and-play additions,
/// which empty the queue around the kept song and position; and the
/// removals named above.
pub open spec fn cmd_keeps_integrity(cmd: Command, m: AudioModel) -> bool {
    match cmd {
        Command::Clear(keep) => !keep,
        Command::QueueAddSong(_, _, cl, pl) => !(cl && pl),
        Command::QueueAddAlbum(_, _, cl, pl, _) => !(cl && pl),
        Command::QueueAddArtist(_, _, cl, pl, _) => !(cl && pl),
        Command::QueueAddPlaylist(_, _, cl, pl, _) => !(cl && pl),
        Command::QueueRemoveRange(s, e, nx) => remove_keeps_integrity(m, s, e, nx),
        _ => true,
    }
}

/// Machine limit: the queue as grown by the command still fits a word.
pub open spec fn cmd_fits(cmd: Command, m: AudioModel, c: Collection) -> bool {
    match cmd {
        Command::QueueAddSong(_, _, _, _) => m.state.queue.len() + 1 <= usize::MAX,
        Command::QueueAddAlbum(k, _, _, _, _) => m.state.queue.len()
            + c.albums@[k.0 as int].songs@.len() <= usize::MAX,
        Command::QueueAddArtist(k, _, _, _, _) => m.state.queue.len()
            + c.artists@[k.0 as int].songs@.len() <= usize::MAX,
        Command::QueueAddPlaylist(keys, _, _, _, _) => m.state.queue.len() + keys@.len()
            <= usize::MAX,
        _ => true,
    }
}

/// Loading a valid song keeps the invariants wherever the position
/// already named it or no position is set.
proof fn lemma_set_inv(m: AudioModel, key: SongKey, c: Collection)
    requires
        audio_inv(m, c),
        key.0 < c.songs@.len(),
        m.state.queue_idx matches Some(i) ==> m.state.queue[i as int] == key,
        m.state.queue.len() > 0,
    ensures
        audio_inv(spec_set(m, key, c), c),
{
}

/// Moving to a queue position keeps the invariants; only the key
/// validity and the volume bound are needed of the starting state.
proof fn lemma_advance_inv(m: AudioModel, new: usize, c: Collection)
    requires
        keys_valid(m.state, c),
        m.state.volume.0 <= VOLUME_MAX,
        new < m.state.queue.len(),
    ensures
        audio_inv(spec_advance(m, new, c), c),
{
}

/// Wrapping under a repeat mode keeps the invariants.
proof fn lemma_wrap_inv(m: AudioModel, c: Collection)
    requires
        audio_inv(m, c),
    ensures
        audio_inv(spec_wrap(m, c), c),
{
    if m.state.queue.len() > 0 {
        lemma_advance_inv(m, 0, c);
    }
}

/// Finishing playback keeps the invariants.
proof fn lemma_stop_inv(m: AudioModel, c: Collection)
    requires
        audio_inv(m, c),
    ensures
        audio_inv(spec_stop(m), c),
{
}

/// `skip` keeps the invariants.
pub proof fn lemma_skip_inv(m: AudioModel, n: usize, c: Collection)
    requires
        audio_inv(m, c),
    ensures
        audio_inv(spec_skip(m, n, c), c),
{
    if n == 0 {
    } else if m.state.repeat == Repeat::Song {
        match m.state.song {
            Some(k) => lemma_set_inv(m, k, c),
            None => {},
        }
    } else {
        match m.state.queue_idx {
            Some(i) => {
                if i + n < m.state.queue.len() {
                    lemma_advance_inv(m, (i + n) as usize, c);
                } else if m.state.repeat == Repeat::Queue || m.state.repeat
                    == Repeat::QueuePause {
                    lemma_wrap_inv(m, c);
                } else {
                    lemma_stop_inv(m, c);
                }
            },
            None => {
                if n == 1 {
                    if m.state.repeat == Repeat::Queue || m.state.repeat == Repeat::QueuePause {
                        lemma_wrap_inv(m, c);
                    } else {
                        lemma_stop_inv(m, c);
                    }
                }
            },
        }
    }
}

/// `seek` keeps the invariants.
pub proof fn lemma_seek_inv(m: AudioModel, seek: Seek, time: u64, c: Collection)
    requires
        audio_inv(m, c),
    ensures
        audio_inv(spec_seek(m, seek, time, c), c),
{
    if m.current {
        match seek {
            Seek::Forward => {
                if time + m.state.elapsed > m.state.runtime {
                    lemma_skip_inv(m, 1, c);
                }
            },
            Seek::Backward => {},
            Seek::Absolute => {
                if time > m.state.runtime {
                    lemma_skip_inv(m, 1, c);
                }
            },
        }
    }
}

/// `back` keeps the invariants.
pub proof fn lemma_back_inv(
    m: AudioModel,
    n: usize,
    threshold: Option<u32>,
    atomic: u32,
    c: Collection,
)
    requires
        audio_inv(m, c),
    ensures
        audio_inv(spec_back(m, n, threshold, atomic, c), c),
{
    if m.state.queue.len() > 0 {
        match m.state.queue_idx {
            None => {},
            Some(i) => {
                if i < n {
                    lemma_advance_inv(m, 0, c);
                } else {
                    let t = match threshold {
                        Some(t) => t,
                        None => atomic,
                    };
                    if t != 0 && m.state.elapsed > t {
                        lemma_seek_inv(m, Seek::Absolute, 0, c);
                    } else {
                        if i - n < m.state.queue.len() {
                            lemma_advance_inv(m, (i - n) as usize, c);
                        }
                    }
                }
            },
        }
    }
}

/// Clearing without keeping playback keeps the invariants.
pub proof fn lemma_clear_inv(m: AudioModel, c: Collection)
    requires
        audio_inv(m, c),
    ensures
        audio_inv(spec_clear(m, false), c),
{
}

/// Jumping to a queue position keeps the invariants.
pub proof fn lemma_set_index_inv(m: AudioModel, index: usize, c: Collection)
    requires
        audio_inv(m, c),
    ensures
        audio_inv(spec_set_index(m, index, c), c),
{
    if index < m.state.queue.len() {
        lemma_advance_inv(m, index, c);
    } else {
        lemma_stop_inv(m, c);
    }
}

/// Queue additions keep the invariants, short of clearing while keeping
/// playback; the queue as grown must still fit a word.
pub proof fn lemma_add_inv(
    m: AudioModel,
    keys: Seq<SongKey>,
    append: Append,
    clear: bool,
    play: bool,
    offset: usize,
    c: Collection,
)
    requires
        audio_inv(m, c),
        forall|i: int| 0 <= i < keys.len() ==> (#[trigger] keys[i]).0 < c.songs@.len(),
        !(clear && play),
        m.state.queue.len() + keys.len() <= usize::MAX,
    ensures
        audio_inv(spec_add(m, keys, append, clear, play, offset, c), c),
{
    if keys.len() > 0 {
        let m1 = if clear {
            spec_clear(m, play)
        } else {
            m
        };
        if clear {
            lemma_clear_inv(m, c);
        }
        assert(audio_inv(m1, c));
        let off: usize = if offset >= keys.len() {
            0
        } else {
            offset
        };
        match append {
            Append::Back => {
                let q = m1.state.queue + keys;
                let mq = AudioModel { state: StateModel { queue: q, ..m1.state }, ..m1 };
                assert(keys_valid(mq.state, c)) by {
                    assert(forall|p: int|
                        0 <= p < q.len() ==> (#[trigger] q[p]) == (if p < m1.state.queue.len() {
                            m1.state.queue[p]
                        } else {
                            keys[p - m1.state.queue.len()]
                        }));
                }
                if !m1.current {
                    lemma_advance_inv(mq, (m1.state.queue.len() + off) as usize, c);
                } else {
                    assert(audio_inv(mq, c));
                }
            },
            Append::Front => {
                let q = keys + m1.state.queue;
                let mq = AudioModel { state: StateModel { queue: q, ..m1.state }, ..m1 };
                assert(keys_valid(mq.state, c)) by {
                    assert(forall|p: int|
                        0 <= p < q.len() ==> (#[trigger] q[p]) == (if p < keys.len() {
                            keys[p]
                        } else {
                            m1.state.queue[p - keys.len()]
                        }));
                }
                lemma_advance_inv(mq, off, c);
            },
            Append::Index(at) => {
                if at <= m1.state.queue.len() {
                    let q = m1.state.queue.subrange(0, at as int) + keys
                        + m1.state.queue.subrange(at as int, m1.state.queue.len() as int);
                    let mq = AudioModel { state: StateModel { queue: q, ..m1.state }, ..m1 };
                    assert(keys_valid(mq.state, c)) by {
                        assert(forall|p: int|
                            0 <= p < q.len() ==> (#[trigger] q[p]) == (if p < at {
                                m1.state.queue[p]
                            } else if p < at + keys.len() {
                                keys[p - at]
                            } else {
                                m1.state.queue[p - keys.len()]
                            }));
                    }
                    if at == 0 {
                        lemma_advance_inv(mq, off, c);
                    } else {
                        // A position before the insertion point keeps its
                        // place; one at or after it moves with its song.
                        match m1.state.queue_idx {
                            Some(i) => {
                                if at <= i && i < m1.state.queue.len() {
                                    assert(q[i + keys.len()] == m1.state.queue[i as int]);
                                    assert((i + keys.len()) as usize == i + keys.len());
                                } else {
                                    assert(i < at ==> q[i as int] == m1.state.queue[i as int]);
                                }
                            },
                            None => {},
                        }
                    }
                }
            },
        }
        // A forced play without an append only happens with a loaded
        // song, whose queue is non-empty.
    }
}

/// Queue removals within [`remove_keeps_integrity`] keep the invariants.
pub proof fn lemma_remove_range_inv(
    m: AudioModel,
    start: usize,
    end: usize,
    next: bool,
    c: Collection,
)
    requires
        audio_inv(m, c),
        remove_keeps_integrity(m, start, end, next),
    ensures
        audio_inv(spec_remove_range(m, start, end, next, c), c),
{
    let len = m.state.queue.len();
    if start < end && start < len && end <= len {
        let q = m.state.queue.subrange(0, start as int) + m.state.queue.subrange(
            end as int,
            len as int,
        );
        assert(forall|p: int| 0 <= p < q.len() ==> (#[trigger] q[p]).0 < c.songs@.len()) by {
            assert(forall|p: int|
                0 <= p < q.len() ==> q[p] == (if p < start {
                    m.state.queue[p]
                } else {
                    m.state.queue[p + (end - start)]
                }));
        }
        match m.state.queue_idx {
            None => {},
            Some(i) => {
                if start <= i < end {
                    if start == 0 && len > end {
                        assert(q[0] == m.state.queue[end as int]);
                    } else if next && i == start && start < q.len() {
                        assert(q[start as int] == m.state.queue[start + (end - start)]);
                    } else if q.len() > 0 {
                        assert(q[0] == m.state.queue[0]);
                    }
                } else if i >= end {
                    assert(q[i - (end - start)] == m.state.queue[i as int]);
                }
            },
        }
    }
}

/// Restoring a valid saved state at boot keeps the invariants.
pub proof fn lemma_restore_inv(m: AudioModel, saved: StateModel, c: Collection)
    requires
        audio_inv(m, c),
        state_inv(saved, c),
        !m.current,
    ensures
        audio_inv(spec_restore(m, saved, c), c),
{
    let base = AudioModel { state: saved, current: m.current, pending_seek: m.pending_seek };
    match saved.song {
        None => {},
        Some(k) => {
            lemma_set_inv(base, k, c);
            let m1 = spec_set(base, k, c);
            if saved.elapsed > 0 {
                lemma_seek_inv(m1, Seek::Absolute, saved.elapsed as u64, c);
            }
        },
    }
}

/// Applying the pending seek keeps the invariants: the clock is clamped
/// to the runtime.
pub proof fn lemma_apply_seek_inv(m: AudioModel, c: Collection)
    requires
        audio_inv(m, c),
    ensures
        audio_inv(spec_apply_seek(m), c),
{
}

/// The decode-loop clock update keeps the invariants: the clock is
/// clamped to the runtime.
pub proof fn lemma_tick_inv(m: AudioModel, seconds: u64, c: Collection)
    requires
        audio_inv(m, c),
    ensures
        audio_inv(spec_tick(m, seconds), c),
{
}

/// Queue integrity and clamped elapsed: applying any command within
/// [`cmd_keeps_integrity`] (and, a machine limit, within
/// [`cmd_fits`]) to a valid engine leaves it valid — the queue position
/// names the loaded song and stays in bounds, an empty queue means
/// idle, the clock never passes the runtime, the volume stays a
/// percentage, and every key indexes the catalog.
pub proof fn lemma_apply_preserves_inv(m: AudioModel, cmd: Command, atomic: u32, c: Collection)
    requires
        audio_inv(m, c),
        c.wf(),
        cmd_valid(cmd, c),
        cmd_keeps_integrity(cmd, m),
        cmd_fits(cmd, m, c),
    ensures
        audio_inv(spec_apply(m, cmd, atomic, c), c),
{
    match cmd {
        Command::Toggle => {},
        Command::Play => {},
        Command::Pause => {},
        Command::Next => lemma_skip_inv(m, 1, c),
        Command::Previous(t) => lemma_back_inv(m, 1, t, atomic, c),
        Command::Repeat(r) => {},
        Command::Volume(v) => {},
        Command::QueueAddSong(k, ap, cl, pl) => {
            lemma_add_inv(m, seq![k], ap, cl, pl, 0, c);
        },
        Command::QueueAddAlbum(k, ap, cl, pl, off) => {
            lemma_add_inv(m, c.albums@[k.0 as int].songs@, ap, cl, pl, off, c);
        },
        Command::QueueAddArtist(k, ap, cl, pl, off) => {
            lemma_add_inv(m, c.artists@[k.0 as int].songs@, ap, cl, pl, off, c);
        },
        Command::QueueAddPlaylist(keys, ap, cl, pl, off) => {
            lemma_add_inv(m, keys@, ap, cl, pl, off, c);
        },
        Command::Shuffle => {},
        Command::Clear(keep) => lemma_clear_inv(m, c),
        Command::Seek(sk, t) => lemma_seek_inv(m, sk, t, c),
        Command::Skip(n) => lemma_skip_inv(m, n, c),
        Command::Back(n) => lemma_back_inv(m, n, Some(0), atomic, c),
        Command::QueueSetIndex(i) => lemma_set_index_inv(m, i, c),
        Command::QueueRemoveRange(s, e, nx) => lemma_remove_range_inv(m, s, e, nx, c),
    }
}

/// Skip and back are inverse: from queue position `i`, `skip(k)` then
/// `back(k)` with a zero threshold returns to position `i` and its song,
/// provided `i + k` stays within the queue and repeat is off.
pub proof fn lemma_skip_back_inverse(
    m: AudioModel,
    i: usize,
    k: usize,
    atomic: u32,
    c: Collection,
)
    requires
        audio_inv(m, c),
        m.state.repeat == Repeat::Off,
        m.state.queue_idx == Some(i),
        i + k < m.state.queue.len(),
        m.state.queue.len() <= usize::MAX,
    ensures
        spec_back(spec_skip(m, k, c), k, Some(0), atomic, c).state.queue_idx == Some(i),
        spec_back(spec_skip(m, k, c), k, Some(0), atomic, c).state.song == Some(
            m.state.queue[i as int],
        ),
        spec_back(spec_skip(m, k, c), k, Some(0), atomic, c).state.queue == m.state.queue,
{
    let m1 = spec_skip(m, k, c);
    if k == 0 {
        assert(m1 == m);
        assert(spec_back(m1, k, Some(0), atomic, c) == spec_advance(m1, i, c));
    } else {
        assert(m1 == spec_advance(m, (i + k) as usize, c));
        assert(m1.state.queue == m.state.queue);
        assert(m1.state.queue_idx == Some((i + k) as usize));
        assert(spec_back(m1, k, Some(0), atomic, c) == spec_advance(m1, i, c));
    }
}

/// The fresh boot state is valid against any catalog.
pub proof fn lemma_default_state_inv(c: Collection)
    ensures
        state_inv(crate::state::AudioState::spec_default(), c),
{
}

/// Volume clamp: after `Volume(v)` the stored volume is the clamp of the
/// asked percentage into `0..=100`.
pub proof fn lemma_volume_clamp(m: AudioModel, v: Volume)
    ensures
        spec_volume(m, v).state.volume.0 == Volume::spec_clamp(v.0),
        spec_volume(m, v).state.volume.0 <= 100,
{
}

/// Remove-range index remap: every queue position outside the removed
/// range survives, before the range at its old position, after it
/// shifted down by the range's width.
pub proof fn lemma_remove_range_remap(
    m: AudioModel,
    start: usize,
    end: usize,
    next: bool,
    c: Collection,
    p: int,
)
    requires
        start < end,
        start < m.state.queue.len(),
        end <= m.state.queue.len(),
        0 <= p < m.state.queue.len(),
        p < start || p >= end,
    ensures
        spec_remove_range(m, start, end, next, c).state.queue.len() == m.state.queue.len() - (end
            - start),
        p < start ==> spec_remove_range(m, start, end, next, c).state.queue[p]
            == m.state.queue[p],
        p >= end ==> spec_remove_range(m, start, end, next, c).state.queue[p - (end - start)]
            == m.state.queue[p],
{
}

} // verus!
