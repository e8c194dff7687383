//! The persisted form of the playback state: a fixed header (magic and
//! version), the scalar fields, then the queue as little-endian words.
//! Encoding and decoding are exact inverses; the file I/O around them
//! lives outside the crate.

use vstd::prelude::*;
use vstd::bytes::{
    spec_u32_from_le_bytes, spec_u32_to_le_bytes, spec_u64_from_le_bytes, spec_u64_to_le_bytes,
    u32_from_le_bytes, u32_to_le_bytes, u64_from_le_bytes, u64_to_le_bytes,
};
use std::collections::VecDeque;
use crate::collection::SongKey;
use crate::state::{AudioState, Repeat, StateModel, Volume, VOLUME_MAX};

verus! {

/// Version byte of the persisted layout.
pub const AUDIO_VERSION: u8 = 1;

/// Bytes before the queue words: four of magic, the version, volume,
/// repeat, playing, elapsed and runtime (four each), the tagged song and
/// queue position (nine each), and the queue length (eight).
pub const HEADER_LEN: usize = 42;

/// Why a byte string is not a persisted playback state.
#[derive(Clone, Copy, Debug, PartialEq, Eq, Structural)]
pub enum LoadError {
    /// The bytes end before the layout does.
    TooShort,
    /// The magic bytes are not ours.
    Magic,
    /// The version byte names a layout this library does not read.
    Version,
    /// A tag or flag byte holds a value outside its range, or a field
    /// that must be zero is not.
    Tag,
    /// A stored count or key does not fit this machine's word.
    Oversize,
    /// Bytes follow the end of the layout.
    Trailing,
}

/// The four magic bytes that open the file.
pub open spec fn spec_magic() -> Seq<u8> {
    seq![0x46u8, 0x53u8, 0x54u8, 0x41u8]
}

/// The byte that stands for a repeat mode.
pub open spec fn repeat_byte(r: Repeat) -> u8 {
    match r {
        Repeat::Off => 0,
        Repeat::Song => 1,
        Repeat::Queue => 2,
        Repeat::QueuePause => 3,
    }
}

/// The byte that stands for a flag.
pub open spec fn bool_byte(b: bool) -> u8 {
    if b {
        1
    } else {
        0
    }
}

/// Tag byte of an optional field.
pub open spec fn opt_tag<T>(o: Option<T>) -> u8 {
    match o {
        Some(_) => 1,
        None => 0,
    }
}

/// Stored word of an optional queue position.
pub open spec fn idx_word(o: Option<usize>) -> u64 {
    match o {
        Some(i) => i as u64,
        None => 0,
    }
}

/// Stored word of an optional song key.
pub open spec fn song_word(o: Option<SongKey>) -> u64 {
    match o {
        Some(k) => k.0 as u64,
        None => 0,
    }
}

/// The queue as consecutive little-endian words.
pub open spec fn spec_queue_bytes(q: Seq<SongKey>) -> Seq<u8>
    decreases q.len(),
{
    if q.len() == 0 {
        Seq::empty()
    } else {
        spec_u64_to_le_bytes(q[0].0 as u64) + spec_queue_bytes(q.drop_first())
    }
}

/// The fixed part of the layout: everything before the queue words.
pub open spec fn spec_header(s: StateModel) -> Seq<u8> {
    spec_magic() + seq![AUDIO_VERSION, s.volume.0, repeat_byte(s.repeat), bool_byte(s.playing)]
        + spec_u32_to_le_bytes(s.elapsed) + spec_u32_to_le_bytes(s.runtime) + seq![
        opt_tag(s.song),
    ] + spec_u64_to_le_bytes(song_word(s.song)) + seq![opt_tag(s.queue_idx)]
        + spec_u64_to_le_bytes(idx_word(s.queue_idx)) + spec_u64_to_le_bytes(
        s.queue.len() as u64,
    )
}

/// The persisted form of a playback state.
pub open spec fn spec_encode(s: StateModel) -> Seq<u8> {
    spec_header(s) + spec_queue_bytes(s.queue)
}

/// Parse of `n` queue words; the bytes must hold them exactly.
pub open spec fn spec_parse_queue(b: Seq<u8>, n: nat) -> Result<Seq<SongKey>, LoadError>
    decreases n,
{
    if n == 0 {
        if b.len() == 0 {
            Ok(Seq::empty())
        } else {
            Err(LoadError::Trailing)
        }
    } else if b.len() < 8 {
        Err(LoadError::TooShort)
    } else {
        let k = spec_u64_from_le_bytes(b.subrange(0, 8));
        if k > usize::MAX as u64 {
            Err(LoadError::Oversize)
        } else {
            match spec_parse_queue(b.skip(8), (n - 1) as nat) {
                Ok(rest) => Ok(seq![SongKey(k as usize)] + rest),
                Err(e) => Err(e),
            }
        }
    }
}

/// Parse of a whole persisted state: on anything [`spec_encode`] wrote
/// it gives that state back, and bytes that depart from the layout give
/// the error naming the departure.
pub open spec fn spec_decode(b: Seq<u8>) -> Result<StateModel, LoadError> {
    if b.len() < HEADER_LEN {
        Err(LoadError::TooShort)
    } else if b.subrange(0, 4) != spec_magic() {
        Err(LoadError::Magic)
    } else if b[4] != AUDIO_VERSION {
        Err(LoadError::Version)
    } else if b[5] > VOLUME_MAX {
        Err(LoadError::Oversize)
    } else if b[6] > 3 {
        Err(LoadError::Tag)
    } else if b[7] > 1 {
        Err(LoadError::Tag)
    } else if b[16] > 1 {
        Err(LoadError::Tag)
    } else if b[16] == 0 && spec_u64_from_le_bytes(b.subrange(17, 25)) != 0 {
        Err(LoadError::Tag)
    } else if b[16] == 1 && spec_u64_from_le_bytes(b.subrange(17, 25)) > usize::MAX as u64 {
        Err(LoadError::Oversize)
    } else if b[25] > 1 {
        Err(LoadError::Tag)
    } else if b[25] == 0 && spec_u64_from_le_bytes(b.subrange(26, 34)) != 0 {
        Err(LoadError::Tag)
    } else if b[25] == 1 && spec_u64_from_le_bytes(b.subrange(26, 34)) > usize::MAX as u64 {
        Err(LoadError::Oversize)
    } else if spec_u64_from_le_bytes(b.subrange(34, 42)) > usize::MAX as u64 {
        Err(LoadError::Oversize)
    } else {
        let n = spec_u64_from_le_bytes(b.subrange(34, 42)) as usize;
        match spec_parse_queue(b.skip(HEADER_LEN as int), n as nat) {
            Err(e) => Err(e),
            Ok(queue) => Ok(
                StateModel {
                    queue,
                    queue_idx: if b[25] == 1 {
                        Some(spec_u64_from_le_bytes(b.subrange(26, 34)) as usize)
                    } else {
                        None
                    },
                    song: if b[16] == 1 {
                        Some(SongKey(spec_u64_from_le_bytes(b.subrange(17, 25)) as usize))
                    } else {
                        None
                    },
                    elapsed: spec_u32_from_le_bytes(b.subrange(8, 12)),
                    runtime: spec_u32_from_le_bytes(b.subrange(12, 16)),
                    playing: b[7] == 1,
                    repeat: if b[6] == 0 {
                        Repeat::Off
                    } else if b[6] == 1 {
                        Repeat::Song
                    } else if b[6] == 2 {
                        Repeat::Queue
                    } else {
                        Repeat::QueuePause
                    },
                    volume: Volume(b[5]),
                },
            ),
        }
    }
}

/// The queue bytes hold eight bytes per key.
pub proof fn lemma_queue_bytes_len(q: Seq<SongKey>)
    ensures
        spec_queue_bytes(q).len() == 8 * q.len(),
    decreases q.len(),
{
    vstd::bytes::lemma_auto_spec_u64_to_from_le_bytes();
    if q.len() > 0 {
        lemma_queue_bytes_len(q.drop_first());
    }
}

/// Parsing the queue bytes gives the queue back.
proof fn lemma_parse_queue_roundtrip(q: Seq<SongKey>)
    ensures
        spec_parse_queue(spec_queue_bytes(q), q.len()) == Ok::<Seq<SongKey>, LoadError>(q),
    decreases q.len(),
{
    vstd::bytes::lemma_auto_spec_u64_to_from_le_bytes();
    if q.len() == 0 {
        assert(spec_queue_bytes(q).len() == 0);
        assert(q =~= Seq::<SongKey>::empty());
    } else {
        let b = spec_queue_bytes(q);
        let w = spec_u64_to_le_bytes(q[0].0 as u64);
        lemma_queue_bytes_len(q.drop_first());
        assert(b.subrange(0, 8) =~= w);
        assert(spec_u64_from_le_bytes(b.subrange(0, 8)) == q[0].0 as u64);
        assert(b.skip(8) =~= spec_queue_bytes(q.drop_first()));
        lemma_parse_queue_roundtrip(q.drop_first());
        assert(spec_parse_queue(b.skip(8), (q.len() - 1) as nat) == Ok::<
            Seq<SongKey>,
            LoadError,
        >(q.drop_first()));
        assert(SongKey(spec_u64_from_le_bytes(b.subrange(0, 8)) as usize) == q[0]);
        assert(seq![SongKey(spec_u64_from_le_bytes(b.subrange(0, 8)) as usize)] + q.drop_first()
            =~= q);
        assert(spec_parse_queue(b, q.len()) == Ok::<Seq<SongKey>, LoadError>(
            seq![SongKey(spec_u64_from_le_bytes(b.subrange(0, 8)) as usize)] + q.drop_first(),
        ));
    }
}

/// Persistence round trip: decoding an encoded state gives the state
/// back, for every state whose volume is a percentage and whose queue
/// fits in memory.
pub proof fn lemma_codec_roundtrip(s: StateModel)
    requires
        s.volume.0 <= VOLUME_MAX,
        s.queue.len() <= usize::MAX,
    ensures
        spec_decode(spec_encode(s)) == Ok::<StateModel, LoadError>(s),
{
    vstd::bytes::lemma_auto_spec_u64_to_from_le_bytes();
    vstd::bytes::lemma_auto_spec_u32_to_from_le_bytes();
    let b = spec_encode(s);
    let h = spec_header(s);
    lemma_queue_bytes_len(s.queue);
    assert(h.len() == HEADER_LEN);
    assert(b.len() == HEADER_LEN + 8 * s.queue.len());
    assert(b.subrange(0, 4) =~= spec_magic());
    assert(b[4] == AUDIO_VERSION);
    assert(b[5] == s.volume.0);
    assert(b[6] == repeat_byte(s.repeat));
    assert(b[7] == bool_byte(s.playing));
    assert(b.subrange(8, 12) =~= spec_u32_to_le_bytes(s.elapsed));
    assert(b.subrange(12, 16) =~= spec_u32_to_le_bytes(s.runtime));
    assert(b[16] == opt_tag(s.song));
    assert(b.subrange(17, 25) =~= spec_u64_to_le_bytes(song_word(s.song)));
    assert(b[25] == opt_tag(s.queue_idx));
    assert(b.subrange(26, 34) =~= spec_u64_to_le_bytes(idx_word(s.queue_idx)));
    assert(b.subrange(34, 42) =~= spec_u64_to_le_bytes(s.queue.len() as u64));
    assert(b.skip(HEADER_LEN as int) =~= spec_queue_bytes(s.queue));
    lemma_parse_queue_roundtrip(s.queue);
    match spec_decode(b) {
        Ok(m) => {
            assert(m =~= s);
        },
        Err(_) => {},
    }
}

/// Serialize a playback state into its persisted bytes.
#[verifier::rlimit(40)]
pub fn encode_audio_state(s: &AudioState) -> (r: Vec<u8>)
    ensures
        r@ == spec_encode(s@),
{
    let mut out: Vec<u8> = Vec::new();
    out.push(0x46);
    out.push(0x53);
    out.push(0x54);
    out.push(0x41);
    out.push(AUDIO_VERSION);
    out.push(s.volume.0);
    out.push(
        match s.repeat {
            Repeat::Off => 0,
            Repeat::Song => 1,
            Repeat::Queue => 2,
            Repeat::QueuePause => 3,
        },
    );
    out.push(
        if s.playing {
            1
        } else {
            0
        },
    );
    let mut w = u32_to_le_bytes(s.elapsed);
    out.append(&mut w);
    let mut w = u32_to_le_bytes(s.runtime);
    out.append(&mut w);
    match s.song {
        Some(k) => {
            out.push(1);
            let mut w = u64_to_le_bytes(k.0 as u64);
            out.append(&mut w);
        },
        None => {
            out.push(0);
            let mut w = u64_to_le_bytes(0);
            out.append(&mut w);
        },
    }
    match s.queue_idx {
        Some(i) => {
            out.push(1);
            let mut w = u64_to_le_bytes(i as u64);
            out.append(&mut w);
        },
        None => {
            out.push(0);
            let mut w = u64_to_le_bytes(0);
            out.append(&mut w);
        },
    }
    let mut w = u64_to_le_bytes(s.queue.len() as u64);
    out.append(&mut w);
    proof {
        assert(out@ =~= spec_header(s@));
    }
    let qlen = s.queue.len();
    let mut qb: Vec<u8> = Vec::new();
    let mut i: usize = qlen;
    proof {
        assert(s.queue@.subrange(qlen as int, qlen as int) =~= Seq::<SongKey>::empty());
    }
    while i > 0
        invariant
            i <= qlen,
            qlen == s.queue@.len(),
            qb@ == spec_queue_bytes(s.queue@.subrange(i as int, qlen as int)),
        decreases i,
    {
        i = i - 1;
        let mut w = u64_to_le_bytes(s.queue[i].0 as u64);
        w.append(&mut qb);
        qb = w;
        proof {
            let part = s.queue@.subrange(i as int, qlen as int);
            assert(part.len() > 0);
            assert(part[0] == s.queue@[i as int]);
            assert(part.drop_first() =~= s.queue@.subrange(i + 1, qlen as int));
        }
    }
    proof {
        assert(s.queue@.subrange(0, qlen as int) =~= s.queue@);
    }
    out.append(&mut qb);
    out
}

/// Little-endian word at `off`.
fn read_u64_at(b: &Vec<u8>, off: usize) -> (r: u64)
    requires
        off + 8 <= b@.len(),
    ensures
        r == spec_u64_from_le_bytes(b@.subrange(off as int, off + 8)),
{
    let end = b.len();
    assert(off + 8 <= end);
    let s = vstd::slice::slice_subrange(b.as_slice(), off, off + 8);
    u64_from_le_bytes(s)
}

/// Little-endian half word at `off`.
fn read_u32_at(b: &Vec<u8>, off: usize) -> (r: u32)
    requires
        off + 4 <= b@.len(),
    ensures
        r == spec_u32_from_le_bytes(b@.subrange(off as int, off + 4)),
{
    let end = b.len();
    assert(off + 4 <= end);
    let s = vstd::slice::slice_subrange(b.as_slice(), off, off + 4);
    u32_from_le_bytes(s)
}

/// Parse persisted bytes back into a playback state; every departure
/// from the layout is a distinct error, exactly as [`spec_decode`] says.
#[verifier::loop_isolation(false)]
pub fn decode_audio_state(b: &Vec<u8>) -> (r: Result<AudioState, LoadError>)
    ensures
        match r {
            Ok(st) => spec_decode(b@) == Ok::<StateModel, LoadError>(st@),
            Err(e) => spec_decode(b@) == Err::<StateModel, LoadError>(e),
        },
{
    if b.len() < HEADER_LEN {
        return Err(LoadError::TooShort);
    }
    if !(b[0] == 0x46 && b[1] == 0x53 && b[2] == 0x54 && b[3] == 0x41) {
        proof {
            assert(b@.subrange(0, 4) != spec_magic()) by {
                assert(b@.subrange(0, 4)[0] == b@[0]);
                assert(b@.subrange(0, 4)[1] == b@[1]);
                assert(b@.subrange(0, 4)[2] == b@[2]);
                assert(b@.subrange(0, 4)[3] == b@[3]);
            }
        }
        return Err(LoadError::Magic);
    }
    proof {
        assert(b@.subrange(0, 4) =~= spec_magic());
    }
    if b[4] != AUDIO_VERSION {
        return Err(LoadError::Version);
    }
    if b[5] > VOLUME_MAX {
        return Err(LoadError::Oversize);
    }
    if b[6] > 3 {
        return Err(LoadError::Tag);
    }
    if b[7] > 1 {
        return Err(LoadError::Tag);
    }
    if b[16] > 1 {
        return Err(LoadError::Tag);
    }
    let song_word_v = read_u64_at(b, 17);
    if b[16] == 0 && song_word_v != 0 {
        return Err(LoadError::Tag);
    }
    if b[16] == 1 && song_word_v > usize::MAX as u64 {
        return Err(LoadError::Oversize);
    }
    if b[25] > 1 {
        return Err(LoadError::Tag);
    }
    let idx_word_v = read_u64_at(b, 26);
    if b[25] == 0 && idx_word_v != 0 {
        return Err(LoadError::Tag);
    }
    if b[25] == 1 && idx_word_v > usize::MAX as u64 {
        return Err(LoadError::Oversize);
    }
    let qlen_word = read_u64_at(b, 34);
    if qlen_word > usize::MAX as u64 {
        return Err(LoadError::Oversize);
    }
    let n = qlen_word as usize;
    let ghost tail0 = b@.skip(HEADER_LEN as int);
    let mut queue: VecDeque<SongKey> = VecDeque::new();
    let mut j: usize = 0;
    let mut off: usize = HEADER_LEN;
    while j < n
        invariant
            b@.len() >= HEADER_LEN,
            j <= n,
            off == HEADER_LEN + 8 * j,
            off <= b@.len(),
            tail0 == b@.skip(HEADER_LEN as int),
            spec_parse_queue(tail0, n as nat) == (match spec_parse_queue(
                b@.subrange(off as int, b@.len() as int),
                (n - j) as nat,
            ) {
                Ok(rest) => Ok::<Seq<SongKey>, LoadError>(queue@ + rest),
                Err(e) => Err::<Seq<SongKey>, LoadError>(e),
            }),
        decreases n - j,
    {
        let ghost tail = b@.subrange(off as int, b@.len() as int);
        if b.len() - off < 8 {
            proof {
                assert(tail.len() < 8);
                assert(spec_parse_queue(tail0, n as nat) == Err::<Seq<SongKey>, LoadError>(
                    LoadError::TooShort,
                ));
                assert(spec_decode(b@) == Err::<StateModel, LoadError>(LoadError::TooShort));
            }
            return Err(LoadError::TooShort);
        }
        let k = read_u64_at(b, off);
        proof {
            assert(b@.subrange(off as int, off + 8) =~= tail.subrange(0, 8));
        }
        if k > usize::MAX as u64 {
            proof {
                assert(spec_parse_queue(tail0, n as nat) == Err::<Seq<SongKey>, LoadError>(
                    LoadError::Oversize,
                ));
                assert(spec_decode(b@) == Err::<StateModel, LoadError>(LoadError::Oversize));
            }
            return Err(LoadError::Oversize);
        }
        let ghost queue0 = queue@;
        queue.push_back(SongKey(k as usize));
        proof {
            assert(b@.subrange(off + 8, b@.len() as int) =~= tail.skip(8));
            match spec_parse_queue(tail.skip(8), (n - j - 1) as nat) {
                Ok(rest) => {
                    assert(queue0 + (seq![SongKey(k as usize)] + rest) =~= queue@ + rest);
                },
                Err(_) => {},
            }
        }
        off = off + 8;
        j = j + 1;
    }
    if off != b.len() {
        proof {
            assert(b@.subrange(off as int, b@.len() as int).len() > 0);
        }
        return Err(LoadError::Trailing);
    }
    proof {
        assert(b@.subrange(off as int, b@.len() as int).len() == 0);
        assert(queue@ + Seq::<SongKey>::empty() =~= queue@);
    }
    let song = if b[16] == 1 {
        Some(SongKey(song_word_v as usize))
    } else {
        None
    };
    let queue_idx = if b[25] == 1 {
        Some(idx_word_v as usize)
    } else {
        None
    };
    let elapsed = read_u32_at(b, 8);
    let runtime = read_u32_at(b, 12);
    let playing = b[7] == 1;
    let repeat = if b[6] == 0 {
        Repeat::Off
    } else if b[6] == 1 {
        Repeat::Song
    } else if b[6] == 2 {
        Repeat::Queue
    } else {
        Repeat::QueuePause
    };
    let st = AudioState {
        queue,
        queue_idx,
        song,
        elapsed,
        runtime,
        playing,
        repeat,
        volume: Volume(b[5]),
    };
    proof {
        assert(spec_decode(b@) == Ok::<StateModel, LoadError>(st@)) by {
            assert(st@ =~= spec_decode(b@)->Ok_0);
        }
    }
    Ok(st)
}

/// The state a fresh boot starts from when no valid file is on disk:
/// decode the bytes, or fall back to the default state.
pub fn load_audio_state_or_default(b: &Vec<u8>) -> (r: AudioState)
    ensures
        match spec_decode(b@) {
            Ok(m) => r@ == m,
            Err(_) => r@ == AudioState::spec_default(),
        },
{
    match decode_audio_state(b) {
        Ok(st) => st,
        Err(_) => AudioState::new(),
    }
}

} // verus!
