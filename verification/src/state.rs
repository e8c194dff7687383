//! The authoritative playback state: the queue, the position within it,
//! the loaded song, and the mode flags. The audio engine mutates one
//! value of [`AudioState`]; frontends read it.

use vstd::prelude::*;
use std::collections::VecDeque;
use crate::collection::{Collection, SongKey};

verus! {

/// Volume as an integer percentage, always within `0..=100`.
#[derive(Clone, Copy, Debug, PartialEq, Eq, Structural)]
pub struct Volume(pub u8);

/// Highest value a [`Volume`] can hold.
pub const VOLUME_MAX: u8 = 100;

/// Default volume of a fresh state.
pub const VOLUME_DEFAULT: u8 = 25;

impl Volume {
    /// Clamp of a raw percentage into `0..=100`.
    pub open spec fn spec_clamp(v: u8) -> u8 {
        if v > VOLUME_MAX {
            VOLUME_MAX
        } else {
            v
        }
    }

    /// A volume from a raw percentage, clamped into `0..=100`.
    pub fn new(v: u8) -> (r: Volume)
        ensures
            r.0 == Volume::spec_clamp(v),
            r.0 <= VOLUME_MAX,
    {
        if v > VOLUME_MAX {
            Volume(VOLUME_MAX)
        } else {
            Volume(v)
        }
    }

    /// The percentage held.
    pub fn inner(&self) -> (r: u8)
        ensures
            r == self.0,
    {
        self.0
    }

    /// The same volume, clamped again; the identity on well-formed values.
    pub fn check(&self) -> (r: Volume)
        ensures
            r.0 == Volume::spec_clamp(self.0),
    {
        Volume::new(self.0)
    }
}

impl Default for Volume {
    /// The default volume.
    fn default() -> (r: Volume)
        ensures
            r.0 == VOLUME_DEFAULT,
    {
        Volume(VOLUME_DEFAULT)
    }
}

/// What happens when the current song or the queue runs out.
#[derive(Clone, Copy, Debug, PartialEq, Eq, Structural)]
pub enum Repeat {
    /// Stop playback after the queue.
    Off,
    /// Load the current song again when it ends.
    Song,
    /// Wrap around to the front of the queue.
    Queue,
    /// Wrap around to the front of the queue, then pause.
    QueuePause,
}

/// Where a queue append puts the new songs.
#[derive(Clone, Copy, Debug, PartialEq, Eq, Structural)]
pub enum Append {
    /// Push to the tail.
    Back,
    /// Push to the head, keeping the input order.
    Front,
    /// Insert at the given position.
    Index(usize),
}

/// How a seek position is interpreted.
#[derive(Clone, Copy, Debug, PartialEq, Eq, Structural)]
pub enum Seek {
    /// Seconds forward from the current position.
    Forward,
    /// Seconds backward from the current position.
    Backward,
    /// An absolute second within the song.
    Absolute,
}

/// Elapsed seconds a song must reach before `Previous` restarts it
/// instead of moving to the prior queue entry, when no explicit
/// threshold comes with the command.
pub const PREVIOUS_THRESHOLD_DEFAULT: u32 = 3;

/// Mathematical model of an [`AudioState`].
#[verifier::ext_equal]
pub ghost struct StateModel {
    /// The queue as a sequence of song keys.
    pub queue: Seq<SongKey>,
    /// Position of the current song within the queue, if any.
    pub queue_idx: Option<usize>,
    /// The loaded song, if any.
    pub song: Option<SongKey>,
    /// Seconds of the song already played.
    pub elapsed: u32,
    /// Total seconds of the song.
    pub runtime: u32,
    /// Whether the decode loop should consume packets.
    pub playing: bool,
    /// The repeat mode.
    pub repeat: Repeat,
    /// The volume percentage.
    pub volume: Volume,
}

/// The playback state shared between the audio engine and the frontends.
#[derive(Clone, Debug)]
pub struct AudioState {
    /// Ordered song keys awaiting playback; double-ended.
    pub queue: VecDeque<SongKey>,
    /// Index of the current song in `queue`; when `Some(i)`, `queue[i]` is the song.
    pub queue_idx: Option<usize>,
    /// The currently loaded song.
    pub song: Option<SongKey>,
    /// Seconds of the song already played.
    pub elapsed: u32,
    /// Total seconds of the song.
    pub runtime: u32,
    /// Whether playback is running.
    pub playing: bool,
    /// The repeat mode.
    pub repeat: Repeat,
    /// The volume percentage.
    pub volume: Volume,
}

impl View for AudioState {
    type V = StateModel;

    open spec fn view(&self) -> StateModel {
        StateModel {
            queue: self.queue@,
            queue_idx: self.queue_idx,
            song: self.song,
            elapsed: self.elapsed,
            runtime: self.runtime,
            playing: self.playing,
            repeat: self.repeat,
            volume: self.volume,
        }
    }
}

/// Every song key the state holds indexes an existing song of the catalog.
pub open spec fn keys_valid(s: StateModel, c: Collection) -> bool {
    &&& forall|i: int| 0 <= i < s.queue.len() ==> (#[trigger] s.queue[i]).0 < c.songs@.len()
    &&& (s.song matches Some(k) ==> k.0 < c.songs@.len())
}

/// The state invariants: the queue index points at the loaded song, an
/// empty queue means idle, the elapsed seconds never pass the runtime,
/// the volume stays a percentage, and all keys index the catalog.
pub open spec fn state_inv(s: StateModel, c: Collection) -> bool {
    &&& keys_valid(s, c)
    &&& (s.queue_idx matches Some(i) ==> i < s.queue.len() && s.song == Some(s.queue[i as int]))
    &&& (s.queue.len() == 0 ==> s.queue_idx is None && s.song is None && !s.playing)
    &&& (s.song is Some ==> s.elapsed <= s.runtime)
    &&& s.volume.0 <= VOLUME_MAX
}

/// The state after [`AudioState::finish`].
pub open spec fn spec_finish(s: StateModel) -> StateModel {
    StateModel { song: None, queue_idx: None, elapsed: 0, runtime: 0, playing: false, ..s }
}

impl AudioState {
    /// The fresh state: empty queue, nothing loaded, repeat off, default volume.
    pub open spec fn spec_default() -> StateModel {
        StateModel {
            queue: Seq::empty(),
            queue_idx: None,
            song: None,
            elapsed: 0,
            runtime: 0,
            playing: false,
            repeat: Repeat::Off,
            volume: Volume(VOLUME_DEFAULT),
        }
    }

    /// A fresh state: empty queue, nothing loaded, repeat off, default volume.
    pub fn new() -> (r: AudioState)
        ensures
            r@ == AudioState::spec_default(),
            r@.queue.len() == 0,
            r@.queue_idx is None,
            r@.song is None,
            r@.elapsed == 0,
            r@.runtime == 0,
            !r@.playing,
            r@.repeat == Repeat::Off,
            r@.volume.0 == VOLUME_DEFAULT,
    {
        AudioState {
            queue: VecDeque::new(),
            queue_idx: None,
            song: None,
            elapsed: 0,
            runtime: 0,
            playing: false,
            repeat: Repeat::Off,
            volume: Volume(VOLUME_DEFAULT),
        }
    }

    /// Forget the loaded song: no song, no queue position, zero clock,
    /// playback stopped. The queue itself is kept.
    pub fn finish(&mut self)
        ensures
            final(self)@ == spec_finish(old(self)@),
    {
        self.song = None;
        self.queue_idx = None;
        self.elapsed = 0;
        self.runtime = 0;
        self.playing = false;
    }

    /// An equal copy of this state.
    pub fn duplicate(&self) -> (r: AudioState)
        ensures
            r@ == self@,
    {
        let mut queue: VecDeque<SongKey> = VecDeque::new();
        let mut i: usize = 0;
        while i < self.queue.len()
            invariant
                i <= self.queue@.len(),
                queue@ == self.queue@.subrange(0, i as int),
            decreases self.queue@.len() - i,
        {
            queue.push_back(self.queue[i]);
            i = i + 1;
        }
        proof {
            assert(queue@ =~= self.queue@);
        }
        let r = AudioState {
            queue,
            queue_idx: self.queue_idx,
            song: self.song,
            elapsed: self.elapsed,
            runtime: self.runtime,
            playing: self.playing,
            repeat: self.repeat,
            volume: self.volume,
        };
        proof {
            assert(r@ =~= self@);
        }
        r
    }
}

} // verus!
