//! The kernel's interface: the commands frontends send, the events the
//! kernel sends back, and the pure routing between them. The kernel's
//! own thread, its channels and the peers live outside the crate; they
//! call the routing functions here on each message.

use vstd::prelude::*;
use std::sync::Arc;
use crate::collection::{AlbumKey, ArtistKey, Collection, SongKey};
use crate::state::{keys_valid, state_inv, Append, AudioState, Repeat, Seek, StateModel, Volume};
use crate::engine::Command;

verus! {

/// What a search should match against.
#[derive(Clone, Copy, Debug, PartialEq, Eq, Structural)]
pub enum SearchKind {
    /// Every item scored at least a little alike.
    All,
    /// Items at least seventy percent alike.
    Sim70,
    /// The twenty-five best items of each kind.
    Top25,
    /// The five best items of each kind.
    Top5,
}

/// Search results: the matching keys of each kind.
#[derive(Clone, Debug)]
pub struct Keychain {
    /// Matching artists.
    pub artists: Vec<ArtistKey>,
    /// Matching albums.
    pub albums: Vec<AlbumKey>,
    /// Matching songs.
    pub songs: Vec<SongKey>,
}

/// Commands a frontend sends to the kernel.
pub enum FrontendToKernel {
    /// Toggle playback.
    Toggle,
    /// Start playback.
    Play,
    /// Pause playback.
    Pause,
    /// Play the next song in the queue.
    Next,
    /// Play the previous song, or restart the current one past the
    /// threshold; `None` takes the process-wide default threshold.
    Previous(Option<u32>),
    /// Stop playback and empty the queue.
    Stop,
    /// Advance the given number of queue positions.
    Skip(usize),
    /// Go back the given number of queue positions.
    Back(usize),
    /// Seek within the current song.
    Seek((Seek, u64)),
    /// Set the repeat mode.
    Repeat(Repeat),
    /// Set the volume.
    Volume(Volume),
    /// Add one song to the queue: key, placement, clear-first, force-play.
    QueueAddSong((SongKey, Append, bool, bool)),
    /// Add an album: key, placement, clear-first, force-play, offset.
    QueueAddAlbum((AlbumKey, Append, bool, bool, usize)),
    /// Add an artist's songs: key, placement, clear-first, force-play, offset.
    QueueAddArtist((ArtistKey, Append, bool, bool, usize)),
    /// Add a playlist by name: name, placement, clear-first, force-play, offset.
    QueueAddPlaylist((String, Append, bool, bool, usize)),
    /// Permute the queue at random.
    Shuffle,
    /// Empty the queue; the flag tells whether playback keeps running.
    Clear(bool),
    /// Jump to the given queue position.
    QueueSetIndex(usize),
    /// Remove the queue positions `start..end`; the flag tells whether
    /// the song at the removal point starts playing.
    QueueRemoveRange((usize, usize, bool)),
    /// Load the playback state persisted on disk.
    RestoreAudioState,
    /// Send future samples to the named output device.
    SetOutputDevice(String),
    /// Build a new catalog from these directories.
    NewCollection(Vec<String>),
    /// Warm the filesystem cache for these directories.
    CachePath(Vec<String>),
    /// Search the catalog for similar items.
    Search((String, SearchKind)),
    /// Save everything and answer with `Exit`.
    Exit,
}

/// Events the kernel sends to a frontend.
pub enum KernelToFrontend {
    /// Drop your catalog pointer.
    DropCollection,
    /// The new catalog.
    NewCollection(Arc<Collection>),
    /// Building a new catalog failed; the old one stays, with the reason.
    Failed((Arc<Collection>, String)),
    /// The output device failed.
    DeviceError(String),
    /// Writing samples failed.
    PlayError(String),
    /// Seeking failed.
    SeekError(String),
    /// A song's file could not be opened or probed.
    PathError((SongKey, String)),
    /// Results of an earlier search.
    SearchResp(Keychain),
    /// Everything was saved (or the reason it was not); the kernel now
    /// parks forever.
    Exit(Result<(), String>),
}

/// Errors the audio engine's surroundings report to the kernel.
pub enum AudioToKernel {
    /// The output device failed while reopening.
    DeviceError(String),
    /// Writing samples failed.
    PlayError(String),
    /// Seeking the reader failed.
    SeekError(String),
    /// A song's file could not be opened or probed.
    PathError((SongKey, String)),
}

/// Where the kernel routes one frontend command.
pub enum Routed {
    /// To the audio engine, as an engine command. A playlist addition
    /// still carries the playlist's name; the caller resolves it to song
    /// keys against the playlist store before applying.
    ToAudio(Command),
    /// To the audio engine: add the named playlist.
    ToAudioPlaylist((String, Append, bool, bool, usize)),
    /// To the audio engine: re-install the boot state.
    ToAudioRestore,
    /// To the audio engine's output: change the device.
    ToAudioDevice(String),
    /// To the search worker.
    ToSearch((String, SearchKind)),
    /// Start building a new catalog from these directories.
    CcdMode(Vec<String>),
    /// Warm the filesystem cache for these directories.
    CachePath(Vec<String>),
    /// Save everything and park.
    Exit,
}

/// Route one frontend command: playback and queue commands go to the
/// audio engine (`Stop` as `Clear(false)`, `Next` and `Previous` as
/// themselves), searches to the search worker, catalog and lifecycle
/// commands to the kernel itself.
pub fn route_frontend(msg: FrontendToKernel) -> (r: Routed)
    ensures
        r == spec_route_frontend(msg),
{
    match msg {
        FrontendToKernel::Toggle => Routed::ToAudio(Command::Toggle),
        FrontendToKernel::Play => Routed::ToAudio(Command::Play),
        FrontendToKernel::Pause => Routed::ToAudio(Command::Pause),
        FrontendToKernel::Next => Routed::ToAudio(Command::Next),
        FrontendToKernel::Previous(t) => Routed::ToAudio(Command::Previous(t)),
        FrontendToKernel::Stop => Routed::ToAudio(Command::Clear(false)),
        FrontendToKernel::Skip(n) => Routed::ToAudio(Command::Skip(n)),
        FrontendToKernel::Back(n) => Routed::ToAudio(Command::Back(n)),
        FrontendToKernel::Seek((s, t)) => Routed::ToAudio(Command::Seek(s, t)),
        FrontendToKernel::Repeat(r) => Routed::ToAudio(Command::Repeat(r)),
        FrontendToKernel::Volume(v) => Routed::ToAudio(Command::Volume(v.check())),
        FrontendToKernel::QueueAddSong((k, ap, cl, pl)) => Routed::ToAudio(
            Command::QueueAddSong(k, ap, cl, pl),
        ),
        FrontendToKernel::QueueAddAlbum((k, ap, cl, pl, off)) => Routed::ToAudio(
            Command::QueueAddAlbum(k, ap, cl, pl, off),
        ),
        FrontendToKernel::QueueAddArtist((k, ap, cl, pl, off)) => Routed::ToAudio(
            Command::QueueAddArtist(k, ap, cl, pl, off),
        ),
        FrontendToKernel::QueueAddPlaylist((name, ap, cl, pl, off)) => Routed::ToAudioPlaylist(
            (name, ap, cl, pl, off),
        ),
        FrontendToKernel::Shuffle => Routed::ToAudio(Command::Shuffle),
        FrontendToKernel::Clear(keep) => Routed::ToAudio(Command::Clear(keep)),
        FrontendToKernel::QueueSetIndex(i) => Routed::ToAudio(Command::QueueSetIndex(i)),
        FrontendToKernel::QueueRemoveRange((s, e, nx)) => Routed::ToAudio(
            Command::QueueRemoveRange(s, e, nx),
        ),
        FrontendToKernel::RestoreAudioState => Routed::ToAudioRestore,
        FrontendToKernel::SetOutputDevice(d) => Routed::ToAudioDevice(d),
        FrontendToKernel::NewCollection(paths) => Routed::CcdMode(paths),
        FrontendToKernel::CachePath(paths) => Routed::CachePath(paths),
        FrontendToKernel::Search(q) => Routed::ToSearch(q),
        FrontendToKernel::Exit => Routed::Exit,
    }
}

/// The routing of every frontend command.
pub open spec fn spec_route_frontend(msg: FrontendToKernel) -> Routed {
    match msg {
        FrontendToKernel::Toggle => Routed::ToAudio(Command::Toggle),
        FrontendToKernel::Play => Routed::ToAudio(Command::Play),
        FrontendToKernel::Pause => Routed::ToAudio(Command::Pause),
        FrontendToKernel::Next => Routed::ToAudio(Command::Next),
        FrontendToKernel::Previous(t) => Routed::ToAudio(Command::Previous(t)),
        FrontendToKernel::Stop => Routed::ToAudio(Command::Clear(false)),
        FrontendToKernel::Skip(n) => Routed::ToAudio(Command::Skip(n)),
        FrontendToKernel::Back(n) => Routed::ToAudio(Command::Back(n)),
        FrontendToKernel::Seek((s, t)) => Routed::ToAudio(Command::Seek(s, t)),
        FrontendToKernel::Repeat(r) => Routed::ToAudio(Command::Repeat(r)),
        FrontendToKernel::Volume(v) => Routed::ToAudio(
            Command::Volume(Volume(Volume::spec_clamp(v.0))),
        ),
        FrontendToKernel::QueueAddSong((k, ap, cl, pl)) => Routed::ToAudio(
            Command::QueueAddSong(k, ap, cl, pl),
        ),
        FrontendToKernel::QueueAddAlbum((k, ap, cl, pl, off)) => Routed::ToAudio(
            Command::QueueAddAlbum(k, ap, cl, pl, off),
        ),
        FrontendToKernel::QueueAddArtist((k, ap, cl, pl, off)) => Routed::ToAudio(
            Command::QueueAddArtist(k, ap, cl, pl, off),
        ),
        FrontendToKernel::QueueAddPlaylist(t) => Routed::ToAudioPlaylist(t),
        FrontendToKernel::Shuffle => Routed::ToAudio(Command::Shuffle),
        FrontendToKernel::Clear(keep) => Routed::ToAudio(Command::Clear(keep)),
        FrontendToKernel::QueueSetIndex(i) => Routed::ToAudio(Command::QueueSetIndex(i)),
        FrontendToKernel::QueueRemoveRange((s, e, nx)) => Routed::ToAudio(
            Command::QueueRemoveRange(s, e, nx),
        ),
        FrontendToKernel::RestoreAudioState => Routed::ToAudioRestore,
        FrontendToKernel::SetOutputDevice(d) => Routed::ToAudioDevice(d),
        FrontendToKernel::NewCollection(paths) => Routed::CcdMode(paths),
        FrontendToKernel::CachePath(paths) => Routed::CachePath(paths),
        FrontendToKernel::Search(q) => Routed::ToSearch(q),
        FrontendToKernel::Exit => Routed::Exit,
    }
}

/// Forward an engine error to the frontend, kind for kind.
pub fn route_audio(msg: AudioToKernel) -> (r: KernelToFrontend)
    ensures
        match msg {
            AudioToKernel::DeviceError(s) => r matches KernelToFrontend::DeviceError(s2) && s2@
                == s@,
            AudioToKernel::PlayError(s) => r matches KernelToFrontend::PlayError(s2) && s2@ == s@,
            AudioToKernel::SeekError(s) => r matches KernelToFrontend::SeekError(s2) && s2@ == s@,
            AudioToKernel::PathError((k, e)) => r matches KernelToFrontend::PathError((k2, e2))
                && k2 == k && e2@ == e@,
        },
{
    match msg {
        AudioToKernel::DeviceError(s) => KernelToFrontend::DeviceError(s),
        AudioToKernel::PlayError(s) => KernelToFrontend::PlayError(s),
        AudioToKernel::SeekError(s) => KernelToFrontend::SeekError(s),
        AudioToKernel::PathError((k, s)) => KernelToFrontend::PathError((k, s)),
    }
}

/// An event from the operating system's media keys, as plain values.
pub enum MediaEvent {
    /// Toggle playback.
    Toggle,
    /// Start playback.
    Play,
    /// Pause playback.
    Pause,
    /// Next song.
    Next,
    /// Previous song, under the process-wide threshold.
    Previous,
    /// Stop playback and empty the queue.
    Stop,
    /// Move to this second of the current song.
    SetPosition(u64),
    /// Nudge forward or backward by the standard step.
    Seek(bool),
    /// Nudge forward or backward by the given seconds.
    SeekBy(bool, u64),
    /// Bring the frontend's window up.
    Raise,
    /// Quit the player.
    Quit,
    /// Open a location; this player ignores it.
    OpenUri(String),
}

/// Where a media-key event goes.
pub enum MediaRouted {
    /// To the audio engine.
    ToAudio(Command),
    /// Set the process-wide raise flag for the frontend.
    Raise,
    /// Set the process-wide quit flag for the frontend.
    Quit,
    /// Nothing.
    Ignore,
}

/// Seconds a bare media-key nudge seeks by.
pub const MEDIA_SEEK_STEP: u64 = 5;

/// The routing of every media-key event.
pub open spec fn spec_route_media(ev: MediaEvent) -> MediaRouted {
    match ev {
        MediaEvent::Toggle => MediaRouted::ToAudio(Command::Toggle),
        MediaEvent::Play => MediaRouted::ToAudio(Command::Play),
        MediaEvent::Pause => MediaRouted::ToAudio(Command::Pause),
        MediaEvent::Next => MediaRouted::ToAudio(Command::Next),
        MediaEvent::Previous => MediaRouted::ToAudio(Command::Previous(None)),
        MediaEvent::Stop => MediaRouted::ToAudio(Command::Clear(false)),
        MediaEvent::SetPosition(t) => MediaRouted::ToAudio(Command::Seek(Seek::Absolute, t)),
        MediaEvent::Seek(forward) => MediaRouted::ToAudio(
            Command::Seek(
                if forward {
                    Seek::Forward
                } else {
                    Seek::Backward
                },
                MEDIA_SEEK_STEP,
            ),
        ),
        MediaEvent::SeekBy(forward, t) => MediaRouted::ToAudio(
            Command::Seek(
                if forward {
                    Seek::Forward
                } else {
                    Seek::Backward
                },
                t,
            ),
        ),
        MediaEvent::Raise => MediaRouted::Raise,
        MediaEvent::Quit => MediaRouted::Quit,
        MediaEvent::OpenUri(_) => MediaRouted::Ignore,
    }
}

/// Route one media-key event: playback keys become engine commands, a
/// bare nudge seeks by the standard step, raise and quit set their
/// process-wide flags, and opening a location is ignored.
pub fn route_media(ev: MediaEvent) -> (r: MediaRouted)
    ensures
        r == spec_route_media(ev),
{
    match ev {
        MediaEvent::Toggle => MediaRouted::ToAudio(Command::Toggle),
        MediaEvent::Play => MediaRouted::ToAudio(Command::Play),
        MediaEvent::Pause => MediaRouted::ToAudio(Command::Pause),
        MediaEvent::Next => MediaRouted::ToAudio(Command::Next),
        MediaEvent::Previous => MediaRouted::ToAudio(Command::Previous(None)),
        MediaEvent::Stop => MediaRouted::ToAudio(Command::Clear(false)),
        MediaEvent::SetPosition(t) => MediaRouted::ToAudio(Command::Seek(Seek::Absolute, t)),
        MediaEvent::Seek(forward) => {
            if forward {
                MediaRouted::ToAudio(Command::Seek(Seek::Forward, MEDIA_SEEK_STEP))
            } else {
                MediaRouted::ToAudio(Command::Seek(Seek::Backward, MEDIA_SEEK_STEP))
            }
        },
        MediaEvent::SeekBy(forward, t) => {
            if forward {
                MediaRouted::ToAudio(Command::Seek(Seek::Forward, t))
            } else {
                MediaRouted::ToAudio(Command::Seek(Seek::Backward, t))
            }
        },
        MediaEvent::Raise => MediaRouted::Raise,
        MediaEvent::Quit => MediaRouted::Quit,
        MediaEvent::OpenUri(_) => MediaRouted::Ignore,
    }
}

/// The state after the boot bounds check.
pub open spec fn spec_validate(s: StateModel, c: Collection) -> StateModel {
    let song0 = match s.song {
        Some(k) => if k.0 < c.songs@.len() {
            Some(k)
        } else {
            None
        },
        None => None,
    };
    let queue = if forall|i: int|
        0 <= i < s.queue.len() ==> (#[trigger] s.queue[i]).0 < c.songs@.len() {
        s.queue
    } else {
        Seq::empty()
    };
    let song = if queue.len() == 0 {
        None
    } else {
        song0
    };
    let queue_idx = match s.queue_idx {
        Some(i) => if i < queue.len() && song == Some(queue[i as int]) {
            Some(i)
        } else {
            None
        },
        None => None,
    };
    let playing = song is Some && s.playing;
    let elapsed = if s.elapsed > s.runtime {
        s.runtime
    } else {
        s.elapsed
    };
    let volume = Volume(Volume::spec_clamp(s.volume.0));
    StateModel { queue, queue_idx, song, elapsed, playing, volume, ..s }
}

/// Bounds-check a playback state read from disk against the installed
/// catalog: an unknown song is dropped, a queue holding any unknown key
/// is emptied and takes the song with it, a position that does not name
/// the loaded song within the surviving queue is dropped, playback stops
/// when nothing is loaded, and the clock and volume are clamped.
/// Afterwards the state invariants hold outright, so the engine may
/// restore it.
pub fn validate_restored_state(state: &mut AudioState, c: &Collection)
    ensures
        final(state)@ == spec_validate(old(state)@, *c),
        keys_valid(final(state)@, *c),
        state_inv(final(state)@, *c),
{
    match state.song {
        Some(k) => {
            if !(k.0 < c.songs.len()) {
                state.song = None;
            }
        },
        None => {},
    }
    let mut all_valid = true;
    let mut i: usize = 0;
    let n = state.queue.len();
    while i < n
        invariant
            i <= n,
            n == state@.queue.len(),
            all_valid == forall|j: int|
                0 <= j < i ==> (#[trigger] state@.queue[j]).0 < c.songs@.len(),
        decreases n - i,
    {
        if !(state.queue[i].0 < c.songs.len()) {
            all_valid = false;
        }
        i = i + 1;
    }
    if !all_valid {
        state.queue.clear();
    }
    if state.queue.len() == 0 {
        state.song = None;
    }
    match state.queue_idx {
        Some(i) => {
            let keep = i < state.queue.len() && (match state.song {
                Some(k) => state.queue[i] == k,
                None => false,
            });
            if !keep {
                state.queue_idx = None;
            }
        },
        None => {},
    }
    match state.song {
        Some(_) => {},
        None => {
            state.playing = false;
        },
    }
    if state.elapsed > state.runtime {
        state.elapsed = state.runtime;
    }
    state.volume = state.volume.check();
}

} // verus!
