//! Remote-control surface: the set of methods a remote frontend can
//! invoke, and the address such a client connects to when none is
//! configured. Transport and serialization live outside the crate.

use vstd::prelude::*;

verus! {

/// Address a remote client connects to when none is configured.
pub fn default_url() -> (r: String)
    ensures
        r@ == "http://127.0.0.1:18425"@,
{
    "http://127.0.0.1:18425".to_owned()
}

/// Every method a remote frontend can invoke.
#[derive(Clone, Copy, Debug, Hash, PartialEq, Eq, PartialOrd, Ord, Structural)]
pub enum Method {
    /// Build a new catalog.
    CollectionNew,
    /// A short summary of the catalog.
    CollectionBrief,
    /// The whole catalog.
    CollectionFull,
    /// Keys related to a key, briefly.
    CollectionRelation,
    /// Keys related to a key, in full.
    CollectionRelationFull,
    /// How long the catalog took to build.
    CollectionPerf,
    /// Sizes of the catalog's resources.
    CollectionResourceSize,
    /// Addresses the server listens on.
    StateIp,
    /// The server's configuration.
    StateConfig,
    /// The server's state.
    StateDaemon,
    /// The playback state.
    StateAudio,
    /// Progress of a catalog rebuild.
    StateReset,
    /// The artist under a key.
    KeyArtist,
    /// The album under a key.
    KeyAlbum,
    /// The song under a key.
    KeySong,
    /// An artist by name.
    MapArtist,
    /// An album by artist and title.
    MapAlbum,
    /// A song by artist, album and title.
    MapSong,
    /// The artist of the current song.
    CurrentArtist,
    /// The album of the current song.
    CurrentAlbum,
    /// The current song.
    CurrentSong,
    /// A random artist.
    RandArtist,
    /// A random album.
    RandAlbum,
    /// A random song.
    RandSong,
    /// Search all kinds.
    Search,
    /// Search artists.
    SearchArtist,
    /// Search albums.
    SearchAlbum,
    /// Search songs.
    SearchSong,
    /// Toggle playback.
    Toggle,
    /// Start playback.
    Play,
    /// Pause playback.
    Pause,
    /// Play the next queue entry.
    Next,
    /// Stop playback and empty the queue.
    Stop,
    /// Permute the queue at random.
    Shuffle,
    /// Turn repeating off.
    RepeatOff,
    /// Repeat the current song.
    RepeatSong,
    /// Repeat the whole queue.
    RepeatQueue,
    /// Play the previous queue entry.
    Previous,
    /// Set the volume.
    Volume,
    /// Empty the queue.
    Clear,
    /// Seek within the current song.
    Seek,
    /// Advance several queue entries.
    Skip,
    /// Go back several queue entries.
    Back,
    /// Add an artist's songs to the queue by key.
    QueueAddKeyArtist,
    /// Add an album to the queue by key.
    QueueAddKeyAlbum,
    /// Add a song to the queue by key.
    QueueAddKeySong,
    /// Add an artist's songs to the queue by name.
    QueueAddMapArtist,
    /// Add an album to the queue by name.
    QueueAddMapAlbum,
    /// Add a song to the queue by name.
    QueueAddMapSong,
    /// Add a random artist's songs to the queue.
    QueueAddRandArtist,
    /// Add a random album to the queue.
    QueueAddRandAlbum,
    /// Add a random song to the queue.
    QueueAddRandSong,
    /// Add a playlist to the queue by name.
    QueueAddPlaylist,
    /// Jump to a queue position.
    QueueSetIndex,
    /// Remove a range of queue positions.
    QueueRemoveRange,
    /// Create a playlist.
    PlaylistNew,
    /// Delete a playlist.
    PlaylistRemove,
    /// Copy a playlist under a new name.
    PlaylistClone,
    /// Remove one entry of a playlist.
    PlaylistRemoveSong,
    /// Append an artist's songs to a playlist.
    PlaylistAddArtist,
    /// Append an album to a playlist.
    PlaylistAddAlbum,
    /// Append a song to a playlist.
    PlaylistAddSong,
    /// Names of all playlists.
    PlaylistNames,
    /// How many playlists exist.
    PlaylistCount,
    /// One playlist's entries.
    PlaylistSingle,
    /// Every playlist's entries.
    PlaylistAll,
}

} // verus!
