//! The music catalog: artists, albums and songs, indexed by small
//! integer keys. A catalog is immutable once built; the kernel swaps
//! whole snapshots.

use vstd::prelude::*;

verus! {

/// Index into [`Collection::artists`].
#[derive(Clone, Copy, Debug, PartialEq, Eq, Structural)]
pub struct ArtistKey(pub usize);

/// Index into [`Collection::albums`].
#[derive(Clone, Copy, Debug, PartialEq, Eq, Structural)]
pub struct AlbumKey(pub usize);

/// Index into [`Collection::songs`].
#[derive(Clone, Copy, Debug, PartialEq, Eq, Structural)]
pub struct SongKey(pub usize);

impl ArtistKey {
    pub fn inner(&self) -> (r: usize)
        ensures
            r == self.0,
    {
        self.0
    }
}

impl AlbumKey {
    pub fn inner(&self) -> (r: usize)
        ensures
            r == self.0,
    {
        self.0
    }
}

impl SongKey {
    pub fn inner(&self) -> (r: usize)
        ensures
            r == self.0,
    {
        self.0
    }
}

/// Metadata of one song, with the key of the album it belongs to.
#[derive(Clone, Debug)]
pub struct Song {
    /// Title of the song.
    pub title: String,
    /// Key of the owning album.
    pub album: AlbumKey,
    /// Total runtime in whole seconds.
    pub runtime: u32,
    /// Sample rate in Hz; the timebase of playback is (1, sample_rate).
    pub sample_rate: u32,
    /// Path of the audio file on disk.
    pub path: String,
    /// Filename-extension hint for the demuxer probe.
    pub extension: String,
}

/// Metadata of one album, with the keys of its songs (at least one).
#[derive(Clone, Debug)]
pub struct Album {
    /// Title of the album.
    pub title: String,
    /// Key of the owning artist.
    pub artist: ArtistKey,
    /// Keys of the album's songs, in track order. Never empty.
    pub songs: Vec<SongKey>,
}

/// Metadata of one artist, with the keys of all their albums and songs.
#[derive(Clone, Debug)]
pub struct Artist {
    /// The artist's name.
    pub name: String,
    /// Keys of the artist's albums.
    pub albums: Vec<AlbumKey>,
    /// Keys of every song by the artist: album release order, then track order.
    pub songs: Vec<SongKey>,
}

impl Default for Artist {
    /// An artist with no name and no songs.
    fn default() -> (r: Artist)
        ensures
            r.name@.len() == 0,
            r.albums@.len() == 0,
            r.songs@.len() == 0,
    {
        Artist { name: String::new(), albums: Vec::new(), songs: Vec::new() }
    }
}

/// The whole catalog: a read-only snapshot.
#[derive(Clone, Debug)]
pub struct Collection {
    /// All artists.
    pub artists: Vec<Artist>,
    /// All albums.
    pub albums: Vec<Album>,
    /// All songs.
    pub songs: Vec<Song>,
    /// Creation date as UNIX time.
    pub timestamp: u64,
    /// Whether this catalog holds nothing.
    pub empty: bool,
}

impl Collection {
    /// All keys held anywhere in the catalog index existing entries,
    /// and every album has at least one song.
    pub open spec fn wf(self) -> bool {
        &&& forall|a: int|
            0 <= a < self.albums@.len() ==> {
                &&& (#[trigger] self.albums@[a]).songs@.len() >= 1
                &&& self.albums@[a].artist.0 < self.artists@.len()
                &&& forall|i: int|
                    0 <= i < self.albums@[a].songs@.len()
                        ==> (#[trigger] self.albums@[a].songs@[i]).0 < self.songs@.len()
            }
        &&& forall|s: int|
            0 <= s < self.songs@.len() ==> (#[trigger] self.songs@[s]).album.0
                < self.albums@.len()
        &&& forall|r: int|
            0 <= r < self.artists@.len() ==> {
                &&& (#[trigger] self.artists@[r]).songs@.len() >= 1
                &&& forall|i: int|
                    0 <= i < (#[trigger] self.artists@[r]).albums@.len()
                        ==> (#[trigger] self.artists@[r].albums@[i]).0 < self.albums@.len()
                &&& forall|i: int|
                    0 <= i < self.artists@[r].songs@.len()
                        ==> (#[trigger] self.artists@[r].songs@[i]).0 < self.songs@.len()
            }
    }

    /// Whether a song key indexes an existing song.
    pub open spec fn spec_valid_song(self, key: SongKey) -> bool {
        key.0 < self.songs@.len()
    }

    /// Creates an empty catalog.
    pub fn new() -> (r: Collection)
        ensures
            r.artists@.len() == 0,
            r.albums@.len() == 0,
            r.songs@.len() == 0,
            r.timestamp == 0,
            r.empty,
            r.wf(),
    {
        Collection {
            artists: Vec::new(),
            albums: Vec::new(),
            songs: Vec::new(),
            timestamp: 0,
            empty: true,
        }
    }

    /// The sentinel catalog: an empty snapshot that stands in while the
    /// live one is released during a swap.
    pub fn dummy() -> (r: Collection)
        ensures
            r.artists@.len() == 0,
            r.albums@.len() == 0,
            r.songs@.len() == 0,
            r.empty,
            r.wf(),
    {
        Collection::new()
    }

    /// Whether a song key indexes an existing song.
    pub fn valid_song(&self, key: SongKey) -> (r: bool)
        ensures
            r == self.spec_valid_song(key),
    {
        key.0 < self.songs.len()
    }

    /// The artist under the given key.
    pub fn index_artist(&self, key: &ArtistKey) -> (r: &Artist)
        requires
            key.0 < self.artists@.len(),
        ensures
            *r == self.artists@[key.0 as int],
    {
        &self.artists[key.0]
    }

    /// The album under the given key.
    pub fn index_album(&self, key: &AlbumKey) -> (r: &Album)
        requires
            key.0 < self.albums@.len(),
        ensures
            *r == self.albums@[key.0 as int],
    {
        &self.albums[key.0]
    }

    /// The song under the given key.
    pub fn index_song(&self, key: &SongKey) -> (r: &Song)
        requires
            key.0 < self.songs@.len(),
        ensures
            *r == self.songs@[key.0 as int],
    {
        &self.songs[key.0]
    }

    /// Key of the artist that made the given album.
    pub fn artist_from_album(&self, key: &AlbumKey) -> (r: ArtistKey)
        requires
            key.0 < self.albums@.len(),
        ensures
            r == self.albums@[key.0 as int].artist,
    {
        self.albums[key.0].artist
    }

    /// Key of the album that holds the given song.
    pub fn album_from_song(&self, key: &SongKey) -> (r: AlbumKey)
        requires
            key.0 < self.songs@.len(),
        ensures
            r == self.songs@[key.0 as int].album,
    {
        self.songs[key.0].album
    }

    /// Key of the artist that made the given song.
    pub fn artist_from_song(&self, key: &SongKey) -> (r: ArtistKey)
        requires
            self.wf(),
            key.0 < self.songs@.len(),
        ensures
            r == self.albums@[self.songs@[key.0 as int].album.0 as int].artist,
    {
        let album = self.songs[key.0].album;
        self.albums[album.0].artist
    }

    /// The artist, album and song records reached from a song key.
    pub fn walk(&self, key: SongKey) -> (r: (&Artist, &Album, &Song))
        requires
            self.wf(),
            key.0 < self.songs@.len(),
        ensures
            *r.2 == self.songs@[key.0 as int],
            *r.1 == self.albums@[self.songs@[key.0 as int].album.0 as int],
            *r.0 == self.artists@[self.albums@[self.songs@[key.0 as int].album.0 as int].artist.0 as int],
    {
        let song = &self.songs[key.0];
        let album = &self.albums[song.album.0];
        let artist = &self.artists[album.artist.0];
        (artist, album, song)
    }

    /// Every song key by the given artist, in the artist's stored order.
    pub fn all_songs(&self, key: ArtistKey) -> (r: Vec<SongKey>)
        requires
            key.0 < self.artists@.len(),
        ensures
            r@ == self.artists@[key.0 as int].songs@,
    {
        self.artists[key.0].songs.clone()
    }
}

/// Timestamp of the image cache on disk: images in its directory were
/// rendered from the catalog snapshot created at this UNIX time.
#[derive(Clone, Copy, Debug, PartialEq, Eq, Structural)]
pub struct ImageCache(pub u64);

} // verus!
