use std::collections::VecDeque;

use shukusai::collection::{Album, AlbumKey, Artist, ArtistKey, Collection, Song, SongKey};
use shukusai::kernel::validate_restored_state;
use shukusai::restore::AudioStateRestore;
use shukusai::state::{AudioState, Repeat, Volume};

fn song(title: &str, album: usize, runtime: u32) -> Song {
    Song {
        title: title.to_string(),
        album: AlbumKey(album),
        runtime,
        sample_rate: 48000,
        path: format!("/music/{}.flac", title),
        extension: "flac".to_string(),
    }
}

/// Two artists; the first has songs "a" and "b", the second has "c".
fn old_catalog() -> Collection {
    Collection {
        artists: vec![
            Artist {
                name: "North".to_string(),
                albums: vec![AlbumKey(0)],
                songs: vec![SongKey(0), SongKey(1)],
            },
            Artist {
                name: "South".to_string(),
                albums: vec![AlbumKey(1)],
                songs: vec![SongKey(2)],
            },
        ],
        albums: vec![
            Album {
                title: "Early".to_string(),
                artist: ArtistKey(0),
                songs: vec![SongKey(0), SongKey(1)],
            },
            Album {
                title: "Late".to_string(),
                artist: ArtistKey(1),
                songs: vec![SongKey(2)],
            },
        ],
        songs: vec![song("a", 0, 120), song("b", 0, 90), song("c", 1, 60)],
        timestamp: 1,
        empty: false,
    }
}

/// The same songs after a rescan: "b" is gone, the others moved keys.
fn new_catalog() -> Collection {
    Collection {
        artists: vec![
            Artist {
                name: "South".to_string(),
                albums: vec![AlbumKey(0)],
                songs: vec![SongKey(0)],
            },
            Artist {
                name: "North".to_string(),
                albums: vec![AlbumKey(1)],
                songs: vec![SongKey(1)],
            },
        ],
        albums: vec![
            Album {
                title: "Late".to_string(),
                artist: ArtistKey(0),
                songs: vec![SongKey(0)],
            },
            Album {
                title: "Early".to_string(),
                artist: ArtistKey(1),
                songs: vec![SongKey(1)],
            },
        ],
        songs: vec![song("c", 0, 60), song("a", 1, 120)],
        timestamp: 2,
        empty: false,
    }
}

#[test]
fn validate_drops_unknown_song() {
    let c = old_catalog();
    let mut st = AudioState::new();
    st.song = Some(SongKey(7));
    validate_restored_state(&mut st, &c);
    assert_eq!(st.song, None);
}

#[test]
fn validate_drops_out_of_range_position() {
    let c = old_catalog();
    let mut st = AudioState::new();
    st.queue.push_back(SongKey(0));
    st.queue_idx = Some(3);
    validate_restored_state(&mut st, &c);
    assert_eq!(st.queue_idx, None);
    assert_eq!(st.queue.len(), 1);
}

#[test]
fn validate_clears_queue_with_unknown_key() {
    let c = old_catalog();
    let mut st = AudioState::new();
    st.queue.push_back(SongKey(0));
    st.queue.push_back(SongKey(9));
    validate_restored_state(&mut st, &c);
    assert_eq!(st.queue.len(), 0);
}

#[test]
fn validate_clamps_elapsed_and_volume() {
    let c = old_catalog();
    let mut st = AudioState::new();
    st.song = Some(SongKey(1));
    st.queue.push_back(SongKey(1));
    st.queue_idx = Some(0);
    st.elapsed = 500;
    st.runtime = 90;
    st.volume = Volume(240);
    validate_restored_state(&mut st, &c);
    assert_eq!(st.elapsed, 90);
    assert_eq!(st.volume, Volume(100));
    assert_eq!(st.song, Some(SongKey(1)));
    assert_eq!(st.queue_idx, Some(0));
}

#[test]
fn validate_drops_the_position_with_the_queue() {
    // One unknown key empties the queue; the position, the song and the
    // playing flag go with it, so the invariants hold outright.
    let c = Collection::new();
    let mut st = AudioState::new();
    st.queue.push_back(SongKey(0));
    st.queue_idx = Some(0);
    st.song = Some(SongKey(0));
    st.playing = true;
    validate_restored_state(&mut st, &c);
    assert_eq!(st.queue.len(), 0);
    assert_eq!(st.queue_idx, None);
    assert_eq!(st.song, None);
    assert!(!st.playing);
}

#[test]
fn validate_drops_a_position_naming_another_song() {
    let c = old_catalog();
    let mut st = AudioState::new();
    st.queue.push_back(SongKey(0));
    st.queue.push_back(SongKey(1));
    st.queue_idx = Some(0);
    st.song = Some(SongKey(1));
    validate_restored_state(&mut st, &c);
    assert_eq!(st.queue_idx, None);
    assert_eq!(st.song, Some(SongKey(1)));
    assert_eq!(st.queue.len(), 2);
}

#[test]
fn find_song_by_names() {
    let c = old_catalog();
    let d = ("North".to_string(), "Early".to_string(), "b".to_string());
    assert_eq!(c.find_song(&d), Some(SongKey(1)));
    let missing = ("North".to_string(), "Early".to_string(), "z".to_string());
    assert_eq!(c.find_song(&missing), None);
    let wrong_album = ("North".to_string(), "Late".to_string(), "b".to_string());
    assert_eq!(c.find_song(&wrong_album), None);
}

#[test]
fn describe_and_rebuild_on_the_same_catalog() {
    let c = old_catalog();
    let mut st = AudioState::new();
    st.queue = VecDeque::from(vec![SongKey(2), SongKey(0), SongKey(1)]);
    st.queue_idx = Some(1);
    st.song = Some(SongKey(0));
    st.elapsed = 30;
    st.runtime = 120;
    st.playing = true;
    st.repeat = Repeat::Queue;
    st.volume = Volume(55);
    let restore = AudioStateRestore::from_audio_state(&st, &c);
    let back = restore.into_audio_state(&c);
    assert_eq!(back.queue, st.queue);
    assert_eq!(back.queue_idx, Some(1));
    assert_eq!(back.song, Some(SongKey(0)));
    assert_eq!(back.elapsed, 30);
    assert_eq!(back.runtime, 120);
    assert!(back.playing);
    assert_eq!(back.repeat, Repeat::Queue);
    assert_eq!(back.volume, Volume(55));
}

#[test]
fn swap_drops_vanished_songs_and_remaps_keys() {
    let old_c = old_catalog();
    let new_c = new_catalog();
    let mut st = AudioState::new();
    // Queue: a, b, c by the old keys; b is current.
    st.queue = VecDeque::from(vec![SongKey(0), SongKey(1), SongKey(2)]);
    st.queue_idx = Some(1);
    st.song = Some(SongKey(1));
    st.elapsed = 10;
    st.runtime = 90;
    st.playing = true;
    let restore = AudioStateRestore::from_audio_state(&st, &old_c);
    let rebuilt = restore.into_audio_state(&new_c);
    // "a" and "c" survive under their new keys; "b" and the position are gone.
    assert_eq!(rebuilt.queue, VecDeque::from(vec![SongKey(1), SongKey(0)]));
    assert_eq!(rebuilt.queue_idx, None);
    assert_eq!(rebuilt.song, None);
    assert!(!rebuilt.playing);
    assert_eq!(rebuilt.elapsed, 0);
    assert_eq!(rebuilt.runtime, 0);
    // Every surviving key indexes the new catalog.
    for k in rebuilt.queue.iter() {
        assert!(k.0 < new_c.songs.len());
    }
}

#[test]
fn swap_follows_the_current_song_to_its_new_place() {
    let old_c = old_catalog();
    let new_c = new_catalog();
    let mut st = AudioState::new();
    st.queue = VecDeque::from(vec![SongKey(1), SongKey(0)]);
    st.queue_idx = Some(1);
    st.song = Some(SongKey(0));
    st.elapsed = 200;
    st.runtime = 120;
    st.playing = true;
    let restore = AudioStateRestore::from_audio_state(&st, &old_c);
    let rebuilt = restore.into_audio_state(&new_c);
    // Only "a" survives; it was current, so it stays current at its new
    // position, with the clock clamped to its runtime.
    assert_eq!(rebuilt.queue, VecDeque::from(vec![SongKey(1)]));
    assert_eq!(rebuilt.queue_idx, Some(0));
    assert_eq!(rebuilt.song, Some(SongKey(1)));
    assert_eq!(rebuilt.runtime, 120);
    assert_eq!(rebuilt.elapsed, 120);
    assert!(rebuilt.playing);
}

#[test]
fn collection_walk_and_key_conversions() {
    let c = old_catalog();
    let (artist, album, s) = c.walk(SongKey(2));
    assert_eq!(artist.name, "South");
    assert_eq!(album.title, "Late");
    assert_eq!(s.title, "c");
    assert_eq!(c.album_from_song(&SongKey(1)), AlbumKey(0));
    assert_eq!(c.artist_from_album(&AlbumKey(1)), ArtistKey(1));
    assert_eq!(c.artist_from_song(&SongKey(0)), ArtistKey(0));
    assert_eq!(c.all_songs(ArtistKey(0)), vec![SongKey(0), SongKey(1)]);
    assert!(c.valid_song(SongKey(2)));
    assert!(!c.valid_song(SongKey(3)));
    assert_eq!(c.index_song(&SongKey(1)).title, "b");
    assert_eq!(c.index_album(&AlbumKey(0)).title, "Early");
    assert_eq!(c.index_artist(&ArtistKey(1)).name, "South");
}

#[test]
fn empty_catalogs() {
    let c = Collection::new();
    assert!(c.empty);
    assert_eq!(c.songs.len(), 0);
    assert_eq!(c.timestamp, 0);
    let d = Collection::dummy();
    assert!(d.empty);
    assert_eq!(d.artists.len(), 0);
}
