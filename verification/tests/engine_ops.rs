use std::collections::VecDeque;

use shukusai::collection::{Album, AlbumKey, Artist, ArtistKey, Collection, Song, SongKey};
use shukusai::engine::{Audio, Command};
use shukusai::state::{Append, AudioState, Repeat, Seek, Volume};

use rand::SeedableRng;

fn song(title: &str, album: usize, runtime: u32) -> Song {
    Song {
        title: title.to_string(),
        album: AlbumKey(album),
        runtime,
        sample_rate: 44100,
        path: format!("/music/{}.flac", title),
        extension: "flac".to_string(),
    }
}

/// One artist, two albums: songs 0..=2 on the first, 3..=4 on the second.
fn catalog() -> Collection {
    Collection {
        artists: vec![Artist {
            name: "Artist A".to_string(),
            albums: vec![AlbumKey(0), AlbumKey(1)],
            songs: vec![SongKey(0), SongKey(1), SongKey(2), SongKey(3), SongKey(4)],
        }],
        albums: vec![
            Album {
                title: "First".to_string(),
                artist: ArtistKey(0),
                songs: vec![SongKey(0), SongKey(1), SongKey(2)],
            },
            Album {
                title: "Second".to_string(),
                artist: ArtistKey(0),
                songs: vec![SongKey(3), SongKey(4)],
            },
        ],
        songs: vec![
            song("a", 0, 100),
            song("b", 0, 100),
            song("c", 0, 100),
            song("d", 1, 100),
            song("e", 1, 100),
        ],
        timestamp: 0,
        empty: false,
    }
}

fn engine_with_queue(keys: &[usize], idx: Option<usize>) -> Audio {
    let mut st = AudioState::new();
    for k in keys {
        st.queue.push_back(SongKey(*k));
    }
    st.queue_idx = idx;
    let current = if let Some(i) = idx {
        st.song = Some(st.queue[i]);
        st.runtime = 100;
        true
    } else {
        false
    };
    Audio { state: st, current, pending_seek: None }
}

fn rng() -> rand::rngs::SmallRng {
    rand::rngs::SmallRng::seed_from_u64(7)
}

#[test]
fn back_to_previous_via_threshold() {
    let c = catalog();
    let mut a = engine_with_queue(&[0, 1, 2], Some(1));
    a.state.elapsed = 10;
    a.state.playing = true;
    a.apply(Command::Previous(None), 3, &mut rng(), &c);
    assert_eq!(a.pending_seek, Some(0));
    assert_eq!(a.state.queue_idx, Some(1));
    assert_eq!(a.state.song, Some(SongKey(1)));
    let to_seek = a.apply_pending_seek();
    assert_eq!(to_seek, Some(0));
    assert_eq!(a.state.elapsed, 0);
}

#[test]
fn back_from_early_position() {
    let c = catalog();
    let mut a = engine_with_queue(&[0, 1, 2], Some(1));
    a.state.elapsed = 1;
    a.apply(Command::Previous(None), 3, &mut rng(), &c);
    assert_eq!(a.state.queue_idx, Some(0));
    assert_eq!(a.state.song, Some(SongKey(0)));
    assert_eq!(a.state.elapsed, 0);
}

#[test]
fn queue_wrap_with_pause() {
    let c = catalog();
    let mut a = engine_with_queue(&[0, 1], Some(1));
    a.state.repeat = Repeat::QueuePause;
    a.state.playing = true;
    // End of stream on the last song: the decode loop advances by one.
    a.skip(1, &c);
    assert_eq!(a.state.queue_idx, Some(0));
    assert_eq!(a.state.song, Some(SongKey(0)));
    assert!(!a.state.playing);
}

#[test]
fn skip_overrun_repeat_off() {
    let c = catalog();
    let mut a = engine_with_queue(&[0, 1, 2], Some(0));
    a.state.playing = true;
    a.apply(Command::Skip(5), 3, &mut rng(), &c);
    assert_eq!(a.state.song, None);
    assert_eq!(a.state.queue_idx, None);
    assert!(!a.state.playing);
    assert_eq!(a.state.queue, VecDeque::from(vec![SongKey(0), SongKey(1), SongKey(2)]));
}

#[test]
fn add_album_at_front_with_offset() {
    let c = catalog();
    let mut a = engine_with_queue(&[], None);
    a.apply(
        Command::QueueAddAlbum(AlbumKey(0), Append::Front, false, true, 1),
        3,
        &mut rng(),
        &c,
    );
    assert_eq!(a.state.queue, VecDeque::from(vec![SongKey(0), SongKey(1), SongKey(2)]));
    assert_eq!(a.state.queue_idx, Some(1));
    assert_eq!(a.state.song, Some(SongKey(1)));
    assert!(a.state.playing);
}

#[test]
fn remove_range_containing_current() {
    let c = catalog();
    let mut a = engine_with_queue(&[0, 1, 2, 3, 4], Some(2));
    a.apply(Command::QueueRemoveRange(1, 4, true), 3, &mut rng(), &c);
    assert_eq!(a.state.queue, VecDeque::from(vec![SongKey(0), SongKey(4)]));
    assert_eq!(a.state.queue_idx, Some(0));
    assert_eq!(a.state.song, Some(SongKey(0)));
}

#[test]
fn remove_range_after_current_shifts_down() {
    let c = catalog();
    let mut a = engine_with_queue(&[0, 1, 2, 3, 4], Some(4));
    a.queue_remove_range(1, 3, false, &c);
    assert_eq!(a.state.queue, VecDeque::from(vec![SongKey(0), SongKey(3), SongKey(4)]));
    assert_eq!(a.state.queue_idx, Some(2));
    assert_eq!(a.state.song, Some(SongKey(4)));
}

#[test]
fn remove_range_bad_bounds_is_a_no_op() {
    let c = catalog();
    let mut a = engine_with_queue(&[0, 1, 2], Some(1));
    a.queue_remove_range(2, 2, true, &c);
    a.queue_remove_range(3, 4, true, &c);
    a.queue_remove_range(1, 9, true, &c);
    assert_eq!(a.state.queue.len(), 3);
    assert_eq!(a.state.queue_idx, Some(1));
}

#[test]
fn shuffle_preserves_membership() {
    let c = catalog();
    let mut a = engine_with_queue(&[0, 1, 2, 3, 4], Some(3));
    a.state.playing = true;
    let mut r = rng();
    a.apply(Command::Shuffle, 3, &mut r, &c);
    assert_eq!(a.state.queue.len(), 5);
    let mut keys: Vec<usize> = a.state.queue.iter().map(|k| k.0).collect();
    keys.sort();
    assert_eq!(keys, vec![0, 1, 2, 3, 4]);
    assert_eq!(a.state.queue_idx, Some(0));
    assert_eq!(a.state.song, Some(a.state.queue[0]));
    assert_eq!(a.state.elapsed, 0);
    assert!(a.state.playing);
}

#[test]
fn skip_then_back_returns() {
    let c = catalog();
    let mut a = engine_with_queue(&[0, 1, 2, 3, 4], Some(1));
    a.skip(2, &c);
    assert_eq!(a.state.queue_idx, Some(3));
    a.back(2, Some(0), 3, &c);
    assert_eq!(a.state.queue_idx, Some(1));
    assert_eq!(a.state.song, Some(SongKey(1)));
}

#[test]
fn repeat_song_restarts_current() {
    let c = catalog();
    let mut a = engine_with_queue(&[0, 1, 2], Some(1));
    a.state.repeat = Repeat::Song;
    a.state.elapsed = 42;
    a.skip(1, &c);
    assert_eq!(a.state.queue_idx, Some(1));
    assert_eq!(a.state.song, Some(SongKey(1)));
    assert_eq!(a.state.elapsed, 0);
}

#[test]
fn skip_wraps_with_repeat_queue() {
    let c = catalog();
    let mut a = engine_with_queue(&[2, 1], Some(1));
    a.state.repeat = Repeat::Queue;
    a.state.playing = true;
    a.skip(1, &c);
    assert_eq!(a.state.queue_idx, Some(0));
    assert_eq!(a.state.song, Some(SongKey(2)));
    assert!(a.state.playing);
}

#[test]
fn back_before_queue_start_plays_first() {
    let c = catalog();
    let mut a = engine_with_queue(&[3, 1, 2], Some(1));
    a.back(5, Some(0), 3, &c);
    assert_eq!(a.state.queue_idx, Some(0));
    assert_eq!(a.state.song, Some(SongKey(3)));
}

#[test]
fn toggle_play_pause_need_a_reader() {
    let c = catalog();
    let _ = &c;
    let mut a = engine_with_queue(&[], None);
    a.toggle();
    assert!(!a.state.playing);
    a.play();
    assert!(!a.state.playing);
    let mut b = engine_with_queue(&[0], Some(0));
    b.toggle();
    assert!(b.state.playing);
    b.toggle();
    assert!(!b.state.playing);
    b.play();
    assert!(b.state.playing);
    b.pause();
    assert!(!b.state.playing);
}

#[test]
fn volume_commands_clamp() {
    let c = catalog();
    let mut a = engine_with_queue(&[], None);
    a.apply(Command::Volume(Volume(200)), 3, &mut rng(), &c);
    assert_eq!(a.state.volume, Volume(100));
    let published = a.volume(Volume(64));
    assert_eq!(published, 64);
    assert_eq!(a.state.volume, Volume(64));
}

#[test]
fn seek_forward_past_end_advances() {
    let c = catalog();
    let mut a = engine_with_queue(&[0, 1], Some(0));
    a.state.elapsed = 90;
    a.seek(Seek::Forward, 20, &c);
    assert_eq!(a.state.queue_idx, Some(1));
    assert_eq!(a.state.song, Some(SongKey(1)));
    assert_eq!(a.pending_seek, None);
}

#[test]
fn seek_forward_within_song_is_pending() {
    let c = catalog();
    let mut a = engine_with_queue(&[0, 1], Some(0));
    a.state.elapsed = 30;
    a.seek(Seek::Forward, 20, &c);
    assert_eq!(a.pending_seek, Some(50));
    assert_eq!(a.state.queue_idx, Some(0));
}

#[test]
fn seek_backward_saturates_at_zero() {
    let c = catalog();
    let mut a = engine_with_queue(&[0], Some(0));
    a.state.elapsed = 5;
    a.seek(Seek::Backward, 20, &c);
    assert_eq!(a.pending_seek, Some(0));
    a.state.elapsed = 50;
    a.seek(Seek::Backward, 20, &c);
    assert_eq!(a.pending_seek, Some(30));
}

#[test]
fn seek_ignored_without_reader() {
    let c = catalog();
    let mut a = engine_with_queue(&[0], None);
    a.seek(Seek::Absolute, 10, &c);
    assert_eq!(a.pending_seek, None);
}

#[test]
fn refused_seek_is_dropped_without_moving_the_clock() {
    let c = catalog();
    let mut a = engine_with_queue(&[0], Some(0));
    a.state.elapsed = 40;
    a.seek(Seek::Absolute, 70, &c);
    assert_eq!(a.pending_seek, Some(70));
    a.clear_pending_seek();
    assert_eq!(a.pending_seek, None);
    assert_eq!(a.state.elapsed, 40);
}

#[test]
fn tick_clamps_to_runtime() {
    let c = catalog();
    let _ = &c;
    let mut a = engine_with_queue(&[0], Some(0));
    a.tick(42);
    assert_eq!(a.state.elapsed, 42);
    a.tick(4000);
    assert_eq!(a.state.elapsed, 100);
}

#[test]
fn queue_set_index_out_of_range_finishes() {
    let c = catalog();
    let mut a = engine_with_queue(&[0, 1], Some(0));
    a.queue_set_index(5, &c);
    assert_eq!(a.state.song, None);
    assert_eq!(a.state.queue_idx, None);
    assert!(!a.state.playing);
    a = engine_with_queue(&[0, 1], Some(0));
    a.queue_set_index(1, &c);
    assert_eq!(a.state.queue_idx, Some(1));
    assert_eq!(a.state.song, Some(SongKey(1)));
}

#[test]
fn clear_with_and_without_keeping() {
    let c = catalog();
    let _ = &c;
    let mut a = engine_with_queue(&[0, 1], Some(0));
    a.state.playing = true;
    a.clear(false);
    assert_eq!(a.state.queue.len(), 0);
    assert_eq!(a.state.song, None);
    assert_eq!(a.state.queue_idx, None);
    assert!(!a.state.playing);
    assert!(!a.current);

    let mut b = engine_with_queue(&[0, 1], Some(0));
    b.clear(true);
    assert_eq!(b.state.queue.len(), 0);
    assert!(b.state.playing);
    assert!(b.current);
}

#[test]
fn queue_add_song_back_starts_when_idle() {
    let c = catalog();
    let mut a = engine_with_queue(&[], None);
    a.queue_add_song(SongKey(2), Append::Back, false, false, &c);
    assert_eq!(a.state.queue, VecDeque::from(vec![SongKey(2)]));
    assert_eq!(a.state.queue_idx, Some(0));
    assert_eq!(a.state.song, Some(SongKey(2)));
    assert_eq!(a.state.runtime, 100);
    // A second append while a song is loaded leaves the position alone.
    a.queue_add_song(SongKey(3), Append::Back, false, false, &c);
    assert_eq!(a.state.queue_idx, Some(0));
    assert_eq!(a.state.song, Some(SongKey(2)));
}

#[test]
fn queue_add_back_while_idle_points_at_the_added_song() {
    // The everyday state after the queue ran out with repeat off: songs
    // left in the queue, nothing loaded. A tail append starts the added
    // song, at the position it actually occupies.
    let c = catalog();
    let mut a = engine_with_queue(&[0], None);
    a.queue_add_song(SongKey(2), Append::Back, false, false, &c);
    assert_eq!(a.state.queue, VecDeque::from(vec![SongKey(0), SongKey(2)]));
    assert_eq!(a.state.queue_idx, Some(1));
    assert_eq!(a.state.song, Some(SongKey(2)));
    assert_eq!(a.state.song, Some(a.state.queue[1]));
}

#[test]
fn queue_add_album_back_while_idle_respects_offset() {
    let c = catalog();
    let mut a = engine_with_queue(&[3], None);
    a.queue_add_album(AlbumKey(0), Append::Back, false, false, 1, &c);
    assert_eq!(
        a.state.queue,
        VecDeque::from(vec![SongKey(3), SongKey(0), SongKey(1), SongKey(2)])
    );
    assert_eq!(a.state.queue_idx, Some(2));
    assert_eq!(a.state.song, Some(SongKey(1)));
}

#[test]
fn queue_add_at_head_with_offset_points_at_that_song() {
    let c = catalog();
    let mut a = engine_with_queue(&[4], None);
    a.queue_add_album(AlbumKey(0), Append::Index(0), false, false, 2, &c);
    assert_eq!(
        a.state.queue,
        VecDeque::from(vec![SongKey(0), SongKey(1), SongKey(2), SongKey(4)])
    );
    assert_eq!(a.state.queue_idx, Some(2));
    assert_eq!(a.state.song, Some(SongKey(2)));
}

#[test]
fn queue_add_past_the_queue_does_not_force_play() {
    let c = catalog();
    // Nothing appended and nothing loaded: the forced play is dropped.
    let mut a = engine_with_queue(&[], None);
    a.queue_add_song(SongKey(1), Append::Index(3), false, true, &c);
    assert_eq!(a.state.queue.len(), 0);
    assert_eq!(a.state.song, None);
    assert!(!a.state.playing);
    // With a song loaded the forced play still takes effect.
    let mut b = engine_with_queue(&[0], Some(0));
    b.queue_add_song(SongKey(1), Append::Index(5), false, true, &c);
    assert_eq!(b.state.queue.len(), 1);
    assert_eq!(b.state.song, Some(SongKey(0)));
    assert!(b.state.playing);
}

#[test]
fn queue_add_before_current_shifts_the_position() {
    let c = catalog();
    let mut a = engine_with_queue(&[0, 1, 2], Some(2));
    a.queue_add_song(SongKey(4), Append::Index(1), false, false, &c);
    assert_eq!(
        a.state.queue,
        VecDeque::from(vec![SongKey(0), SongKey(4), SongKey(1), SongKey(2)])
    );
    assert_eq!(a.state.queue_idx, Some(3));
    assert_eq!(a.state.song, Some(SongKey(2)));
    assert_eq!(a.state.song, Some(a.state.queue[3]));
}

#[test]
fn queue_add_artist_inserts_at_index() {
    let c = catalog();
    let mut a = engine_with_queue(&[0, 1], Some(0));
    a.queue_add_artist(ArtistKey(0), Append::Index(1), false, false, 0, &c);
    assert_eq!(
        a.state.queue,
        VecDeque::from(vec![
            SongKey(0),
            SongKey(0),
            SongKey(1),
            SongKey(2),
            SongKey(3),
            SongKey(4),
            SongKey(1),
        ])
    );
    assert_eq!(a.state.queue_idx, Some(0));
}

#[test]
fn queue_add_playlist_empty_is_a_no_op() {
    let c = catalog();
    let mut a = engine_with_queue(&[0], Some(0));
    a.queue_add_playlist(&vec![], Append::Back, true, true, 0, &c);
    assert_eq!(a.state.queue.len(), 1);
    assert_eq!(a.state.song, Some(SongKey(0)));
}

#[test]
fn queue_add_playlist_with_clear() {
    let c = catalog();
    let mut a = engine_with_queue(&[0, 1], Some(1));
    a.queue_add_playlist(&vec![SongKey(3), SongKey(4)], Append::Back, true, false, 0, &c);
    assert_eq!(a.state.queue, VecDeque::from(vec![SongKey(3), SongKey(4)]));
    assert_eq!(a.state.queue_idx, Some(0));
    assert_eq!(a.state.song, Some(SongKey(3)));
    assert!(!a.state.playing);
}

#[test]
fn restore_audio_state_re_seeks() {
    let c = catalog();
    let mut saved = AudioState::new();
    saved.queue.push_back(SongKey(2));
    saved.queue_idx = Some(0);
    saved.song = Some(SongKey(2));
    saved.elapsed = 30;
    saved.runtime = 100;
    saved.playing = true;
    saved.volume = Volume(80);
    let mut a = Audio::new(AudioState::new());
    let published = a.restore_audio_state(&saved, &c);
    assert_eq!(published, 80);
    assert_eq!(a.state.song, Some(SongKey(2)));
    assert_eq!(a.pending_seek, Some(30));
    assert!(a.current);
}
