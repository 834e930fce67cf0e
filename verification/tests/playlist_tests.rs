use termusic_daemon::config::{Loop, Settings};
use termusic_daemon::playlist::{Playlist, PlaylistError, Status};
use termusic_daemon::track::Track;

fn track(uri: &str, secs: i64) -> Track {
    Track::new_music(uri.to_string(), secs)
}

fn playlist_of(uris: &[&str], current: Option<usize>, mode: Loop) -> Playlist {
    let mut config = Settings::new();
    config.player_loop_mode = mode;
    let tracks: Vec<Track> = uris.iter().map(|u| track(u, 60)).collect();
    Playlist::new(&config, current, tracks)
}

#[test]
fn status_encodes_and_decodes() {
    assert_eq!(Status::Stopped.as_u32(), 0);
    assert_eq!(Status::Running.as_u32(), 1);
    assert_eq!(Status::Paused.as_u32(), 2);
    assert_eq!(Status::from_u32(1), Status::Running);
    assert_eq!(Status::from_u32(2), Status::Paused);
    assert_eq!(Status::from_u32(0), Status::Stopped);
    assert_eq!(Status::from_u32(7), Status::Stopped);
}

#[test]
fn cycle_loop_mode_has_period_three() {
    let mut p = playlist_of(&["/a"], None, Loop::Random);
    let m1 = p.cycle_loop_mode();
    let m2 = p.cycle_loop_mode();
    let m3 = p.cycle_loop_mode();
    assert_eq!(m1, Loop::Playlist);
    assert_eq!(m2, Loop::Single);
    assert_eq!(m3, Loop::Random);
    assert_ne!(m1, Loop::Random);
    assert_ne!(m2, m1);
    assert_ne!(m3, m2);
}

#[test]
fn next_then_previous_restores_current() {
    let mut p = playlist_of(&["/a", "/b", "/c"], Some(1), Loop::Playlist);
    p.next();
    assert_eq!(p.get_current_track_index(), Some(2));
    p.previous();
    assert_eq!(p.get_current_track_index(), Some(1));
}

#[test]
fn previous_wraps_with_empty_history() {
    let mut p = playlist_of(&["/a", "/b", "/c"], Some(0), Loop::Playlist);
    p.previous();
    assert_eq!(p.get_current_track_index(), Some(2));
}

#[test]
fn previous_twice_follows_history() {
    let mut p = playlist_of(&["/a", "/b", "/c", "/d", "/e", "/f"], Some(5), Loop::Playlist);
    p.played_index = vec![3, 4];
    p.previous();
    assert_eq!(p.get_current_track_index(), Some(4));
    p.previous();
    assert_eq!(p.get_current_track_index(), Some(3));
}

#[test]
fn random_next_on_single_track_returns_it() {
    let mut p = playlist_of(&["/only"], Some(0), Loop::Random);
    let t = p.fetch_next_track().expect("a next track exists");
    assert_eq!(t.file().map(|s| s.as_str()), Some("/only"));
    p.next();
    assert_eq!(p.get_current_track_index(), Some(0));
}

#[test]
fn random_next_avoids_current_track() {
    for _ in 0..20 {
        let mut p = playlist_of(&["/a", "/b"], Some(0), Loop::Random);
        p.next();
        assert_eq!(p.get_current_track_index(), Some(1));
    }
}

#[test]
fn single_mode_repeats_current() {
    let mut p = playlist_of(&["/a", "/b"], Some(1), Loop::Single);
    p.next();
    assert_eq!(p.get_current_track_index(), Some(1));
}

#[test]
fn fetch_next_track_without_current_is_none() {
    let mut p = playlist_of(&["/a"], None, Loop::Playlist);
    assert!(p.fetch_next_track().is_none());
}

#[test]
fn swap_down_moves_track_and_pointer() {
    let mut p = playlist_of(&["/a", "/b", "/c"], Some(0), Loop::Playlist);
    p.swap_down(0);
    let files: Vec<String> = p.tracks().iter().map(|t| t.file().unwrap().clone()).collect();
    assert_eq!(files, vec!["/b".to_string(), "/a".to_string(), "/c".to_string()]);
    assert_eq!(p.get_current_track_index(), Some(1));
}

#[test]
fn swap_up_moves_track_and_pointer() {
    let mut p = playlist_of(&["/a", "/b", "/c"], Some(2), Loop::Playlist);
    p.swap_up(2);
    let files: Vec<String> = p.tracks().iter().map(|t| t.file().unwrap().clone()).collect();
    assert_eq!(files, vec!["/a".to_string(), "/c".to_string(), "/b".to_string()]);
    assert_eq!(p.get_current_track_index(), Some(1));
}

#[test]
fn swap_out_of_range_changes_nothing() {
    let mut p = playlist_of(&["/a", "/b"], Some(0), Loop::Playlist);
    p.swap_down(5);
    p.swap_up(0);
    let files: Vec<String> = p.tracks().iter().map(|t| t.file().unwrap().clone()).collect();
    assert_eq!(files, vec!["/a".to_string(), "/b".to_string()]);
    assert_eq!(p.get_current_track_index(), Some(0));
}

#[test]
fn remove_shifts_current_index() {
    let mut p = playlist_of(&["/a", "/b", "/c"], Some(1), Loop::Playlist);
    p.remove(0);
    assert_eq!(p.len(), 2);
    assert_eq!(p.get_current_track_index(), Some(0));
    p.remove(0);
    assert_eq!(p.get_current_track_index(), None);
}

#[test]
fn clear_empties_everything() {
    let mut p = playlist_of(&["/a", "/b"], Some(1), Loop::Playlist);
    p.clear();
    assert!(p.is_empty());
    assert_eq!(p.get_current_track_index(), None);
}

#[test]
fn add_playlist_front_shifts_current() {
    let mut p = playlist_of(&["/a", "/b"], Some(1), Loop::Playlist);
    p.add_playlist_front = true;
    p.add_playlist(vec![track("/x", 10), track("/y", 10)]);
    let files: Vec<String> = p.tracks().iter().map(|t| t.file().unwrap().clone()).collect();
    assert_eq!(
        files,
        vec!["/x".to_string(), "/y".to_string(), "/a".to_string(), "/b".to_string()]
    );
    assert_eq!(p.get_current_track_index(), Some(3));
}

#[test]
fn add_playlist_back_keeps_current() {
    let mut p = playlist_of(&["/a"], Some(0), Loop::Playlist);
    p.add_playlist(vec![track("/x", 10)]);
    assert_eq!(p.len(), 2);
    assert_eq!(p.get_current_track_index(), Some(0));
}

#[test]
fn add_playlist_front_on_empty_sets_current() {
    let mut p = playlist_of(&[], None, Loop::Playlist);
    p.add_playlist_front = true;
    p.add_playlist(vec![track("/x", 10)]);
    assert_eq!(p.get_current_track_index(), Some(0));
}

#[test]
fn add_episode_back() {
    let mut p = playlist_of(&["/a"], Some(0), Loop::Playlist);
    p.add_episode(Track::new_podcast("http://pod/ep1".to_string(), 30, None));
    assert_eq!(p.len(), 2);
    assert_eq!(p.tracks()[1].file().map(|s| s.as_str()), Some("http://pod/ep1"));
}

#[test]
fn shuffle_keeps_tracks_and_finds_current() {
    let mut p = playlist_of(&["/a", "/b", "/c", "/d"], Some(2), Loop::Playlist);
    p.current_track = Some(track("/c", 60));
    p.shuffle();
    assert_eq!(p.len(), 4);
    let mut files: Vec<String> = p.tracks().iter().map(|t| t.file().unwrap().clone()).collect();
    files.sort();
    assert_eq!(
        files,
        vec!["/a".to_string(), "/b".to_string(), "/c".to_string(), "/d".to_string()]
    );
    let idx = p.get_current_track_index().expect("current survives a shuffle");
    assert_eq!(p.tracks()[idx].file().map(|s| s.as_str()), Some("/c"));
}

#[test]
fn remove_deleted_items_rederives_current() {
    let mut p = playlist_of(&["/a", "/b", "/c"], Some(2), Loop::Playlist);
    let keep = vec![false, true, true];
    p.remove_deleted_items(&keep);
    assert_eq!(p.len(), 2);
    let idx = p.get_current_track_index().expect("current track survived");
    assert_eq!(p.tracks()[idx].file().map(|s| s.as_str()), Some("/c"));
    assert_eq!(idx, 1);
}

#[test]
fn remove_deleted_items_clears_gone_current() {
    let mut p = playlist_of(&["/a", "/b"], Some(0), Loop::Playlist);
    let keep = vec![false, true];
    p.remove_deleted_items(&keep);
    assert_eq!(p.get_current_track_index(), None);
}

#[test]
fn save_m3u_on_empty_fails() {
    let p = playlist_of(&[], None, Loop::Playlist);
    assert_eq!(p.save_m3u("/music"), Err(PlaylistError::NoTracks));
}

#[test]
fn save_m3u_writes_relative_paths() {
    let p = playlist_of(&["/music/a.mp3", "/music/sub/b.mp3"], None, Loop::Playlist);
    let m3u = p.save_m3u("/music").expect("non-empty playlist exports");
    assert_eq!(m3u, "#EXTM3U\na.mp3\nsub/b.mp3\n");
}

#[test]
fn get_current_track_prefers_podcast_localfile() {
    let mut config = Settings::new();
    config.player_loop_mode = Loop::Playlist;
    let pod = Track::new_podcast(
        "http://pod/ep1".to_string(),
        30,
        Some("/cache/ep1.mp3".to_string()),
    );
    let p = Playlist::new(&config, Some(0), vec![pod]);
    assert_eq!(p.get_current_track(true), Some("/cache/ep1.mp3".to_string()));
    assert_eq!(p.get_current_track(false), Some("http://pod/ep1".to_string()));
}

#[test]
fn out_of_range_persisted_index_is_dropped() {
    let p = playlist_of(&["/a"], Some(9), Loop::Playlist);
    assert_eq!(p.get_current_track_index(), None);
}

#[test]
fn toggle_add_front_flips() {
    let mut p = playlist_of(&[], None, Loop::Playlist);
    assert!(p.toggle_add_front());
    assert!(!p.toggle_add_front());
}

#[test]
fn current_track_as_mut_attaches_cached_path() {
    let mut config = Settings::new();
    config.player_loop_mode = Loop::Playlist;
    let pod = Track::new_podcast("http://pod/ep1".to_string(), 30, None);
    let mut p = Playlist::new(&config, Some(0), vec![pod]);
    let t = p.current_track_as_mut().expect("a current track exists");
    t.set_podcast_localfile("/cache/ep1.mp3".to_string());
    assert_eq!(p.get_current_track(true), Some("/cache/ep1.mp3".to_string()));
    let mut q = Playlist::new(&config, None, vec![]);
    assert!(q.current_track_as_mut().is_none());
}

#[test]
fn track_accessors() {
    let t = Track::new_music("/song.flac".to_string(), 245);
    assert_eq!(t.duration(), 245);
    assert_eq!(t.file().map(|s| s.as_str()), Some("/song.flac"));
    let u = t.clone();
    assert_eq!(u.file().map(|s| s.as_str()), Some("/song.flac"));
}

#[test]
fn next_without_current_records_no_history() {
    let mut p = playlist_of(&["/a", "/b"], None, Loop::Playlist);
    p.next();
    assert!(p.played_index.is_empty());
    assert_eq!(p.get_current_track_index(), None);
}

#[test]
fn armed_next_track_is_adopted_on_next() {
    let mut p = playlist_of(&["/a", "/b", "/c"], Some(0), Loop::Single);
    let t = p.fetch_next_track();
    assert!(t.is_some());
    p.next_track_index = 2;
    p.set_next_track(Some(&track("/c", 60)));
    p.next();
    assert_eq!(p.get_current_track_index(), Some(2));
    assert_eq!(p.played_index, vec![0]);
}
