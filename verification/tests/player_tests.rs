use termusic_daemon::player::{Player, PlayerError};
use termusic_daemon::track::Track;

#[test]
fn volume_up_saturates_at_hundred() {
    let mut p = Player::new(false);
    p.set_volume(80);
    p.volume_up();
    assert_eq!(p.volume(), 90);
    p.set_volume(98);
    p.volume_up();
    assert_eq!(p.volume(), 100);
    p.volume_up();
    assert_eq!(p.volume(), 100);
}

#[test]
fn volume_down_saturates_at_zero() {
    let mut p = Player::new(false);
    p.set_volume(15);
    p.volume_down();
    assert_eq!(p.volume(), 5);
    p.volume_down();
    assert_eq!(p.volume(), 0);
}

#[test]
fn speed_steps_clamp() {
    let mut p = Player::new(false);
    assert_eq!(p.speed(), 10);
    p.speed_up();
    assert_eq!(p.speed(), 11);
    p.set_speed(30);
    p.speed_up();
    assert_eq!(p.speed(), 30);
    p.set_speed(1);
    p.speed_down();
    assert_eq!(p.speed(), 1);
}

#[test]
fn seek_forward_then_back_restores_position() {
    let mut p = Player::new(false);
    p.add_and_play(&Track::new_music("/a.mp3".to_string(), 300));
    p.seek_to(100);
    assert!(p.seek(30).is_ok());
    assert_eq!(p.get_progress().0, 130);
    assert!(p.seek(-30).is_ok());
    assert_eq!(p.get_progress().0, 100);
}

#[test]
fn seek_past_end_is_refused() {
    let mut p = Player::new(false);
    p.add_and_play(&Track::new_music("/a.mp3".to_string(), 60));
    p.seek_to(50);
    assert_eq!(p.seek(30), Err(PlayerError::SeekOutOfRange));
    assert_eq!(p.get_progress().0, 50);
}

#[test]
fn seek_before_start_clamps_to_zero() {
    let mut p = Player::new(false);
    p.add_and_play(&Track::new_music("/a.mp3".to_string(), 60));
    p.seek_to(10);
    assert!(p.seek(-30).is_ok());
    assert_eq!(p.get_progress().0, 0);
}

#[test]
fn seek_to_clamps_into_track() {
    let mut p = Player::new(false);
    p.add_and_play(&Track::new_music("/a.mp3".to_string(), 120));
    p.seek_to(500);
    assert_eq!(p.get_progress().0, 120);
    p.seek_to(-4);
    assert_eq!(p.get_progress().0, 0);
}

#[test]
fn add_and_play_without_gapless_replaces_queue() {
    let mut p = Player::new(false);
    p.add_and_play(&Track::new_music("/a.mp3".to_string(), 100));
    p.add_and_play(&Track::new_music("/b.mp3".to_string(), 200));
    assert_eq!(p.sink.len(), 1);
    assert_eq!(p.sink.queue[0].duration, 200);
    assert_eq!(p.get_progress(), (0, 200));
}

#[test]
fn enqueue_next_stages_behind_current() {
    let mut p = Player::new(true);
    p.add_and_play(&Track::new_music("/a.mp3".to_string(), 100));
    let d = p.enqueue_next(&Track::new_music("/b.mp3".to_string(), 200));
    assert_eq!(d, 200);
    assert_eq!(p.sink.len(), 2);
    assert_eq!(p.get_progress(), (0, 100));
}

#[test]
fn pause_resume_round_trip() {
    let mut p = Player::new(false);
    p.pause();
    assert!(p.is_paused());
    p.resume();
    assert!(!p.is_paused());
}
