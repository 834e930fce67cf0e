use termusic_daemon::config::{LastPosition, Loop, SeekStep, Settings};
use termusic_daemon::daemon::{handle_command, Effect, Reply};
use termusic_daemon::playback::{GeneralPlayer, PlayAction, PlayerCmd};
use termusic_daemon::playlist::{Playlist, Status};
use termusic_daemon::track::Track;

fn track(uri: &str, secs: i64) -> Track {
    Track::new_music(uri.to_string(), secs)
}

fn player_of(uris_secs: &[(&str, i64)], current: Option<usize>, config: &Settings) -> GeneralPlayer {
    let tracks: Vec<Track> = uris_secs.iter().map(|(u, d)| track(u, *d)).collect();
    let playlist = Playlist::new(config, current, tracks);
    GeneralPlayer::new(config, playlist)
}

#[test]
fn eos_cycles_through_playlist_and_wraps() {
    let mut config = Settings::new();
    config.player_loop_mode = Loop::Playlist;
    let mut p = player_of(&[("/a", 3), ("/b", 3), ("/c", 3)], Some(0), &config);
    let (_, _) = handle_command(&mut p, &PlayerCmd::Eos, 1);
    assert_eq!(p.playlist.get_current_track_index(), Some(1));
    assert_eq!(p.playlist.status(), Status::Running);
    let (_, _) = handle_command(&mut p, &PlayerCmd::Eos, 1);
    assert_eq!(p.playlist.get_current_track_index(), Some(2));
    let (_, _) = handle_command(&mut p, &PlayerCmd::Eos, 1);
    assert_eq!(p.playlist.get_current_track_index(), Some(0));
}

#[test]
fn eos_on_empty_playlist_stops() {
    let config = Settings::new();
    let mut p = player_of(&[], None, &config);
    let (reply, effect) = handle_command(&mut p, &PlayerCmd::Eos, 1);
    assert_eq!(reply, Reply::Silent);
    assert!(matches!(effect, Effect::Noop));
    assert_eq!(p.playlist.status(), Status::Stopped);
}

#[test]
fn next_on_empty_playlist_stops_without_crash() {
    let config = Settings::new();
    let mut p = player_of(&[], None, &config);
    p.next();
    assert_eq!(p.playlist.status(), Status::Stopped);
}

#[test]
fn restore_last_position_resumes_then_resets() {
    let mut config = Settings::new();
    config.player_remember_last_played_position = LastPosition::Auto;
    config.player_loop_mode = Loop::Playlist;
    let mut p = player_of(&[("/long.mp3", 600)], Some(0), &config);
    p.player.total_duration = 600;
    p.player.position = 120;
    p.player_save_last_position();
    assert_eq!(p.db.get_last_position("/long.mp3"), Some(120));
    p.stop();
    let action = p.start_play();
    assert!(matches!(action, PlayAction::Load(_)));
    assert_eq!(p.player.position, 120);
    assert_eq!(p.db.get_last_position("/long.mp3"), Some(0));
}

#[test]
fn auto_policy_skips_short_tracks() {
    let mut config = Settings::new();
    config.player_remember_last_played_position = LastPosition::Auto;
    let mut p = player_of(&[("/short.mp3", 120)], Some(0), &config);
    p.player.total_duration = 120;
    p.player.position = 40;
    p.player_save_last_position();
    assert_eq!(p.db.get_last_position("/short.mp3"), None);
}

#[test]
fn gapless_about_to_finish_arms_next_and_eos_hands_off() {
    let mut config = Settings::new();
    config.player_gapless = true;
    config.player_loop_mode = Loop::Playlist;
    let mut p = player_of(&[("/a", 30), ("/b", 40)], Some(0), &config);
    p.need_proceed_to_next = false;
    let action = p.start_play();
    assert!(matches!(action, PlayAction::Load(_)));
    assert_eq!(p.player.sink.len(), 1);

    let (_, _) = handle_command(&mut p, &PlayerCmd::AboutToFinish, 1);
    assert!(p.playlist.has_next_track());
    assert_eq!(p.player.sink.len(), 2);
    let (_, _) = handle_command(&mut p, &PlayerCmd::DurationNext(40), 1);

    let (_, effect) = handle_command(&mut p, &PlayerCmd::Eos, 1);
    assert!(matches!(effect, Effect::Play(PlayAction::Gapless)));
    assert_eq!(p.playlist.get_current_track_index(), Some(1));
    assert!(!p.playlist.has_next_track());
    assert_eq!(p.player.sink.len(), 2);
    assert_eq!(p.player.total_duration, 40);
}

#[test]
fn about_to_finish_without_gapless_does_nothing() {
    let mut config = Settings::new();
    config.player_gapless = false;
    let mut p = player_of(&[("/a", 30), ("/b", 40)], Some(0), &config);
    let (_, _) = handle_command(&mut p, &PlayerCmd::AboutToFinish, 1);
    assert!(!p.playlist.has_next_track());
}

#[test]
fn volume_up_replies_saturating() {
    let config = Settings::new();
    let mut p = player_of(&[("/a", 30)], Some(0), &config);
    p.set_volume(80);
    let (reply, _) = handle_command(&mut p, &PlayerCmd::VolumeUp, 1);
    assert_eq!(reply, Reply::Volume(90));
    p.set_volume(98);
    let (reply, _) = handle_command(&mut p, &PlayerCmd::VolumeUp, 1);
    assert_eq!(reply, Reply::Volume(100));
}

#[test]
fn volume_down_replies() {
    let config = Settings::new();
    let mut p = player_of(&[], None, &config);
    p.set_volume(5);
    let (reply, _) = handle_command(&mut p, &PlayerCmd::VolumeDown, 1);
    assert_eq!(reply, Reply::Volume(0));
}

#[test]
fn auto_seek_step_depends_on_track_length() {
    let mut config = Settings::new();
    config.player_seek_step = SeekStep::Auto;
    let mut p = player_of(&[("/five-minutes.mp3", 300)], Some(0), &config);
    p.player.total_duration = 300;
    let (_, _) = handle_command(&mut p, &PlayerCmd::SeekForward, 1);
    assert_eq!(p.player.position, 5);

    let mut q = player_of(&[("/twenty-minutes.mp3", 1200)], Some(0), &config);
    q.player.total_duration = 1200;
    let (_, _) = handle_command(&mut q, &PlayerCmd::SeekForward, 1);
    assert_eq!(q.player.position, 30);
}

#[test]
fn seek_forward_then_back_within_track() {
    let mut config = Settings::new();
    config.player_seek_step = SeekStep::Short;
    let mut p = player_of(&[("/a.mp3", 300)], Some(0), &config);
    p.player.total_duration = 300;
    p.player.position = 100;
    assert!(p.seek_relative(true).is_ok());
    assert_eq!(p.player.position, 105);
    assert!(p.seek_relative(false).is_ok());
    assert_eq!(p.player.position, 100);
}

#[test]
fn toggle_pause_twice_returns_to_running() {
    let config = Settings::new();
    let mut p = player_of(&[("/a", 30)], Some(0), &config);
    p.playlist.set_status(Status::Running);
    let (_, _) = handle_command(&mut p, &PlayerCmd::TogglePause, 1);
    assert_eq!(p.playlist.status(), Status::Paused);
    assert!(p.player.is_paused());
    let (_, _) = handle_command(&mut p, &PlayerCmd::TogglePause, 1);
    assert_eq!(p.playlist.status(), Status::Running);
    assert!(!p.player.is_paused());
}

#[test]
fn toggle_pause_on_stopped_is_a_no_op() {
    let config = Settings::new();
    let mut p = player_of(&[("/a", 30)], Some(0), &config);
    let (_, _) = handle_command(&mut p, &PlayerCmd::TogglePause, 1);
    assert_eq!(p.playlist.status(), Status::Stopped);
    let (_, _) = handle_command(&mut p, &PlayerCmd::TogglePause, 1);
    assert_eq!(p.playlist.status(), Status::Stopped);
}

#[test]
fn cycle_loop_replies_with_new_mode() {
    let mut config = Settings::new();
    config.player_loop_mode = Loop::Random;
    let mut p = player_of(&[], None, &config);
    let (reply, _) = handle_command(&mut p, &PlayerCmd::CycleLoop, 1);
    assert_eq!(reply, Reply::LoopMode(Loop::Playlist));
}

#[test]
fn status_progress_pid_and_gapless_replies() {
    let mut config = Settings::new();
    config.player_gapless = false;
    let mut p = player_of(&[("/a", 30)], Some(0), &config);
    p.player.position = 7;
    p.player.total_duration = 30;

    let (reply, _) = handle_command(&mut p, &PlayerCmd::FetchStatus, 1);
    assert_eq!(reply, Reply::PlayStatus(Status::Stopped));

    let (reply, _) = handle_command(&mut p, &PlayerCmd::GetProgress, 1);
    assert_eq!(reply, Reply::Progress(7, 30, Some(0)));

    let (reply, _) = handle_command(&mut p, &PlayerCmd::ProcessID, 4242);
    assert_eq!(reply, Reply::Pid(4242));

    let (reply, _) = handle_command(&mut p, &PlayerCmd::ToggleGapless, 1);
    assert_eq!(reply, Reply::Gapless(true));
    assert!(p.config.player_gapless);
}

#[test]
fn speed_commands_reply() {
    let config = Settings::new();
    let mut p = player_of(&[], None, &config);
    let (reply, _) = handle_command(&mut p, &PlayerCmd::SpeedUp, 1);
    assert_eq!(reply, Reply::Speed(11));
    let (reply, _) = handle_command(&mut p, &PlayerCmd::SpeedDown, 1);
    assert_eq!(reply, Reply::Speed(10));
}

#[test]
fn tick_auto_starts_a_stopped_nonempty_playlist() {
    let mut config = Settings::new();
    config.player_loop_mode = Loop::Playlist;
    let mut p = player_of(&[("/a", 30)], Some(0), &config);
    let (_, effect) = handle_command(&mut p, &PlayerCmd::Tick, 1);
    assert!(matches!(effect, Effect::Play(PlayAction::Load(_))));
    assert_eq!(p.playlist.status(), Status::Running);
    let (_, effect) = handle_command(&mut p, &PlayerCmd::Tick, 1);
    assert!(matches!(effect, Effect::Noop));
}

#[test]
fn reload_commands_return_effects() {
    let config = Settings::new();
    let mut p = player_of(&[], None, &config);
    let (_, effect) = handle_command(&mut p, &PlayerCmd::ReloadConfig, 1);
    assert!(matches!(effect, Effect::ReloadConfig));
    let (_, effect) = handle_command(&mut p, &PlayerCmd::ReloadPlaylist, 1);
    assert!(matches!(effect, Effect::ReloadPlaylist));
    let mut new_config = Settings::new();
    new_config.player_seek_step = SeekStep::Long;
    p.set_config(&new_config);
    assert_eq!(p.config.player_seek_step, SeekStep::Long);
    p.reload_tracks(Some(0), vec![track("/n.mp3", 10)]);
    assert_eq!(p.playlist.len(), 1);
}

#[test]
fn play_selected_plays_the_selection_without_advancing() {
    let mut config = Settings::new();
    config.player_loop_mode = Loop::Playlist;
    let mut p = player_of(&[("/a", 3), ("/b", 3), ("/c", 3)], Some(1), &config);
    let (_, _) = handle_command(&mut p, &PlayerCmd::PlaySelected, 1);
    assert!(!p.need_proceed_to_next);
    let action = p.start_play();
    assert!(matches!(action, PlayAction::Load(_)));
    assert_eq!(p.playlist.get_current_track_index(), Some(1));
}

#[test]
fn skip_previous_steps_back() {
    let mut config = Settings::new();
    config.player_loop_mode = Loop::Playlist;
    let mut p = player_of(&[("/a", 3), ("/b", 3)], Some(0), &config);
    p.playlist.played_index = vec![1];
    let (_, _) = handle_command(&mut p, &PlayerCmd::SkipPrevious, 1);
    assert_eq!(p.playlist.get_current_track_index(), Some(1));
    assert!(!p.need_proceed_to_next);
}

#[test]
fn position_store_keeps_latest_per_key() {
    let config = Settings::new();
    let mut p = player_of(&[], None, &config);
    p.db.set_last_position("/a", 10);
    p.db.set_last_position("/b", 20);
    p.db.set_last_position("/a", 30);
    assert_eq!(p.db.get_last_position("/a"), Some(30));
    assert_eq!(p.db.get_last_position("/b"), Some(20));
    assert_eq!(p.db.get_last_position("/c"), None);
}

#[test]
fn gapless_toggled_on_at_runtime_still_hands_off() {
    let mut config = Settings::new();
    config.player_gapless = false;
    config.player_loop_mode = Loop::Playlist;
    let mut p = player_of(&[("/a", 30), ("/b", 40)], Some(0), &config);
    p.need_proceed_to_next = false;
    let action = p.start_play();
    assert!(matches!(action, PlayAction::Load(_)));

    let (reply, _) = handle_command(&mut p, &PlayerCmd::ToggleGapless, 1);
    assert_eq!(reply, Reply::Gapless(true));
    let (_, _) = handle_command(&mut p, &PlayerCmd::AboutToFinish, 1);
    assert!(p.playlist.has_next_track());

    let (_, effect) = handle_command(&mut p, &PlayerCmd::Eos, 1);
    assert!(matches!(effect, Effect::Play(PlayAction::Gapless)));
    assert_eq!(p.playlist.get_current_track_index(), Some(1));
}
