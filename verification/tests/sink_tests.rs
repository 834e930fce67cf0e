use termusic_daemon::sink::{QueuedSound, Sink, SourceChain};

fn sound(duration: i64) -> QueuedSound {
    QueuedSound { duration }
}

fn chain() -> SourceChain {
    SourceChain { volume: 100, paused: false, speed: 10, stopped: false, elapsed: 0 }
}

#[test]
fn sound_count_tracks_queue_through_operations() {
    let mut s = Sink::new();
    assert_eq!(s.len(), 0);
    s.append(sound(10));
    assert_eq!(s.len(), 1);
    assert_eq!(s.queue.len(), s.len());
    s.append(sound(20));
    assert_eq!(s.len(), 2);
    assert_eq!(s.queue.len(), s.len());
    s.skip_one();
    assert_eq!(s.len(), 2);
    assert_eq!(s.controls.to_clear, 1);
    let _ = s.source_ended();
    assert_eq!(s.len(), 1);
    assert_eq!(s.queue.len(), s.len());
    s.clear();
    assert_eq!(s.len(), 0);
    assert_eq!(s.queue.len(), 0);
}

#[test]
fn skip_one_never_exceeds_queued_count() {
    let mut s = Sink::new();
    s.append(sound(10));
    s.skip_one();
    s.skip_one();
    s.skip_one();
    assert_eq!(s.controls.to_clear, 1);
}

#[test]
fn clear_drains_then_pauses_and_append_resumes() {
    let mut s = Sink::new();
    s.append(sound(10));
    s.append(sound(20));
    s.clear();
    assert_eq!(s.len(), 0);
    assert!(s.is_paused());
    s.append(sound(30));
    assert!(!s.controls.stopped);
    assert!(!s.is_paused());
    assert_eq!(s.len(), 1);
    assert_eq!(s.queue[0].duration, 30);
}

#[test]
fn append_on_stopped_sink_drains_old_queue() {
    let mut s = Sink::new();
    s.append(sound(10));
    s.append(sound(20));
    s.stop();
    s.append(sound(30));
    assert_eq!(s.len(), 1);
    assert_eq!(s.queue[0].duration, 30);
    assert!(!s.controls.stopped);
}

#[test]
fn tick_applies_last_written_controls() {
    let mut s = Sink::new();
    let mut c = chain();
    s.set_volume(37);
    s.set_speed(15);
    s.pause();
    s.tick_control(&mut c);
    assert_eq!(c.volume, 37);
    assert_eq!(c.speed, 15);
    assert!(c.paused);
    assert!(!c.stopped);
}

#[test]
fn tick_consumes_pending_seek() {
    let mut s = Sink::new();
    let mut c = chain();
    s.seek(42);
    assert!(!s.is_paused());
    s.tick_control(&mut c);
    assert_eq!(c.elapsed, 42);
    assert_eq!(s.controls.seek, None);
    assert_eq!(s.elapsed(), 42);
}

#[test]
fn tick_observes_stop_first() {
    let mut s = Sink::new();
    let mut c = chain();
    s.set_volume(5);
    s.stop();
    s.tick_control(&mut c);
    assert!(c.stopped);
    assert_eq!(c.volume, 100);
}

#[test]
fn volume_and_speed_clamp() {
    let mut s = Sink::new();
    s.set_volume(250);
    assert_eq!(s.volume(), 100);
    s.set_volume(-5);
    assert_eq!(s.volume(), 0);
    s.set_speed(99);
    assert_eq!(s.speed(), 30);
    s.set_speed(0);
    assert_eq!(s.speed(), 1);
}

#[test]
fn message_on_end_fires_exactly_once() {
    let mut s = Sink::new();
    s.append(sound(10));
    s.append(sound(20));
    s.message_on_end();
    assert!(s.source_ended());
    assert!(!s.source_ended());
}

#[test]
fn toggle_playback_flips_pause() {
    let mut s = Sink::new();
    s.toggle_playback();
    assert!(s.is_paused());
    s.toggle_playback();
    assert!(!s.is_paused());
}
