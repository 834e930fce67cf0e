//! The backend player: a facade over the sink that also keeps the
//! position and total-duration clocks and the gapless flag.
use vstd::prelude::*;

use crate::sink::{append_post, Controls, QueuedSound, Sink, SinkV};
use crate::track::Track;

verus! {

/// Errors of the backend player.
#[derive(Clone, Copy, PartialEq, Eq, Structural, Debug)]
pub enum PlayerError {
    /// The seek target lies beyond the track, so the backend refuses it
    /// and the position stays unchanged.
    SeekOutOfRange,
}

/// The abstract state of the backend player.
pub struct PlayerV {
    pub sink: SinkV,
    pub position: i64,
    pub total_duration: i64,
    pub gapless: bool,
}

impl PlayerV {
    /// The invariant: a well-formed sink, and the position clock within
    /// the current track's duration.
    pub open spec fn wf(self) -> bool {
        &&& self.sink.wf()
        &&& 0 <= self.position <= self.total_duration
    }
}

/// The state after a successful relative seek by `offset`: the target —
/// never below zero — becomes both the pending sink seek and the position
/// clock, and a paused sink resumes.
pub open spec fn seek_post(p: PlayerV, offset: int) -> PlayerV {
    let target = if p.position + offset < 0 {
        0int
    } else {
        p.position + offset
    };
    PlayerV {
        sink: SinkV {
            controls: Controls { paused: false, seek: Some(target as i64), ..p.sink.controls },
            ..p.sink
        },
        position: target as i64,
        ..p
    }
}

/// The backend player.
pub struct Player {
    pub sink: Sink,
    pub position: i64,
    pub total_duration: i64,
    pub gapless: bool,
}

impl View for Player {
    type V = PlayerV;

    open spec fn view(&self) -> PlayerV {
        PlayerV {
            sink: self.sink@,
            position: self.position,
            total_duration: self.total_duration,
            gapless: self.gapless,
        }
    }
}

impl Player {
    /// A fresh backend over an idle sink.
    pub fn new(gapless: bool) -> (r: Player)
        ensures
            r@.wf(),
            r@.position == 0,
            r@.total_duration == 0,
            r@.gapless == gapless,
            r@.sink.sound_count == 0,
            r@.sink.controls.volume == 100,
            r@.sink.controls.speed == 10,
            !r@.sink.eos_armed,
            !r@.sink.controls.paused,
            !r@.sink.controls.stopped,
    {
        Player { sink: Sink::new(), position: 0, total_duration: 0, gapless }
    }

    /// The volume, in percent.
    pub fn volume(&self) -> (r: i64)
        ensures
            r == self@.sink.controls.volume,
    {
        self.sink.volume()
    }

    /// Sets the volume, clamped to 0..=100 percent.
    pub fn set_volume(&mut self, volume: i64)
        requires
            old(self)@.wf(),
        ensures
            final(self)@.wf(),
            final(self)@ == (PlayerV {
                sink: SinkV {
                    controls: Controls {
                        volume: if volume < 0 {
                            0i64
                        } else if volume > 100 {
                            100i64
                        } else {
                            volume
                        },
                        ..old(self)@.sink.controls
                    },
                    ..old(self)@.sink
                },
                ..old(self)@
            }),
    {
        self.sink.set_volume(volume);
    }

    /// Raises the volume one step of ten percent, saturating at 100.
    pub fn volume_up(&mut self)
        requires
            old(self)@.wf(),
        ensures
            final(self)@.wf(),
            final(self)@.sink.controls.volume == if old(self)@.sink.controls.volume + 10 > 100 {
                100int
            } else {
                old(self)@.sink.controls.volume + 10
            },
            final(self)@ == (PlayerV {
                sink: SinkV {
                    controls: Controls {
                        volume: final(self)@.sink.controls.volume,
                        ..old(self)@.sink.controls
                    },
                    ..old(self)@.sink
                },
                ..old(self)@
            }),
    {
        let v = self.sink.volume();
        self.set_volume(v + 10);
    }

    /// Lowers the volume one step of ten percent, saturating at 0.
    pub fn volume_down(&mut self)
        requires
            old(self)@.wf(),
        ensures
            final(self)@.wf(),
            final(self)@.sink.controls.volume == if old(self)@.sink.controls.volume - 10 < 0 {
                0int
            } else {
                old(self)@.sink.controls.volume - 10
            },
            final(self)@ == (PlayerV {
                sink: SinkV {
                    controls: Controls {
                        volume: final(self)@.sink.controls.volume,
                        ..old(self)@.sink.controls
                    },
                    ..old(self)@.sink
                },
                ..old(self)@
            }),
    {
        let v = self.sink.volume();
        self.set_volume(v - 10);
    }

    /// The playback rate, in tenths of the normal rate.
    pub fn speed(&self) -> (r: i64)
        ensures
            r == self@.sink.controls.speed,
    {
        self.sink.speed()
    }

    /// Sets the playback rate, clamped to 1..=30 tenths.
    pub fn set_speed(&mut self, speed: i64)
        requires
            old(self)@.wf(),
        ensures
            final(self)@.wf(),
            final(self)@ == (PlayerV {
                sink: SinkV {
                    controls: Controls {
                        speed: if speed < 1 {
                            1i64
                        } else if speed > 30 {
                            30i64
                        } else {
                            speed
                        },
                        ..old(self)@.sink.controls
                    },
                    ..old(self)@.sink
                },
                ..old(self)@
            }),
    {
        self.sink.set_speed(speed);
    }

    /// Raises the rate one tenth, saturating at 30.
    pub fn speed_up(&mut self)
        requires
            old(self)@.wf(),
        ensures
            final(self)@.wf(),
            final(self)@.sink.controls.speed == if old(self)@.sink.controls.speed + 1 > 30 {
                30int
            } else {
                old(self)@.sink.controls.speed + 1
            },
            final(self)@ == (PlayerV {
                sink: SinkV {
                    controls: Controls {
                        speed: final(self)@.sink.controls.speed,
                        ..old(self)@.sink.controls
                    },
                    ..old(self)@.sink
                },
                ..old(self)@
            }),
    {
        let s = self.sink.speed();
        self.set_speed(s + 1);
    }

    /// Lowers the rate one tenth, saturating at 1.
    pub fn speed_down(&mut self)
        requires
            old(self)@.wf(),
        ensures
            final(self)@.wf(),
            final(self)@.sink.controls.speed == if old(self)@.sink.controls.speed - 1 < 1 {
                1int
            } else {
                old(self)@.sink.controls.speed - 1
            },
            final(self)@ == (PlayerV {
                sink: SinkV {
                    controls: Controls {
                        speed: final(self)@.sink.controls.speed,
                        ..old(self)@.sink.controls
                    },
                    ..old(self)@.sink
                },
                ..old(self)@
            }),
    {
        let s = self.sink.speed();
        self.set_speed(s - 1);
    }

    /// Pauses the sink.
    pub fn pause(&mut self)
        ensures
            final(self)@ == (PlayerV {
                sink: SinkV {
                    controls: Controls { paused: true, ..old(self)@.sink.controls },
                    ..old(self)@.sink
                },
                ..old(self)@
            }),
    {
        self.sink.pause();
    }

    /// Resumes the sink.
    pub fn resume(&mut self)
        ensures
            final(self)@ == (PlayerV {
                sink: SinkV {
                    controls: Controls { paused: false, ..old(self)@.sink.controls },
                    ..old(self)@.sink
                },
                ..old(self)@
            }),
    {
        self.sink.play();
    }

    /// Whether the sink is paused.
    pub fn is_paused(&self) -> (r: bool)
        ensures
            r == self@.sink.controls.paused,
    {
        self.sink.is_paused()
    }

    /// Seeks by `offset` whole seconds relative to the position. A target
    /// past the track's end is refused and nothing changes; a target
    /// before the start is clamped to zero.
    pub fn seek(&mut self, offset: i64) -> (r: Result<(), PlayerError>)
        requires
            old(self)@.wf(),
        ensures
            final(self)@.wf(),
            r is Ok <==> old(self)@.position + offset <= old(self)@.total_duration,
            r is Ok ==> final(self)@ == seek_post(old(self)@, offset as int),
            r matches Err(e) ==> e == PlayerError::SeekOutOfRange && *final(self) == *old(self),
    {
        let target: i64 = if offset >= 0 {
            if self.position > self.total_duration - offset {
                return Err(PlayerError::SeekOutOfRange);
            }
            self.position + offset
        } else {
            let t = self.position + offset;
            if t < 0 {
                0
            } else {
                t
            }
        };
        self.sink.seek(target);
        self.position = target;
        Ok(())
    }

    /// Seeks to an absolute position, clamped into the track: below zero
    /// becomes zero, past the end becomes the end.
    pub fn seek_to(&mut self, position: i64)
        requires
            old(self)@.wf(),
        ensures
            final(self)@.wf(),
            final(self)@.position == if position < 0 {
                0int
            } else if position > old(self)@.total_duration {
                old(self)@.total_duration as int
            } else {
                position as int
            },
            final(self)@ == (PlayerV {
                sink: SinkV {
                    controls: Controls {
                        paused: false,
                        seek: Some(final(self)@.position),
                        ..old(self)@.sink.controls
                    },
                    ..old(self)@.sink
                },
                position: final(self)@.position,
                ..old(self)@
            }),
    {
        let target: i64 = if position < 0 {
            0
        } else if position > self.total_duration {
            self.total_duration
        } else {
            position
        };
        self.sink.seek(target);
        self.position = target;
    }

    /// Requests a stop; the audio realm honors it at the next tick.
    pub fn stop(&mut self)
        ensures
            final(self)@ == (PlayerV {
                sink: SinkV {
                    controls: Controls { stopped: true, ..old(self)@.sink.controls },
                    ..old(self)@.sink
                },
                ..old(self)@
            }),
    {
        self.sink.stop();
    }

    /// The position and total-duration clocks, in whole seconds.
    pub fn get_progress(&self) -> (r: (i64, i64))
        ensures
            r.0 == self@.position,
            r.1 == self@.total_duration,
    {
        (self.position, self.total_duration)
    }

    /// Opens `track` and plays it: without gapless hand-off the prior
    /// content is stopped first (the stopped→append handshake then drains
    /// it), the decoded source is queued, and the clocks restart from zero
    /// with the track's duration.
    pub fn add_and_play(&mut self, track: &Track)
        requires
            old(self)@.wf(),
            track.duration_secs >= 0,
        ensures
            final(self)@.wf(),
            final(self)@.position == 0,
            final(self)@.total_duration == track.duration_secs,
            final(self)@.gapless == old(self)@.gapless,
            final(self)@.sink == if old(self)@.gapless {
                append_post(old(self)@.sink, QueuedSound { duration: track.duration_secs })
            } else {
                append_post(
                    SinkV {
                        controls: Controls { stopped: true, ..old(self)@.sink.controls },
                        ..old(self)@.sink
                    },
                    QueuedSound { duration: track.duration_secs },
                )
            },
            final(self)@.sink.queue.len() >= 1,
    {
        if !self.gapless {
            self.sink.stop();
        }
        self.sink.append(QueuedSound { duration: track.duration() });
        self.total_duration = track.duration();
        self.position = 0;
    }

    /// Queues `track` behind the playing source for gapless hand-off and
    /// returns its duration; the clocks keep running for the current
    /// track.
    pub fn enqueue_next(&mut self, track: &Track) -> (r: i64)
        requires
            old(self)@.wf(),
        ensures
            final(self)@.wf(),
            r == track.duration_secs,
            final(self)@ == (PlayerV {
                sink: append_post(old(self)@.sink, QueuedSound { duration: track.duration_secs }),
                ..old(self)@
            }),
    {
        self.sink.append(QueuedSound { duration: track.duration() });
        track.duration()
    }

    /// Marks one more queued source to be skipped.
    pub fn skip_one(&mut self)
        requires
            old(self)@.wf(),
        ensures
            final(self)@.wf(),
            final(self)@ == (PlayerV {
                sink: SinkV {
                    controls: Controls {
                        to_clear: if old(self)@.sink.sound_count
                            > old(self)@.sink.controls.to_clear {
                            (old(self)@.sink.controls.to_clear + 1) as usize
                        } else {
                            old(self)@.sink.controls.to_clear
                        },
                        ..old(self)@.sink.controls
                    },
                    ..old(self)@.sink
                },
                ..old(self)@
            }),
    {
        self.sink.skip_one();
    }

    /// Arms the one-shot end-of-stream message for the tracked source.
    pub fn message_on_end(&mut self)
        ensures
            final(self)@ == (PlayerV {
                sink: SinkV { eos_armed: true, ..old(self)@.sink },
                ..old(self)@
            }),
    {
        self.sink.message_on_end();
    }

    /// Restarts the clocks for a gapless hand-off: the next track begins,
    /// with the duration its decode reported.
    pub fn start_next_duration(&mut self, duration: i64)
        requires
            old(self)@.wf(),
            duration >= 0,
        ensures
            final(self)@.wf(),
            final(self)@ == (PlayerV { position: 0, total_duration: duration, ..old(self)@ }),
    {
        self.total_duration = duration;
        self.position = 0;
    }
}

/// Seeking forward then backward by the same step from the same instant
/// returns the position clock to where it began, whenever the forward
/// target stays within the track.
pub proof fn lemma_seek_round_trip(p: PlayerV, step: int)
    requires
        p.wf(),
        step >= 0,
        p.position + step <= p.total_duration,
    ensures
        seek_post(seek_post(p, step), -step).position == p.position,
{
}

} // verus!
