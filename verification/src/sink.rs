//! The sink: the control-realm model of the audio pipeline. It owns the
//! queue of staged source chains, the shared `Controls` block both realms
//! observe, the sound count, and the elapsed-time cell; the audio realm's
//! periodic control tick is modeled by `tick_control`.
use vstd::prelude::*;

verus! {

/// The shared control block: written by the control realm, read and
/// applied by the audio realm at every control tick.
#[derive(Clone, Copy, PartialEq, Eq, Structural, Debug)]
pub struct Controls {
    /// Yield silence without advancing the source.
    pub paused: bool,
    /// End the current source at the next tick.
    pub stopped: bool,
    /// Skip the current source at the next tick.
    pub do_skip: bool,
    /// How many queued sources the ticks still have to drop.
    pub to_clear: usize,
    /// Volume, in percent of the normal level (0 to 100).
    pub volume: i64,
    /// Playback rate, in tenths of the normal rate (1 to 30).
    pub speed: i64,
    /// A pending seek target in whole seconds, consumed by the next tick.
    pub seek: Option<i64>,
}

/// What stands for one queued source chain: the duration, in whole
/// seconds, of the decoded source it wraps (negative never occurs).
#[derive(Clone, Copy, PartialEq, Eq, Structural, Debug)]
pub struct QueuedSound {
    pub duration: i64,
}

/// The adaptor parameters of the playing source chain, as the audio realm
/// holds them: what the control tick pushes the `Controls` values into.
#[derive(Clone, Copy, PartialEq, Eq, Structural, Debug)]
pub struct SourceChain {
    /// The amplifier's factor, in percent.
    pub volume: i64,
    /// The pausable adaptor's flag.
    pub paused: bool,
    /// The speed adaptor's factor, in tenths.
    pub speed: i64,
    /// The stoppable adaptor's flag: set once a stop was observed.
    pub stopped: bool,
    /// Produced audio time, in whole seconds.
    pub elapsed: i64,
}

/// The abstract state of a sink.
pub struct SinkV {
    pub queue: Seq<QueuedSound>,
    pub sound_count: usize,
    pub controls: Controls,
    pub elapsed: i64,
    pub eos_armed: bool,
    pub detached: bool,
}

impl SinkV {
    /// The invariant: the sound count equals the number of sources not yet
    /// end-signaled, the pending clear counter never exceeds it, and the
    /// control values lie in their ranges.
    pub open spec fn wf(self) -> bool {
        &&& self.sound_count == self.queue.len()
        &&& self.controls.to_clear <= self.sound_count
        &&& 0 <= self.controls.volume <= 100
        &&& 1 <= self.controls.speed <= 30
        &&& self.elapsed >= 0
        &&& (self.controls.seek matches Some(t) ==> t >= 0)
    }
}

/// The sink state after `clear`: every queued source dropped and
/// end-signaled, the pending clear counter spent, and playback paused with
/// the stopped flag set — so the next `append` resumes it through the
/// stopped→append handshake.
pub open spec fn clear_post(s: SinkV) -> SinkV {
    SinkV {
        queue: Seq::empty(),
        sound_count: 0,
        controls: Controls { to_clear: 0, paused: true, stopped: true, ..s.controls },
        ..s
    }
}

/// The sink state after `append`: when the sink was stopped, the old queue
/// is first drained, and the stopped and paused flags are cleared (the
/// stopped→append handshake resumes playback); then the new source is
/// queued and counted.
pub open spec fn append_post(s: SinkV, d: QueuedSound) -> SinkV {
    if s.controls.stopped {
        SinkV {
            queue: seq![d],
            sound_count: 1,
            controls: Controls { to_clear: 0, stopped: false, paused: false, ..s.controls },
            ..s
        }
    } else {
        SinkV {
            queue: s.queue.push(d),
            sound_count: (s.sound_count + 1) as usize,
            ..s
        }
    }
}

/// The control-realm view of the audio sink.
pub struct Sink {
    pub queue: Vec<QueuedSound>,
    pub sound_count: usize,
    pub controls: Controls,
    pub elapsed: i64,
    pub eos_armed: bool,
    pub detached: bool,
}

impl View for Sink {
    type V = SinkV;

    open spec fn view(&self) -> SinkV {
        SinkV {
            queue: self.queue@,
            sound_count: self.sound_count,
            controls: self.controls,
            elapsed: self.elapsed,
            eos_armed: self.eos_armed,
            detached: self.detached,
        }
    }
}

impl Sink {
    /// An idle sink: empty queue, nothing pending, full volume, normal
    /// speed.
    pub fn new() -> (r: Sink)
        ensures
            r@.wf(),
            r@.queue == Seq::<QueuedSound>::empty(),
            r@.sound_count == 0,
            r@.controls == (Controls {
                paused: false,
                stopped: false,
                do_skip: false,
                to_clear: 0,
                volume: 100,
                speed: 10,
                seek: None::<i64>,
            }),
            r@.elapsed == 0,
            !r@.eos_armed,
            !r@.detached,
    {
        Sink {
            queue: Vec::new(),
            sound_count: 0,
            controls: Controls {
                paused: false,
                stopped: false,
                do_skip: false,
                to_clear: 0,
                volume: 100,
                speed: 10,
                seek: None,
            },
            elapsed: 0,
            eos_armed: false,
            detached: false,
        }
    }

    /// Queues a source. A stopped sink first waits for its old queue to
    /// drain, then clears the stopped and paused flags, so the new source
    /// plays.
    pub fn append(&mut self, source: QueuedSound)
        requires
            old(self)@.wf(),
        ensures
            final(self)@.wf(),
            final(self)@ == append_post(old(self)@, source),
            !final(self)@.controls.stopped,
            final(self)@.queue.len() > 0,
    {
        if self.controls.stopped {
            if self.sound_count > 0 {
                self.sleep_until_end();
            }
            self.controls.stopped = false;
            self.controls.paused = false;
            self.controls.to_clear = 0;
        }
        self.queue.push(source);
        self.sound_count = self.queue.len();
        proof {
            if old(self)@.controls.stopped {
                assert(self@.queue =~= seq![source]);
            }
        }
    }

    /// The volume, in percent.
    pub fn volume(&self) -> (r: i64)
        ensures
            r == self@.controls.volume,
    {
        self.controls.volume
    }

    /// Stores the volume, clamped to 0..=100 percent.
    pub fn set_volume(&mut self, value: i64)
        requires
            old(self)@.wf(),
        ensures
            final(self)@.wf(),
            final(self)@ == (SinkV {
                controls: Controls {
                    volume: if value < 0 {
                        0i64
                    } else if value > 100 {
                        100i64
                    } else {
                        value
                    },
                    ..old(self)@.controls
                },
                ..old(self)@
            }),
    {
        let v = if value < 0 {
            0
        } else if value > 100 {
            100
        } else {
            value
        };
        self.controls.volume = v;
    }

    /// The playback rate, in tenths.
    pub fn speed(&self) -> (r: i64)
        ensures
            r == self@.controls.speed,
    {
        self.controls.speed
    }

    /// Stores the playback rate, clamped to 1..=30 tenths.
    pub fn set_speed(&mut self, value: i64)
        requires
            old(self)@.wf(),
        ensures
            final(self)@.wf(),
            final(self)@ == (SinkV {
                controls: Controls {
                    speed: if value < 1 {
                        1i64
                    } else if value > 30 {
                        30i64
                    } else {
                        value
                    },
                    ..old(self)@.controls
                },
                ..old(self)@
            }),
    {
        let v = if value < 1 {
            1
        } else if value > 30 {
            30
        } else {
            value
        };
        self.controls.speed = v;
    }

    /// Resumes a paused sink; no effect when not paused.
    pub fn play(&mut self)
        ensures
            final(self)@ == (SinkV {
                controls: Controls { paused: false, ..old(self)@.controls },
                ..old(self)@
            }),
    {
        self.controls.paused = false;
    }

    /// Pauses the sink; no effect when already paused.
    pub fn pause(&mut self)
        ensures
            final(self)@ == (SinkV {
                controls: Controls { paused: true, ..old(self)@.controls },
                ..old(self)@
            }),
    {
        self.controls.paused = true;
    }

    /// Whether the sink is paused.
    pub fn is_paused(&self) -> (r: bool)
        ensures
            r == self@.controls.paused,
    {
        self.controls.paused
    }

    /// Requests a seek to `seek_time` (whole seconds); a paused sink is
    /// resumed first. The next control tick consumes the target.
    pub fn seek(&mut self, seek_time: i64)
        requires
            seek_time >= 0,
        ensures
            final(self)@ == (SinkV {
                controls: Controls {
                    paused: false,
                    seek: Some(seek_time),
                    ..old(self)@.controls
                },
                ..old(self)@
            }),
    {
        if self.is_paused() {
            self.play();
        }
        self.controls.seek = Some(seek_time);
    }

    /// Pauses when playing, resumes when paused.
    pub fn toggle_playback(&mut self)
        ensures
            final(self)@ == (SinkV {
                controls: Controls { paused: !old(self)@.controls.paused, ..old(self)@.controls },
                ..old(self)@
            }),
    {
        if self.is_paused() {
            self.play();
        } else {
            self.pause();
        }
    }

    /// Drops every queued source: marks them all to be cleared, blocks
    /// until the queue drains, then pauses, leaving the stopped flag set so
    /// that the next `append` resumes playback through the handshake.
    pub fn clear(&mut self)
        requires
            old(self)@.wf(),
        ensures
            final(self)@.wf(),
            final(self)@ == clear_post(old(self)@),
            final(self)@.sound_count == 0,
            final(self)@.controls.paused,
    {
        self.controls.to_clear = self.sound_count;
        self.sleep_until_end();
        self.pause();
        self.controls.stopped = true;
    }

    /// Marks one more queued source to be skipped, never more than are
    /// queued.
    pub fn skip_one(&mut self)
        requires
            old(self)@.wf(),
        ensures
            final(self)@.wf(),
            final(self)@ == (SinkV {
                controls: Controls {
                    to_clear: if old(self)@.sound_count > old(self)@.controls.to_clear {
                        (old(self)@.controls.to_clear + 1) as usize
                    } else {
                        old(self)@.controls.to_clear
                    },
                    ..old(self)@.controls
                },
                ..old(self)@
            }),
    {
        let len = self.sound_count;
        if len > self.controls.to_clear {
            self.controls.to_clear = self.controls.to_clear + 1;
        }
    }

    /// Requests a stop; the next control tick observes it.
    pub fn stop(&mut self)
        ensures
            final(self)@ == (SinkV {
                controls: Controls { stopped: true, ..old(self)@.controls },
                ..old(self)@
            }),
    {
        self.controls.stopped = true;
    }

    /// Suppresses the automatic stop when the sink is dropped.
    pub fn detach(&mut self)
        ensures
            final(self)@ == (SinkV { detached: true, ..old(self)@ }),
    {
        self.detached = true;
    }

    /// Blocks until the end signal of the last queued source fires; since
    /// the queue is served in order, every queued source has then ended.
    pub fn sleep_until_end(&mut self)
        requires
            old(self)@.wf(),
        ensures
            final(self)@.wf(),
            final(self)@ == (SinkV {
                queue: Seq::<QueuedSound>::empty(),
                sound_count: 0,
                controls: Controls { to_clear: 0, ..old(self)@.controls },
                ..old(self)@
            }),
    {
        self.queue.clear();
        self.sound_count = 0;
        self.controls.to_clear = 0;
    }

    /// Whether the sink has no queued sources.
    pub fn empty(&self) -> (r: bool)
        ensures
            r == (self@.sound_count == 0),
    {
        self.sound_count == 0
    }

    /// The number of sources currently queued.
    pub fn len(&self) -> (r: usize)
        ensures
            r == self@.sound_count,
    {
        self.sound_count
    }

    /// The elapsed time of the playing source, as the audio realm last
    /// wrote it (whole seconds).
    pub fn elapsed(&self) -> (r: i64)
        ensures
            r == self@.elapsed,
    {
        self.elapsed
    }

    /// Arms the end-of-stream message: when the tracked source ends, one
    /// `Eos` is emitted.
    pub fn message_on_end(&mut self)
        ensures
            final(self)@ == (SinkV { eos_armed: true, ..old(self)@ }),
    {
        self.eos_armed = true;
    }

    /// One source reached its end (naturally, skipped, or stopped): its
    /// end signal fires, the count drops, and the armed end-of-stream
    /// message — if any — is emitted exactly once. Returns whether to emit
    /// `Eos`.
    pub fn source_ended(&mut self) -> (emit_eos: bool)
        requires
            old(self)@.wf(),
            old(self)@.sound_count > 0,
        ensures
            final(self)@.wf(),
            final(self)@.queue == old(self)@.queue.drop_first(),
            final(self)@.sound_count == old(self)@.sound_count - 1,
            final(self)@.controls.to_clear == if old(self)@.controls.to_clear
                > old(self)@.sound_count - 1 {
                (old(self)@.sound_count - 1) as usize
            } else {
                old(self)@.controls.to_clear
            },
            !final(self)@.eos_armed,
            emit_eos == old(self)@.eos_armed,
            final(self)@ == (SinkV {
                queue: final(self)@.queue,
                sound_count: final(self)@.sound_count,
                controls: Controls { to_clear: final(self)@.controls.to_clear, ..old(self)@.controls },
                eos_armed: false,
                ..old(self)@
            }),
    {
        self.queue.remove(0);
        self.sound_count = self.sound_count - 1;
        if self.controls.to_clear > self.sound_count {
            self.controls.to_clear = self.sound_count;
        }
        let emit = self.eos_armed;
        self.eos_armed = false;
        proof {
            assert(self@.queue =~= old(self)@.queue.drop_first());
        }
        emit
    }

    /// The 5 ms control tick, run in the audio realm: applies `stopped`,
    /// `do_skip` and the pending clear counter, consumes a pending seek,
    /// publishes the chain's elapsed time, and pushes volume, pause and
    /// speed into their adaptors. After a plain tick the chain observes
    /// exactly the last values the control realm wrote.
    pub fn tick_control(&mut self, chain: &mut SourceChain)
        requires
            old(self)@.wf(),
            old(chain).elapsed >= 0,
        ensures
            final(self)@.wf(),
            if old(self)@.controls.stopped {
                &&& *final(chain) == (SourceChain { stopped: true, ..*old(chain) })
                &&& *final(self) == *old(self)
            } else if old(self)@.controls.do_skip {
                &&& *final(chain) == *old(chain)
                &&& final(self)@ == (SinkV {
                    controls: Controls { do_skip: false, ..old(self)@.controls },
                    ..old(self)@
                })
            } else {
                &&& *final(chain) == (SourceChain {
                    volume: old(self)@.controls.volume,
                    paused: old(self)@.controls.paused,
                    speed: old(self)@.controls.speed,
                    elapsed: match old(self)@.controls.seek {
                        Some(t) => t,
                        None => old(chain).elapsed,
                    },
                    ..*old(chain)
                })
                &&& final(self)@ == (SinkV {
                    controls: Controls {
                        seek: None::<i64>,
                        to_clear: if old(self)@.controls.to_clear > 0 {
                            (old(self)@.controls.to_clear - 1) as usize
                        } else {
                            0usize
                        },
                        ..old(self)@.controls
                    },
                    elapsed: final(chain).elapsed,
                    ..old(self)@
                })
            },
    {
        if self.controls.stopped {
            chain.stopped = true;
        } else if self.controls.do_skip {
            self.controls.do_skip = false;
        } else {
            if let Some(seek_time) = self.controls.seek {
                self.controls.seek = None;
                chain.elapsed = seek_time;
            }
            self.elapsed = chain.elapsed;
            if self.controls.to_clear > 0 {
                self.controls.to_clear = self.controls.to_clear - 1;
            }
            chain.volume = self.controls.volume;
            chain.paused = self.controls.paused;
            chain.speed = self.controls.speed;
        }
    }

    /// The 100 ms telemetry tick, run in the audio realm: the position to
    /// report on the internal event channel.
    pub fn tick_telemetry(&self, chain: &SourceChain) -> (r: i64)
        ensures
            r == chain.elapsed,
    {
        chain.elapsed
    }
}

/// The sound count always equals the number of sources not yet
/// end-signaled: every operation preserves the well-formedness that ties
/// the counter to the queue.
pub proof fn lemma_sound_count_matches_queue(s: SinkV)
    requires
        s.wf(),
    ensures
        s.sound_count == s.queue.len(),
{
}

/// After a plain control tick (no stop, no skip pending), the volume the
/// audio chain applies is exactly the last volume the control realm wrote:
/// control writes reach the audio realm within one tick.
pub proof fn lemma_tick_applies_volume(pre: SinkV, chain: SourceChain)
    requires
        pre.wf(),
        !pre.controls.stopped,
        !pre.controls.do_skip,
    ensures
        forall|post: SinkV, chain2: SourceChain|
            tick_relation(pre, chain, post, chain2) ==> chain2.volume == pre.controls.volume,
{
}

/// What `tick_control` does on the plain path, as a relation.
pub open spec fn tick_relation(
    pre: SinkV,
    chain: SourceChain,
    post: SinkV,
    chain2: SourceChain,
) -> bool {
    &&& !pre.controls.stopped
    &&& !pre.controls.do_skip
    &&& chain2 == (SourceChain {
        volume: pre.controls.volume,
        paused: pre.controls.paused,
        speed: pre.controls.speed,
        elapsed: match pre.controls.seek {
            Some(t) => t,
            None => chain.elapsed,
        },
        ..chain
    })
    &&& post == (SinkV {
        controls: Controls {
            seek: None::<i64>,
            to_clear: if pre.controls.to_clear > 0 {
                (pre.controls.to_clear - 1) as usize
            } else {
                0usize
            },
            ..pre.controls
        },
        elapsed: chain2.elapsed,
        ..pre
    })
}

/// A volume written by the control realm reaches the audio chain within
/// one control tick: after `set_volume(value)` and a plain tick (no stop
/// or skip pending — those paths defer by design), the amplifier's factor
/// is exactly the stored, clamped volume.
pub proof fn lemma_set_volume_then_tick(
    s: SinkV,
    value: i64,
    chain: SourceChain,
    post: SinkV,
    chain2: SourceChain,
)
    requires
        s.wf(),
        !s.controls.stopped,
        !s.controls.do_skip,
        tick_relation(
            SinkV {
                controls: Controls {
                    volume: if value < 0 {
                        0i64
                    } else if value > 100 {
                        100i64
                    } else {
                        value
                    },
                    ..s.controls
                },
                ..s
            },
            chain,
            post,
            chain2,
        ),
    ensures
        chain2.volume == if value < 0 {
            0i64
        } else if value > 100 {
            100i64
        } else {
            value
        },
{
}

/// The clear→append handshake: `clear` drains the queue and pauses; a
/// subsequent `append` finds the stopped flag set, drains what remained,
/// clears the stopped and paused flags — resuming playback — and queues
/// the fresh source as the only one.
pub proof fn lemma_clear_then_append(s: SinkV, d: QueuedSound)
    requires
        s.wf(),
    ensures
        clear_post(s).queue.len() == 0,
        clear_post(s).controls.paused,
        append_post(clear_post(s), d).queue == seq![d],
        !append_post(clear_post(s), d).controls.stopped,
        !append_post(clear_post(s), d).controls.paused,
{
}

} // verus!
