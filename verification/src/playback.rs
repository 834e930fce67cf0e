//! The general player: orchestrates the playlist and the backend player,
//! the gapless hand-off, pause toggling, relative seeks, and the
//! last-position policy.
use vstd::prelude::*;

use crate::config::{LastPosition, SeekStep, Settings};
use crate::player::{seek_post, Player, PlayerError, PlayerV};
use crate::playlist::{
    next_transition, prev_transition, Playlist, PlaylistV, Status,
};
use crate::positions::{lookup, PositionStore};
use crate::sink::{Controls, SinkV};
use crate::track::{MediaType, Track};

verus! {

/// Events the audio realm sends the daemon loop on the internal channel.
pub enum PlayerMsg {
    CacheStart(String),
    CacheEnd(String),
    Duration(u64),
    DurationNext(u64),
    Eos,
    AboutToFinish,
    CurrentTrackUpdated,
    Progress(i64, i64),
}

/// The daemon's command surface: every command a client or the engine can
/// send.
#[derive(Clone, PartialEq, Eq, Structural, Debug)]
pub enum PlayerCmd {
    AboutToFinish,
    CycleLoop,
    DurationNext(u64),
    Eos,
    FetchStatus,
    GetProgress,
    PlaySelected,
    SkipPrevious,
    ProcessID,
    ReloadConfig,
    ReloadPlaylist,
    SeekBackward,
    SeekForward,
    SkipNext,
    SpeedDown,
    SpeedUp,
    Tick,
    ToggleGapless,
    TogglePause,
    VolumeDown,
    VolumeUp,
}

/// What `start_play` asks its surroundings to do: nothing (no current
/// track), take the gapless hand-off (the samples are already queued), or
/// open and decode the returned track.
#[derive(Clone, Debug)]
pub enum PlayAction {
    Idle,
    Gapless,
    Load(Track),
}

/// The abstract state of the general player.
pub struct GPlayerV {
    pub player: PlayerV,
    pub playlist: PlaylistV,
    pub config: Settings,
    pub need_proceed_to_next: bool,
    pub db: Seq<(String, i64)>,
    pub db_podcast: Seq<(String, i64)>,
}

/// Every track duration is a number of seconds (never negative).
pub open spec fn durations_ok(v: PlaylistV) -> bool {
    &&& forall|k: int|
        0 <= k < v.tracks.len() ==> (#[trigger] v.tracks[k]).duration_secs >= 0
    &&& (v.current_track matches Some(t) ==> t.duration_secs >= 0)
    &&& (v.next_track matches Some(t) ==> t.duration_secs >= 0)
}

impl GPlayerV {
    /// The invariant: a well-formed backend, a valid playlist position,
    /// and sensible durations.
    pub open spec fn wf(self) -> bool {
        &&& self.player.wf()
        &&& self.playlist.inv()
        &&& durations_ok(self.playlist)
    }
}

/// The state after `toggle_pause`: Running and Paused swap, pausing or
/// resuming the backend with them; Stopped is a no-op.
pub open spec fn toggle_pause_post(v: GPlayerV) -> GPlayerV {
    match v.playlist.status {
        Status::Running => GPlayerV {
            player: PlayerV {
                sink: SinkV {
                    controls: Controls { paused: true, ..v.player.sink.controls },
                    ..v.player.sink
                },
                ..v.player
            },
            playlist: PlaylistV { status: Status::Paused, ..v.playlist },
            ..v
        },
        Status::Stopped => v,
        Status::Paused => GPlayerV {
            player: PlayerV {
                sink: SinkV {
                    controls: Controls { paused: false, ..v.player.sink.controls },
                    ..v.player.sink
                },
                ..v.player
            },
            playlist: PlaylistV { status: Status::Running, ..v.playlist },
            ..v
        },
    }
}

/// The magnitude of a relative seek, in whole seconds: five for the short
/// step, thirty for the long one; the automatic step is thirty for tracks
/// of at least ten minutes, else five.
pub open spec fn seek_step_of(v: GPlayerV) -> int {
    match v.config.player_seek_step {
        SeekStep::Short => 5,
        SeekStep::Long => 30,
        SeekStep::Auto => match v.playlist.cur_track() {
            Some(t) => if t.duration_secs >= 600 {
                30int
            } else {
                5int
            },
            None => 5,
        },
    }
}

/// Whether — and under which key, in which store — the last-position
/// policy applies to a track: always under `Yes`, never under `No`, and
/// only to tracks of at least ten minutes under `Auto`.
pub open spec fn position_policy(config: Settings, t: Track) -> Option<(MediaType, Seq<char>)> {
    match (t.media_type, t.file) {
        (Some(mt), Some(f)) => if config.player_remember_last_played_position
            == LastPosition::Yes || (config.player_remember_last_played_position
            == LastPosition::Auto && t.duration_secs >= 600) {
            Some((mt, f@))
        } else {
            None
        },
        _ => None,
    }
}

/// The state after `stop`: Stopped status, no armed next track, no cached
/// current track, and a stop requested of the backend.
pub open spec fn stop_post(v: GPlayerV) -> GPlayerV {
    GPlayerV {
        player: PlayerV {
            sink: SinkV {
                controls: Controls { stopped: true, ..v.player.sink.controls },
                ..v.player.sink
            },
            ..v.player
        },
        playlist: PlaylistV {
            status: Status::Stopped,
            next_track: None::<Track>,
            current_track: None::<Track>,
            ..v.playlist
        },
        ..v
    }
}

/// The state after `next`: with a current track the armed next track is
/// dropped and one backend skip is requested; without one, everything
/// stops.
pub open spec fn gp_next_post(v: GPlayerV) -> GPlayerV {
    if v.playlist.cur_track() is Some {
        GPlayerV {
            player: PlayerV {
                sink: SinkV {
                    controls: Controls {
                        to_clear: if v.player.sink.sound_count > v.player.sink.controls.to_clear {
                            (v.player.sink.controls.to_clear + 1) as usize
                        } else {
                            v.player.sink.controls.to_clear
                        },
                        ..v.player.sink.controls
                    },
                    ..v.player.sink
                },
                ..v.player
            },
            playlist: PlaylistV { next_track: None::<Track>, ..v.playlist },
            ..v
        }
    } else {
        stop_post(v)
    }
}

/// How `player_save_last_position` relates the states: when the policy
/// applies to the current track, the position clock is recorded in the
/// matching store under the track's URI, no other key and the other store
/// change, and nothing else moves; otherwise nothing changes.
pub open spec fn save_rel(pre: GPlayerV, post: GPlayerV) -> bool {
    match pre.playlist.cur_track() {
        Some(t) => match position_policy(pre.config, t) {
            Some((mt, key)) => {
                &&& (mt == MediaType::Music ==> {
                    &&& lookup(post.db, key) == Some(pre.player.position)
                    &&& (forall|o: Seq<char>|
                        o != key ==> #[trigger] lookup(post.db, o) == lookup(pre.db, o))
                    &&& post.db_podcast == pre.db_podcast
                })
                &&& (mt == MediaType::Podcast ==> {
                    &&& lookup(post.db_podcast, key) == Some(pre.player.position)
                    &&& (forall|o: Seq<char>|
                        o != key ==> #[trigger] lookup(post.db_podcast, o) == lookup(
                            pre.db_podcast,
                            o,
                        ))
                    &&& post.db == pre.db
                })
                &&& post == (GPlayerV { db: post.db, db_podcast: post.db_podcast, ..pre })
            },
            None => post == pre,
        },
        None => post == pre,
    }
}

/// How `previous` relates the states: the playlist steps back (history
/// first, then the loop mode), the proceed flag is cleared, and the final
/// state is exactly `next` applied to that stepped-back state — the armed
/// marker dropped and one backend skip requested when a current track
/// remains, everything stopped when none does.
pub open spec fn gp_previous_rel(pre: GPlayerV, post: GPlayerV) -> bool {
    let stepped = GPlayerV {
        playlist: PlaylistV {
            current_track_index: post.playlist.current_track_index,
            played_index: post.playlist.played_index,
            ..pre.playlist
        },
        need_proceed_to_next: false,
        ..pre
    };
    &&& prev_transition(pre.playlist, stepped.playlist)
    &&& post == gp_next_post(stepped)
    &&& !post.need_proceed_to_next
}

/// How `start_play` relates the states and its returned action. The action
/// is forced by the state: idle exactly when no current track exists after
/// the advance; with one, the gapless hand-off exactly when a next track
/// was armed, else the track is loaded.
pub open spec fn start_play_rel(pre: GPlayerV, post: GPlayerV, r: PlayAction) -> bool {
    &&& post.playlist.status == Status::Running
    &&& post.need_proceed_to_next
    &&& post.playlist.tracks == pre.playlist.tracks
    &&& post.config == pre.config
    &&& (r is Idle <==> post.playlist.cur_track() is None)
    &&& (post.playlist.cur_track() is Some ==> (r is Gapless <==> pre.playlist.next_track
        is Some))
    &&& (pre.playlist.next_track is Some ==> !(r is Load) && post.player.sink.queue
        == pre.player.sink.queue)
    &&& (pre.need_proceed_to_next ==> next_transition(
        PlaylistV { status: Status::Running, ..pre.playlist },
        PlaylistV { next_track: pre.playlist.next_track, ..post.playlist },
    ))
    &&& (!pre.need_proceed_to_next ==> post.playlist == (PlaylistV {
        status: Status::Running,
        next_track: post.playlist.next_track,
        ..pre.playlist
    }))
    &&& (r is Gapless ==> {
        &&& pre.playlist.next_track is Some
        &&& post.playlist.next_track is None
        &&& post.player.position == 0
        &&& post.player.total_duration == dur_i64(pre.playlist.next_track_duration)
        &&& post.player.sink == (SinkV { eos_armed: true, ..pre.player.sink })
        &&& post.db == pre.db
        &&& post.db_podcast == pre.db_podcast
    })
    &&& (r is Idle ==> post.player == pre.player && post.db == pre.db && post.db_podcast
        == pre.db_podcast && post.playlist.next_track == pre.playlist.next_track)
    &&& (r matches PlayAction::Load(t) ==> {
        &&& pre.playlist.next_track is None
        &&& post.playlist.cur_track() == Some(t)
        &&& post.playlist.next_track is None
        &&& post.player.total_duration == t.duration_secs
        &&& post.player.sink.eos_armed
        &&& post.player.sink.queue.len() >= 1
        &&& post.player.sink.queue.last() == (crate::sink::QueuedSound {
            duration: t.duration_secs,
        })
        &&& (!pre.player.gapless || pre.player.sink.controls.stopped ==> post.player.sink.queue.len()
            == 1)
        &&& restore_rel(
            pre.config,
            t,
            t.duration_secs as int,
            0,
            pre.db,
            pre.db_podcast,
            post.player.position as int,
            post.db,
            post.db_podcast,
        )
    })
}

/// How `enqueue_next` relates the states: nothing changes when a next
/// track is already armed or there is no current track; otherwise the
/// prospective next track is chosen per the loop mode, armed, and — when
/// it has a URI — queued on the backend.
pub open spec fn enqueue_rel(pre: GPlayerV, post: GPlayerV) -> bool {
    if pre.playlist.next_track is Some {
        post == pre
    } else if pre.playlist.current_track_index is None {
        post == pre
    } else {
        let t = pre.playlist.tracks[post.playlist.next_track_index as int];
        &&& crate::playlist::is_next_index(pre.playlist, post.playlist.next_track_index)
        &&& post.playlist == (PlaylistV {
            next_track_index: post.playlist.next_track_index,
            next_track: Some(t),
            ..pre.playlist
        })
        &&& post.player == (PlayerV {
            sink: if t.file is Some {
                crate::sink::append_post(
                    pre.player.sink,
                    crate::sink::QueuedSound { duration: t.duration_secs },
                )
            } else {
                pre.player.sink
            },
            ..pre.player
        })
        &&& post == (GPlayerV { player: post.player, playlist: post.playlist, ..pre })
    }
}

/// The general player: a playlist, a backend player, the configuration,
/// the proceed flag that tells `start_play` whether to advance first, and
/// the two last-position stores.
pub struct GeneralPlayer {
    pub player: Player,
    pub playlist: Playlist,
    pub config: Settings,
    pub need_proceed_to_next: bool,
    pub db: PositionStore,
    pub db_podcast: PositionStore,
}

impl View for GeneralPlayer {
    type V = GPlayerV;

    open spec fn view(&self) -> GPlayerV {
        GPlayerV {
            player: self.player@,
            playlist: self.playlist@,
            config: self.config,
            need_proceed_to_next: self.need_proceed_to_next,
            db: self.db.entries@,
            db_podcast: self.db_podcast.entries@,
        }
    }
}

impl GeneralPlayer {
    /// A fresh player over a loaded playlist, with empty position stores.
    pub fn new(config: &Settings, playlist: Playlist) -> (r: GeneralPlayer)
        requires
            playlist@.inv(),
            durations_ok(playlist@),
        ensures
            r@.wf(),
            r@.playlist == playlist@,
            r@.config == *config,
            r@.need_proceed_to_next,
            r@.player.gapless == config.player_gapless,
            r@.player.position == 0,
            r@.player.total_duration == 0,
            r@.db == Seq::<(String, i64)>::empty(),
            r@.db_podcast == Seq::<(String, i64)>::empty(),
    {
        GeneralPlayer {
            player: Player::new(config.player_gapless),
            playlist,
            config: *config,
            need_proceed_to_next: true,
            db: PositionStore::new(),
            db_podcast: PositionStore::new(),
        }
    }

    /// Replaces the configuration with a freshly loaded one; the running
    /// backend keeps its state.
    pub fn set_config(&mut self, config: &Settings)
        ensures
            final(self)@ == (GPlayerV { config: *config, ..old(self)@ }),
    {
        self.config = *config;
    }

    /// Replaces the track list and current index with freshly loaded ones;
    /// an out-of-range index is dropped.
    pub fn reload_tracks(&mut self, current_track_index: Option<usize>, tracks: Vec<Track>)
        requires
            old(self)@.wf(),
            forall|k: int| 0 <= k < tracks@.len() ==> (#[trigger] tracks@[k]).duration_secs >= 0,
        ensures
            final(self)@.wf(),
            final(self)@ == (GPlayerV {
                playlist: PlaylistV {
                    tracks: tracks@,
                    current_track_index: if current_track_index matches Some(i) && i
                        < tracks@.len() {
                        current_track_index
                    } else {
                        None::<usize>
                    },
                    ..old(self)@.playlist
                },
                ..old(self)@
            }),
    {
        self.playlist.reload_tracks(current_track_index, tracks);
    }

    /// Flips the gapless flag on the backend and in the configuration and
    /// returns the new value.
    pub fn toggle_gapless(&mut self) -> (r: bool)
        ensures
            r == !old(self)@.player.gapless,
            final(self)@ == (GPlayerV {
                player: PlayerV { gapless: !old(self)@.player.gapless, ..old(self)@.player },
                config: Settings {
                    player_gapless: !old(self)@.player.gapless,
                    ..old(self)@.config
                },
                ..old(self)@
            }),
    {
        self.player.gapless = !self.player.gapless;
        self.config.player_gapless = self.player.gapless;
        self.player.gapless
    }

    /// Stops everything: the playlist goes to Stopped, the armed next
    /// track and the cached current track are dropped, and the backend is
    /// told to stop.
    pub fn stop(&mut self)
        requires
            old(self)@.wf(),
        ensures
            final(self)@.wf(),
            final(self)@ == stop_post(old(self)@),
    {
        self.playlist.set_status(Status::Stopped);
        self.playlist.set_next_track(None);
        self.playlist.clear_current_track();
        self.player.stop();
    }

    /// Skips ahead: with a current track, the armed next track is dropped
    /// and the backend skips one source (its end-of-source then drives the
    /// advance); without one, everything stops — never a crash, even on an
    /// empty playlist.
    pub fn next(&mut self)
        requires
            old(self)@.wf(),
        ensures
            final(self)@.wf(),
            old(self)@.playlist.cur_track() is None ==> final(self)@.playlist.status
                == Status::Stopped,
            final(self)@ == gp_next_post(old(self)@),
    {
        let has_current = match self.playlist.current_track() {
            Some(_) => true,
            None => false,
        };
        if has_current {
            self.playlist.set_next_track(None);
            self.player.skip_one();
        } else {
            self.stop();
        }
    }

    /// Steps the playlist back, then skips the backend ahead so the
    /// end-of-source advance lands on the stepped-back track; the proceed
    /// flag is cleared so the following `start_play` plays it as current.
    pub fn previous(&mut self)
        requires
            old(self)@.wf(),
        ensures
            final(self)@.wf(),
            gp_previous_rel(old(self)@, final(self)@),
    {
        self.playlist.previous();
        self.need_proceed_to_next = false;
        self.next();
    }

    /// Toggles between Running and Paused, pausing or resuming the
    /// backend; Stopped stays Stopped with nothing else changed.
    pub fn toggle_pause(&mut self)
        requires
            old(self)@.wf(),
        ensures
            final(self)@.wf(),
            final(self)@ == toggle_pause_post(old(self)@),
    {
        match self.playlist.status() {
            Status::Running => {
                self.player.pause();
                self.playlist.set_status(Status::Paused);
            },
            Status::Stopped => {},
            Status::Paused => {
                self.player.resume();
                self.playlist.set_status(Status::Running);
            },
        }
    }

    /// Seeks relative to the position: the step magnitude comes from the
    /// configured seek step (five seconds short, thirty long, and
    /// automatically thirty for tracks of ten minutes or more), the sign
    /// from `forward`. A target past the end is refused and nothing
    /// changes.
    pub fn seek_relative(&mut self, forward: bool) -> (r: Result<(), PlayerError>)
        requires
            old(self)@.wf(),
        ensures
            final(self)@.wf(),
            ({
                let offset = if forward {
                    seek_step_of(old(self)@)
                } else {
                    -seek_step_of(old(self)@)
                };
                &&& (r is Ok <==> old(self)@.player.position + offset
                    <= old(self)@.player.total_duration)
                &&& (r is Ok ==> final(self)@ == (GPlayerV {
                    player: seek_post(old(self)@.player, offset),
                    ..old(self)@
                }))
                &&& (r is Err ==> *final(self) == *old(self))
            }),
    {
        let step: i64 = match self.config.player_seek_step {
            SeekStep::Short => 5,
            SeekStep::Long => 30,
            SeekStep::Auto => {
                match self.playlist.current_track() {
                    Some(track) => if track.duration() >= 600 {
                        30
                    } else {
                        5
                    },
                    None => 5,
                }
            },
        };
        let offset = if forward {
            step
        } else {
            -step
        };
        self.player.seek(offset)
    }

    /// Arms the gapless next track: when none is armed yet, the playlist's
    /// prospective next track is fetched, recorded as armed, and — when it
    /// has a URI — queued on the backend behind the playing source.
    pub fn enqueue_next(&mut self)
        requires
            old(self)@.wf(),
        ensures
            final(self)@.wf(),
            enqueue_rel(old(self)@, final(self)@),
    {
        if self.playlist.has_next_track() {
            return;
        }
        let track = match self.playlist.fetch_next_track() {
            Some(t) => t,
            None => {
                return;
            },
        };
        self.playlist.set_next_track(Some(&track));
        let has_file = match track.file() {
            Some(_) => true,
            None => false,
        };
        if has_file {
            let _duration = self.player.enqueue_next(&track);
        }
    }
}

/// `p` clamped into `[0, hi]`.
pub open spec fn clamp_pos(p: int, hi: int) -> int {
    if p < 0 {
        0
    } else if p > hi {
        hi
    } else {
        p
    }
}

/// Whether the last-position policy restores a position for `t`: it does
/// exactly when the policy applies to the track and its store holds one.
pub open spec fn restore_happens(
    config: Settings,
    t: Track,
    db0: Seq<(String, i64)>,
    dbp0: Seq<(String, i64)>,
) -> bool {
    match position_policy(config, t) {
        Some((mt, key)) => lookup(
            if mt == MediaType::Music {
                db0
            } else {
                dbp0
            },
            key,
        ) is Some,
        None => false,
    }
}

/// What restoring the last position does to the position clock and the two
/// stores: when the policy applies to `t` and its store holds a position,
/// the clock jumps there (clamped into the track) and the stored position
/// is reset to zero — so the next play starts fresh — while the other
/// store and every other key stay put; otherwise nothing changes.
pub open spec fn restore_rel(
    config: Settings,
    t: Track,
    duration: int,
    pos_in: int,
    db0: Seq<(String, i64)>,
    dbp0: Seq<(String, i64)>,
    pos_out: int,
    db1: Seq<(String, i64)>,
    dbp1: Seq<(String, i64)>,
) -> bool {
    match position_policy(config, t) {
        Some((mt, key)) => {
            let store0 = if mt == MediaType::Music {
                db0
            } else {
                dbp0
            };
            match lookup(store0, key) {
                Some(p) => {
                    &&& pos_out == clamp_pos(p as int, duration)
                    &&& (mt == MediaType::Music ==> {
                        &&& lookup(db1, key) == Some(0i64)
                        &&& (forall|o: Seq<char>|
                            o != key ==> #[trigger] lookup(db1, o) == lookup(db0, o))
                        &&& dbp1 == dbp0
                    })
                    &&& (mt == MediaType::Podcast ==> {
                        &&& lookup(dbp1, key) == Some(0i64)
                        &&& (forall|o: Seq<char>|
                            o != key ==> #[trigger] lookup(dbp1, o) == lookup(dbp0, o))
                        &&& db1 == db0
                    })
                },
                None => pos_out == pos_in && db1 == db0 && dbp1 == dbp0,
            }
        },
        None => pos_out == pos_in && db1 == db0 && dbp1 == dbp0,
    }
}

/// A next-track duration reported as `u64`, saturated into `i64`.
pub open spec fn dur_i64(d: u64) -> i64 {
    if d > i64::MAX as u64 {
        i64::MAX
    } else {
        d as i64
    }
}

impl GeneralPlayer {
    /// Saves the position clock for the current track when the
    /// last-position policy applies to it: music goes to the music store,
    /// podcasts to the podcast store, keyed by the track's URI.
    pub fn player_save_last_position(&mut self)
        requires
            old(self)@.wf(),
        ensures
            final(self)@.wf(),
            save_rel(old(self)@, final(self)@),
    {
        let info = match self.playlist.current_track() {
            Some(t) => {
                let file = match &t.file {
                    Some(f) => Some(f.clone()),
                    None => None,
                };
                Some((t.media_type, file, t.duration()))
            },
            None => None,
        };
        let (media, file, duration) = match info {
            Some(x) => x,
            None => {
                return;
            },
        };
        let save = match self.config.player_remember_last_played_position {
            LastPosition::Yes => true,
            LastPosition::No => false,
            LastPosition::Auto => duration >= 600,
        };
        if !save {
            return;
        }
        match (media, file) {
            (Some(MediaType::Music), Some(f)) => {
                self.db.set_last_position(f.as_str(), self.player.position);
            },
            (Some(MediaType::Podcast), Some(f)) => {
                self.db_podcast.set_last_position(f.as_str(), self.player.position);
            },
            _ => {},
        }
    }

    /// Restores the saved position for the current track when the policy
    /// applies: seeks there and resets the stored position to zero, so the
    /// next play starts fresh unless it is saved again.
    pub fn player_restore_last_position(&mut self)
        requires
            old(self)@.wf(),
        ensures
            final(self)@.wf(),
            match old(self)@.playlist.cur_track() {
                Some(t) => {
                    &&& restore_rel(
                        old(self)@.config,
                        t,
                        old(self)@.player.total_duration as int,
                        old(self)@.player.position as int,
                        old(self)@.db,
                        old(self)@.db_podcast,
                        final(self)@.player.position as int,
                        final(self)@.db,
                        final(self)@.db_podcast,
                    )
                    &&& (restore_happens(old(self)@.config, t, old(self)@.db, old(self)@.db_podcast)
                        ==> final(self)@.player == (PlayerV {
                        sink: SinkV {
                            controls: Controls {
                                paused: false,
                                seek: Some(final(self)@.player.position),
                                ..old(self)@.player.sink.controls
                            },
                            ..old(self)@.player.sink
                        },
                        position: final(self)@.player.position,
                        ..old(self)@.player
                    }))
                    &&& (!restore_happens(
                        old(self)@.config,
                        t,
                        old(self)@.db,
                        old(self)@.db_podcast,
                    ) ==> final(self)@.player == old(self)@.player)
                    &&& final(self)@ == (GPlayerV {
                        player: final(self)@.player,
                        db: final(self)@.db,
                        db_podcast: final(self)@.db_podcast,
                        ..old(self)@
                    })
                },
                None => *final(self) == *old(self),
            },
    {
        let info = match self.playlist.current_track() {
            Some(t) => {
                let file = match &t.file {
                    Some(f) => Some(f.clone()),
                    None => None,
                };
                Some((t.media_type, file, t.duration()))
            },
            None => None,
        };
        let (media, file, duration) = match info {
            Some(x) => x,
            None => {
                return;
            },
        };
        let apply = match self.config.player_remember_last_played_position {
            LastPosition::Yes => true,
            LastPosition::No => false,
            LastPosition::Auto => duration >= 600,
        };
        if !apply {
            return;
        }
        match (media, file) {
            (Some(MediaType::Music), Some(f)) => {
                if let Some(last_pos) = self.db.get_last_position(f.as_str()) {
                    self.player.seek_to(last_pos);
                    self.db.set_last_position(f.as_str(), 0);
                }
            },
            (Some(MediaType::Podcast), Some(f)) => {
                if let Some(last_pos) = self.db_podcast.get_last_position(f.as_str()) {
                    self.player.seek_to(last_pos);
                    self.db_podcast.set_last_position(f.as_str(), 0);
                }
            },
            _ => {},
        }
    }

    /// Begins playing: the status becomes Running; the playlist advances
    /// first unless the proceed flag was cleared (it is consumed and set
    /// again). With a current track, an armed gapless next track is taken
    /// over without touching the backend queue — the samples are already
    /// there — and only the clocks and the end-of-stream message are set
    /// up; otherwise the track is loaded afresh, its saved position
    /// restored per policy, and the end-of-stream message armed.
    pub fn start_play(&mut self) -> (r: PlayAction)
        requires
            old(self)@.wf(),
        ensures
            final(self)@.wf(),
            start_play_rel(old(self)@, final(self)@, r),
            old(self)@.playlist.next_track is Some ==> !(r is Load)
                && final(self)@.player.sink.queue == old(self)@.player.sink.queue,
    {
        if self.playlist.is_stopped() || self.playlist.is_paused() {
            self.playlist.set_status(Status::Running);
        }
        if self.need_proceed_to_next {
            self.playlist.next();
        } else {
            self.need_proceed_to_next = true;
        }
        let track = match self.playlist.current_track() {
            Some(t) => Some(t.clone()),
            None => None,
        };
        match track {
            Some(track) => {
                if self.playlist.has_next_track() {
                    self.playlist.set_next_track(None);
                    let d = self.playlist.next_track_duration();
                    let d_i64: i64 = if d > i64::MAX as u64 {
                        i64::MAX
                    } else {
                        d as i64
                    };
                    self.player.start_next_duration(d_i64);
                    self.player.message_on_end();
                    PlayAction::Gapless
                } else {
                    self.player.add_and_play(&track);
                    self.player_restore_last_position();
                    self.player.message_on_end();
                    PlayAction::Load(track)
                }
            },
            None => PlayAction::Idle,
        }
    }
}

impl GeneralPlayer {
    /// Opens `current_track` on the backend and plays it.
    pub fn add_and_play(&mut self, current_track: &Track)
        requires
            old(self)@.wf(),
            current_track.duration_secs >= 0,
        ensures
            final(self)@.wf(),
            final(self)@.player.position == 0,
            final(self)@.player.total_duration == current_track.duration_secs,
            final(self)@.player.sink == if old(self)@.player.gapless {
                crate::sink::append_post(
                    old(self)@.player.sink,
                    crate::sink::QueuedSound { duration: current_track.duration_secs },
                )
            } else {
                crate::sink::append_post(
                    SinkV {
                        controls: Controls {
                            stopped: true,
                            ..old(self)@.player.sink.controls
                        },
                        ..old(self)@.player.sink
                    },
                    crate::sink::QueuedSound { duration: current_track.duration_secs },
                )
            },
            final(self)@ == (GPlayerV { player: final(self)@.player, ..old(self)@ }),
            final(self)@.player == (PlayerV {
                sink: final(self)@.player.sink,
                position: 0,
                total_duration: current_track.duration_secs,
                ..old(self)@.player
            }),
    {
        self.player.add_and_play(current_track);
    }

    /// The volume, in percent.
    pub fn volume(&self) -> (r: i64)
        ensures
            r == self@.player.sink.controls.volume,
    {
        self.player.volume()
    }

    /// Raises the volume one step of ten percent, saturating at 100.
    pub fn volume_up(&mut self)
        requires
            old(self)@.wf(),
        ensures
            final(self)@.wf(),
            final(self)@.player.sink.controls.volume == if old(self)@.player.sink.controls.volume
                + 10 > 100 {
                100int
            } else {
                old(self)@.player.sink.controls.volume + 10
            },
            final(self)@ == (GPlayerV { player: final(self)@.player, ..old(self)@ }),
            final(self)@.player == (PlayerV { sink: final(self)@.player.sink, ..old(self)@.player }),
            final(self)@.player.sink == (SinkV {
                controls: Controls {
                    volume: final(self)@.player.sink.controls.volume,
                    ..old(self)@.player.sink.controls
                },
                ..old(self)@.player.sink
            }),
    {
        self.player.volume_up();
    }

    /// Lowers the volume one step of ten percent, saturating at 0.
    pub fn volume_down(&mut self)
        requires
            old(self)@.wf(),
        ensures
            final(self)@.wf(),
            final(self)@.player.sink.controls.volume == if old(self)@.player.sink.controls.volume
                - 10 < 0 {
                0int
            } else {
                old(self)@.player.sink.controls.volume - 10
            },
            final(self)@ == (GPlayerV { player: final(self)@.player, ..old(self)@ }),
            final(self)@.player == (PlayerV { sink: final(self)@.player.sink, ..old(self)@.player }),
            final(self)@.player.sink == (SinkV {
                controls: Controls {
                    volume: final(self)@.player.sink.controls.volume,
                    ..old(self)@.player.sink.controls
                },
                ..old(self)@.player.sink
            }),
    {
        self.player.volume_down();
    }

    /// Sets the volume, clamped to 0..=100 percent.
    pub fn set_volume(&mut self, volume: i64)
        requires
            old(self)@.wf(),
        ensures
            final(self)@.wf(),
            final(self)@.player.sink.controls.volume == clamp_pos(volume as int, 100),
            final(self)@ == (GPlayerV { player: final(self)@.player, ..old(self)@ }),
            final(self)@.player == (PlayerV { sink: final(self)@.player.sink, ..old(self)@.player }),
            final(self)@.player.sink == (SinkV {
                controls: Controls {
                    volume: final(self)@.player.sink.controls.volume,
                    ..old(self)@.player.sink.controls
                },
                ..old(self)@.player.sink
            }),
    {
        self.player.set_volume(volume);
    }

    /// Pauses: the playlist status and the backend both.
    pub fn pause(&mut self)
        requires
            old(self)@.wf(),
        ensures
            final(self)@.wf(),
            final(self)@ == (GPlayerV {
                player: PlayerV {
                    sink: SinkV {
                        controls: Controls { paused: true, ..old(self)@.player.sink.controls },
                        ..old(self)@.player.sink
                    },
                    ..old(self)@.player
                },
                playlist: PlaylistV { status: Status::Paused, ..old(self)@.playlist },
                ..old(self)@
            }),
    {
        self.playlist.set_status(Status::Paused);
        self.player.pause();
    }

    /// Resumes: the playlist status and the backend both.
    pub fn resume(&mut self)
        requires
            old(self)@.wf(),
        ensures
            final(self)@.wf(),
            final(self)@ == (GPlayerV {
                player: PlayerV {
                    sink: SinkV {
                        controls: Controls { paused: false, ..old(self)@.player.sink.controls },
                        ..old(self)@.player.sink
                    },
                    ..old(self)@.player
                },
                playlist: PlaylistV { status: Status::Running, ..old(self)@.playlist },
                ..old(self)@
            }),
    {
        self.playlist.set_status(Status::Running);
        self.player.resume();
    }

    /// Whether playback is paused, by the playlist status.
    pub fn is_paused(&self) -> (r: bool)
        ensures
            r == (self@.playlist.status == Status::Paused),
    {
        self.playlist.is_paused()
    }

    /// Seeks by `offset` whole seconds; a target past the end is refused.
    pub fn seek(&mut self, secs: i64) -> (r: Result<(), PlayerError>)
        requires
            old(self)@.wf(),
        ensures
            final(self)@.wf(),
            r is Ok <==> old(self)@.player.position + secs <= old(self)@.player.total_duration,
            r is Ok ==> final(self)@ == (GPlayerV {
                player: seek_post(old(self)@.player, secs as int),
                ..old(self)@
            }),
            r is Err ==> *final(self) == *old(self),
    {
        self.player.seek(secs)
    }

    /// Seeks to an absolute position, clamped into the track.
    pub fn seek_to(&mut self, last_pos: i64)
        requires
            old(self)@.wf(),
        ensures
            final(self)@.wf(),
            final(self)@.player.position == clamp_pos(
                last_pos as int,
                old(self)@.player.total_duration as int,
            ),
            final(self)@ == (GPlayerV {
                player: PlayerV {
                    sink: SinkV {
                        controls: Controls {
                            paused: false,
                            seek: Some(final(self)@.player.position),
                            ..old(self)@.player.sink.controls
                        },
                        ..old(self)@.player.sink
                    },
                    position: final(self)@.player.position,
                    ..old(self)@.player
                },
                ..old(self)@
            }),
    {
        self.player.seek_to(last_pos);
    }

    /// The playback rate, in tenths of the normal rate.
    pub fn speed(&self) -> (r: i64)
        ensures
            r == self@.player.sink.controls.speed,
    {
        self.player.speed()
    }

    /// Sets the playback rate, clamped to 1..=30 tenths.
    pub fn set_speed(&mut self, speed: i64)
        requires
            old(self)@.wf(),
        ensures
            final(self)@.wf(),
            final(self)@.player.sink.controls.speed == if speed < 1 {
                1int
            } else if speed > 30 {
                30int
            } else {
                speed as int
            },
            final(self)@ == (GPlayerV { player: final(self)@.player, ..old(self)@ }),
            final(self)@.player == (PlayerV { sink: final(self)@.player.sink, ..old(self)@.player }),
            final(self)@.player.sink == (SinkV {
                controls: Controls {
                    speed: final(self)@.player.sink.controls.speed,
                    ..old(self)@.player.sink.controls
                },
                ..old(self)@.player.sink
            }),
    {
        self.player.set_speed(speed);
    }

    /// Raises the rate one tenth, saturating at 30.
    pub fn speed_up(&mut self)
        requires
            old(self)@.wf(),
        ensures
            final(self)@.wf(),
            final(self)@.player.sink.controls.speed == if old(self)@.player.sink.controls.speed + 1
                > 30 {
                30int
            } else {
                old(self)@.player.sink.controls.speed + 1
            },
            final(self)@ == (GPlayerV { player: final(self)@.player, ..old(self)@ }),
            final(self)@.player == (PlayerV { sink: final(self)@.player.sink, ..old(self)@.player }),
            final(self)@.player.sink == (SinkV {
                controls: Controls {
                    speed: final(self)@.player.sink.controls.speed,
                    ..old(self)@.player.sink.controls
                },
                ..old(self)@.player.sink
            }),
    {
        self.player.speed_up();
    }

    /// Lowers the rate one tenth, saturating at 1.
    pub fn speed_down(&mut self)
        requires
            old(self)@.wf(),
        ensures
            final(self)@.wf(),
            final(self)@.player.sink.controls.speed == if old(self)@.player.sink.controls.speed - 1
                < 1 {
                1int
            } else {
                old(self)@.player.sink.controls.speed - 1
            },
            final(self)@ == (GPlayerV { player: final(self)@.player, ..old(self)@ }),
            final(self)@.player == (PlayerV { sink: final(self)@.player.sink, ..old(self)@.player }),
            final(self)@.player.sink == (SinkV {
                controls: Controls {
                    speed: final(self)@.player.sink.controls.speed,
                    ..old(self)@.player.sink.controls
                },
                ..old(self)@.player.sink
            }),
    {
        self.player.speed_down();
    }

    /// The position and total-duration clocks, in whole seconds.
    pub fn get_progress(&self) -> (r: (i64, i64))
        ensures
            r.0 == self@.player.position,
            r.1 == self@.player.total_duration,
    {
        self.player.get_progress()
    }
}

/// Toggling pause twice from Running returns to Running, with the backend
/// unpaused — exactly the starting state whenever the backend was not
/// paused, as a running player's never is. From Stopped both toggles
/// change nothing at all.
pub proof fn lemma_toggle_pause_twice(v: GPlayerV)
    ensures
        v.playlist.status == Status::Running ==> toggle_pause_post(
            toggle_pause_post(v),
        ).playlist.status == Status::Running,
        v.playlist.status == Status::Running ==> toggle_pause_post(toggle_pause_post(v))
            == (GPlayerV {
            player: PlayerV {
                sink: SinkV {
                    controls: Controls { paused: false, ..v.player.sink.controls },
                    ..v.player.sink
                },
                ..v.player
            },
            ..v
        }),
        v.playlist.status == Status::Running && !v.player.sink.controls.paused
            ==> toggle_pause_post(toggle_pause_post(v)) == v,
        v.playlist.status == Status::Stopped ==> toggle_pause_post(toggle_pause_post(v)) == v
            && toggle_pause_post(v) == v,
{
}

} // verus!
