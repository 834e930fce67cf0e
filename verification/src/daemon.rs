//! The daemon command dispatch: one typed command in, the player state
//! mutated, a typed reply and — where outside work is needed — an effect
//! out. The surrounding loop owns the socket, decodes requests, performs
//! the effects, and encodes replies.
use vstd::prelude::*;

use crate::config::{Loop, Settings};
use crate::playback::{
    gp_next_post, gp_previous_rel, enqueue_rel, save_rel, seek_step_of, start_play_rel,
    stop_post, toggle_pause_post, GPlayerV, GeneralPlayer, PlayAction, PlayerCmd,
};
use crate::player::seek_post;
use crate::playlist::{cycle_spec, PlaylistV, Status};
use crate::sink::{Controls, SinkV};
use crate::track::Track;

verus! {

/// The reply a command sends back over the wire, when it sends one.
#[derive(Clone, Copy, PartialEq, Eq, Structural, Debug)]
pub enum Reply {
    Silent,
    Volume(i64),
    Speed(i64),
    LoopMode(Loop),
    Gapless(bool),
    PlayStatus(Status),
    Pid(u64),
    Progress(i64, i64, Option<usize>),
}

/// The outside work a command asks the daemon loop to perform: nothing,
/// act on a play action (decode and feed the returned track, or take the
/// gapless hand-off), re-read the configuration, or re-read the persisted
/// playlist.
#[derive(Clone, Debug)]
pub enum Effect {
    Noop,
    Play(PlayAction),
    ReloadConfig,
    ReloadPlaylist,
}

/// `v` with its two stores replaced — what a position save leaves behind.
pub open spec fn with_stores(
    v: GPlayerV,
    db: Seq<(String, i64)>,
    dbp: Seq<(String, i64)>,
) -> GPlayerV {
    GPlayerV { db, db_podcast: dbp, ..v }
}

/// `v` with the volume set.
pub open spec fn with_volume(v: GPlayerV, volume: i64) -> GPlayerV {
    GPlayerV {
        player: crate::player::PlayerV {
            sink: SinkV {
                controls: Controls { volume, ..v.player.sink.controls },
                ..v.player.sink
            },
            ..v.player
        },
        ..v
    }
}

/// `v` with the speed set.
pub open spec fn with_speed(v: GPlayerV, speed: i64) -> GPlayerV {
    GPlayerV {
        player: crate::player::PlayerV {
            sink: SinkV {
                controls: Controls { speed, ..v.player.sink.controls },
                ..v.player.sink
            },
            ..v.player
        },
        ..v
    }
}

/// The dispatch table: how each command relates the state before to the
/// state after, the reply, and the effect.
pub open spec fn dispatch_rel(
    pre: GPlayerV,
    cmd: PlayerCmd,
    pid: u64,
    post: GPlayerV,
    r: (Reply, Effect),
) -> bool {
    match cmd {
        PlayerCmd::PlaySelected => {
            &&& save_rel(pre, with_stores(pre, post.db, post.db_podcast))
            &&& post == gp_next_post(
                GPlayerV {
                    need_proceed_to_next: false,
                    ..with_stores(pre, post.db, post.db_podcast)
                },
            )
            &&& r == (Reply::Silent, Effect::Noop)
        },
        PlayerCmd::SkipNext => {
            &&& save_rel(pre, with_stores(pre, post.db, post.db_podcast))
            &&& post == gp_next_post(with_stores(pre, post.db, post.db_podcast))
            &&& r == (Reply::Silent, Effect::Noop)
        },
        PlayerCmd::SkipPrevious => {
            &&& save_rel(pre, with_stores(pre, post.db, post.db_podcast))
            &&& gp_previous_rel(with_stores(pre, post.db, post.db_podcast), post)
            &&& r == (Reply::Silent, Effect::Noop)
        },
        PlayerCmd::TogglePause => post == toggle_pause_post(pre) && r == (
            Reply::Silent,
            Effect::Noop,
        ),
        PlayerCmd::Eos => if pre.playlist.tracks.len() == 0 {
            post == stop_post(pre) && r == (Reply::Silent, Effect::Noop)
        } else {
            &&& r.0 == Reply::Silent
            &&& r.1 matches Effect::Play(a) && start_play_rel(
                GPlayerV {
                    playlist: PlaylistV {
                        current_track: None::<Track>,
                        ..pre.playlist
                    },
                    ..pre
                },
                post,
                a,
            )
        },
        PlayerCmd::VolumeUp => {
            &&& post == with_volume(
                pre,
                if pre.player.sink.controls.volume + 10 > 100 {
                    100i64
                } else {
                    (pre.player.sink.controls.volume + 10) as i64
                },
            )
            &&& r == (Reply::Volume(post.player.sink.controls.volume), Effect::Noop)
        },
        PlayerCmd::VolumeDown => {
            &&& post == with_volume(
                pre,
                if pre.player.sink.controls.volume - 10 < 0 {
                    0i64
                } else {
                    (pre.player.sink.controls.volume - 10) as i64
                },
            )
            &&& r == (Reply::Volume(post.player.sink.controls.volume), Effect::Noop)
        },
        PlayerCmd::ReloadPlaylist => post == pre && r == (Reply::Silent, Effect::ReloadPlaylist),
        PlayerCmd::SeekForward => {
            let offset = seek_step_of(pre);
            if pre.player.position + offset <= pre.player.total_duration {
                post == (GPlayerV { player: seek_post(pre.player, offset), ..pre }) && r == (
                    Reply::Silent,
                    Effect::Noop,
                )
            } else {
                post == pre && r == (Reply::Silent, Effect::Noop)
            }
        },
        PlayerCmd::SeekBackward => {
            let offset = -seek_step_of(pre);
            if pre.player.position + offset <= pre.player.total_duration {
                post == (GPlayerV { player: seek_post(pre.player, offset), ..pre }) && r == (
                    Reply::Silent,
                    Effect::Noop,
                )
            } else {
                post == pre && r == (Reply::Silent, Effect::Noop)
            }
        },
        PlayerCmd::SpeedUp => {
            &&& post == with_speed(
                pre,
                if pre.player.sink.controls.speed + 1 > 30 {
                    30i64
                } else {
                    (pre.player.sink.controls.speed + 1) as i64
                },
            )
            &&& r == (Reply::Speed(post.player.sink.controls.speed), Effect::Noop)
        },
        PlayerCmd::SpeedDown => {
            &&& post == with_speed(
                pre,
                if pre.player.sink.controls.speed - 1 < 1 {
                    1i64
                } else {
                    (pre.player.sink.controls.speed - 1) as i64
                },
            )
            &&& r == (Reply::Speed(post.player.sink.controls.speed), Effect::Noop)
        },
        PlayerCmd::Tick => if pre.playlist.status == Status::Stopped && pre.playlist.tracks.len()
            > 0 {
            &&& r.0 == Reply::Silent
            &&& r.1 matches Effect::Play(a) && start_play_rel(
                GPlayerV {
                    playlist: PlaylistV {
                        current_track: None::<Track>,
                        ..pre.playlist
                    },
                    need_proceed_to_next: false,
                    ..pre
                },
                post,
                a,
            )
        } else {
            post == pre && r == (Reply::Silent, Effect::Noop)
        },
        PlayerCmd::CycleLoop => {
            &&& post == (GPlayerV {
                playlist: PlaylistV {
                    loop_mode: cycle_spec(pre.playlist.loop_mode),
                    ..pre.playlist
                },
                ..pre
            })
            &&& r == (Reply::LoopMode(cycle_spec(pre.playlist.loop_mode)), Effect::Noop)
        },
        PlayerCmd::AboutToFinish => {
            &&& if pre.playlist.tracks.len() > 0 && pre.playlist.next_track is None
                && pre.config.player_gapless {
                enqueue_rel(pre, post)
            } else {
                post == pre
            }
            &&& r == (Reply::Silent, Effect::Noop)
        },
        PlayerCmd::DurationNext(d) => {
            &&& post == (GPlayerV {
                playlist: PlaylistV { next_track_duration: d, ..pre.playlist },
                ..pre
            })
            &&& r == (Reply::Silent, Effect::Noop)
        },
        PlayerCmd::ProcessID => post == pre && r == (Reply::Pid(pid), Effect::Noop),
        PlayerCmd::FetchStatus => post == pre && r == (
            Reply::PlayStatus(pre.playlist.status),
            Effect::Noop,
        ),
        PlayerCmd::GetProgress => post == pre && r == (
            Reply::Progress(
                pre.player.position,
                pre.player.total_duration,
                pre.playlist.current_track_index,
            ),
            Effect::Noop,
        ),
        PlayerCmd::ReloadConfig => post == pre && r == (Reply::Silent, Effect::ReloadConfig),
        PlayerCmd::ToggleGapless => {
            &&& post == (GPlayerV {
                player: crate::player::PlayerV {
                    gapless: !pre.player.gapless,
                    ..pre.player
                },
                config: Settings { player_gapless: !pre.player.gapless, ..pre.config },
                ..pre
            })
            &&& r == (Reply::Gapless(!pre.player.gapless), Effect::Noop)
        },
    }
}

fn do_play_selected(p: &mut GeneralPlayer)
    requires
        old(p)@.wf(),
    ensures
        final(p)@.wf(),
        save_rel(old(p)@, with_stores(old(p)@, final(p)@.db, final(p)@.db_podcast)),
        final(p)@ == gp_next_post(
            GPlayerV {
                need_proceed_to_next: false,
                ..with_stores(old(p)@, final(p)@.db, final(p)@.db_podcast)
            },
        ),
{
    p.player_save_last_position();
    p.need_proceed_to_next = false;
    p.next();
}

fn do_skip_next(p: &mut GeneralPlayer)
    requires
        old(p)@.wf(),
    ensures
        final(p)@.wf(),
        save_rel(old(p)@, with_stores(old(p)@, final(p)@.db, final(p)@.db_podcast)),
        final(p)@ == gp_next_post(with_stores(old(p)@, final(p)@.db, final(p)@.db_podcast)),
{
    p.player_save_last_position();
    p.next();
}

fn do_skip_previous(p: &mut GeneralPlayer)
    requires
        old(p)@.wf(),
    ensures
        final(p)@.wf(),
        save_rel(old(p)@, with_stores(old(p)@, final(p)@.db, final(p)@.db_podcast)),
        gp_previous_rel(with_stores(old(p)@, final(p)@.db, final(p)@.db_podcast), final(p)@),
{
    p.player_save_last_position();
    p.previous();
}

fn do_eos(p: &mut GeneralPlayer) -> (r: Effect)
    requires
        old(p)@.wf(),
    ensures
        final(p)@.wf(),
        if old(p)@.playlist.tracks.len() == 0 {
            final(p)@ == stop_post(old(p)@) && r matches Effect::Noop
        } else {
            r matches Effect::Play(a) && start_play_rel(
                GPlayerV {
                    playlist: PlaylistV { current_track: None::<Track>, ..old(p)@.playlist },
                    ..old(p)@
                },
                final(p)@,
                a,
            )
        },
{
    if p.playlist.is_empty() {
        p.stop();
        Effect::Noop
    } else {
        p.playlist.clear_current_track();
        let action = p.start_play();
        Effect::Play(action)
    }
}

fn do_tick(p: &mut GeneralPlayer) -> (r: Effect)
    requires
        old(p)@.wf(),
    ensures
        final(p)@.wf(),
        if old(p)@.playlist.status == Status::Stopped && old(p)@.playlist.tracks.len() > 0 {
            r matches Effect::Play(a) && start_play_rel(
                GPlayerV {
                    playlist: PlaylistV { current_track: None::<Track>, ..old(p)@.playlist },
                    need_proceed_to_next: false,
                    ..old(p)@
                },
                final(p)@,
                a,
            )
        } else {
            *final(p) == *old(p) && r matches Effect::Noop
        },
{
    if p.playlist.is_stopped() {
        if p.playlist.is_empty() {
            Effect::Noop
        } else {
            p.playlist.clear_current_track();
            p.need_proceed_to_next = false;
            let action = p.start_play();
            Effect::Play(action)
        }
    } else {
        Effect::Noop
    }
}

fn do_seek(p: &mut GeneralPlayer, forward: bool)
    requires
        old(p)@.wf(),
    ensures
        final(p)@.wf(),
        ({
            let offset = if forward {
                seek_step_of(old(p)@)
            } else {
                -seek_step_of(old(p)@)
            };
            if old(p)@.player.position + offset <= old(p)@.player.total_duration {
                final(p)@ == (GPlayerV { player: seek_post(old(p)@.player, offset), ..old(p)@ })
            } else {
                *final(p) == *old(p)
            }
        }),
{
    let _ignored = p.seek_relative(forward);
}

fn do_about_to_finish(p: &mut GeneralPlayer)
    requires
        old(p)@.wf(),
    ensures
        final(p)@.wf(),
        if old(p)@.playlist.tracks.len() > 0 && old(p)@.playlist.next_track is None
            && old(p)@.config.player_gapless {
            enqueue_rel(old(p)@, final(p)@)
        } else {
            *final(p) == *old(p)
        },
{
    if !p.playlist.is_empty() && !p.playlist.has_next_track() && p.config.player_gapless {
        p.enqueue_next();
    }
}

/// Dispatches one command against the player, per the daemon's table:
/// mutates the state, and returns the reply to send and the outside work
/// to perform. `pid` is the daemon's process id, supplied by the caller.
#[verifier::rlimit(100)]
#[verifier::spinoff_prover]
pub fn handle_command(p: &mut GeneralPlayer, cmd: &PlayerCmd, pid: u64) -> (r: (Reply, Effect))
    requires
        old(p)@.wf(),
    ensures
        final(p)@.wf(),
        dispatch_rel(old(p)@, *cmd, pid, final(p)@, r),
{
    match cmd {
        PlayerCmd::PlaySelected => {
            do_play_selected(p);
            (Reply::Silent, Effect::Noop)
        },
        PlayerCmd::SkipNext => {
            do_skip_next(p);
            (Reply::Silent, Effect::Noop)
        },
        PlayerCmd::SkipPrevious => {
            do_skip_previous(p);
            (Reply::Silent, Effect::Noop)
        },
        PlayerCmd::TogglePause => {
            p.toggle_pause();
            (Reply::Silent, Effect::Noop)
        },
        PlayerCmd::Eos => {
            let effect = do_eos(p);
            (Reply::Silent, effect)
        },
        PlayerCmd::VolumeUp => {
            p.volume_up();
            (Reply::Volume(p.volume()), Effect::Noop)
        },
        PlayerCmd::VolumeDown => {
            p.volume_down();
            (Reply::Volume(p.volume()), Effect::Noop)
        },
        PlayerCmd::ReloadPlaylist => (Reply::Silent, Effect::ReloadPlaylist),
        PlayerCmd::SeekForward => {
            do_seek(p, true);
            (Reply::Silent, Effect::Noop)
        },
        PlayerCmd::SeekBackward => {
            do_seek(p, false);
            (Reply::Silent, Effect::Noop)
        },
        PlayerCmd::SpeedUp => {
            p.speed_up();
            (Reply::Speed(p.speed()), Effect::Noop)
        },
        PlayerCmd::SpeedDown => {
            p.speed_down();
            (Reply::Speed(p.speed()), Effect::Noop)
        },
        PlayerCmd::Tick => {
            let effect = do_tick(p);
            (Reply::Silent, effect)
        },
        PlayerCmd::CycleLoop => {
            let mode = p.playlist.cycle_loop_mode();
            (Reply::LoopMode(mode), Effect::Noop)
        },
        PlayerCmd::AboutToFinish => {
            do_about_to_finish(p);
            (Reply::Silent, Effect::Noop)
        },
        PlayerCmd::DurationNext(d) => {
            p.playlist.set_next_track_duration(*d);
            (Reply::Silent, Effect::Noop)
        },
        PlayerCmd::ProcessID => (Reply::Pid(pid), Effect::Noop),
        PlayerCmd::FetchStatus => (Reply::PlayStatus(p.playlist.status()), Effect::Noop),
        PlayerCmd::GetProgress => {
            let (position, duration) = p.get_progress();
            let index = p.playlist.get_current_track_index();
            (Reply::Progress(position, duration, index), Effect::Noop)
        },
        PlayerCmd::ReloadConfig => (Reply::Silent, Effect::ReloadConfig),
        PlayerCmd::ToggleGapless => {
            let gapless = p.toggle_gapless();
            (Reply::Gapless(gapless), Effect::Noop)
        },
    }
}

} // verus!
