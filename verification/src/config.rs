//! Configuration options recognized by the playback core.
use vstd::prelude::*;

verus! {

/// Loop mode of the playlist: repeat one track, cycle through the whole
/// playlist, or pick a random other track.
#[derive(Clone, Copy, PartialEq, Eq, Structural, Debug)]
pub enum Loop {
    Single,
    Playlist,
    Random,
}

/// How far a relative seek moves: a short step (5 s), a long step (30 s),
/// or automatically by track length (30 s for tracks of at least ten
/// minutes, else 5 s).
#[derive(Clone, Copy, PartialEq, Eq, Structural, Debug)]
pub enum SeekStep {
    Short,
    Long,
    Auto,
}

/// Whether the position a track was last stopped at is saved and restored:
/// always, never, or automatically for long tracks only (at least ten
/// minutes).
#[derive(Clone, Copy, PartialEq, Eq, Structural, Debug)]
pub enum LastPosition {
    Yes,
    No,
    Auto,
}

/// The configuration options the playback core reads.
#[derive(Clone, Copy, PartialEq, Eq, Structural, Debug)]
pub struct Settings {
    /// Arms next-track pre-queueing for gapless hand-off.
    pub player_gapless: bool,
    /// Enables the MPRIS presence bridge (driven outside the core).
    pub player_use_mpris: bool,
    /// Enables the Discord presence bridge (driven outside the core).
    pub player_use_discord: bool,
    /// Magnitude of a relative seek.
    pub player_seek_step: SeekStep,
    /// Policy for saving and restoring the last played position.
    pub player_remember_last_played_position: LastPosition,
    /// Loop mode the playlist starts with.
    pub player_loop_mode: Loop,
    /// When true, added tracks go to the front of the playlist.
    pub add_playlist_front: bool,
}

impl Settings {
    /// A default configuration: gapless off, no bridges, automatic seek step
    /// and last-position policy, playlist-cycle loop mode, append at the back.
    pub fn new() -> (r: Settings)
        ensures
            r == (Settings {
                player_gapless: false,
                player_use_mpris: false,
                player_use_discord: false,
                player_seek_step: SeekStep::Auto,
                player_remember_last_played_position: LastPosition::Auto,
                player_loop_mode: Loop::Playlist,
                add_playlist_front: false,
            }),
    {
        Settings {
            player_gapless: false,
            player_use_mpris: false,
            player_use_discord: false,
            player_seek_step: SeekStep::Auto,
            player_remember_last_played_position: LastPosition::Auto,
            player_loop_mode: Loop::Playlist,
            add_playlist_front: false,
        }
    }
}

} // verus!
