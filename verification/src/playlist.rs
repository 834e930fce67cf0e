//! The playlist state machine: track list, current-track selection, loop
//! modes, previous/next history, gapless pre-fetch marker, persistence.
use vstd::prelude::*;

use crate::config::{Loop, Settings};
use crate::textfmt::{
    all_digits, dec_rep, dec_val, is_digit, join_lines, split_lines, fmt_usize, parse_usize,
    split_str_lines, lemma_dec_rep_digits, lemma_dec_roundtrip, lemma_split_join,
};
use crate::track::{MediaType, Track};

verus! {

/// Playback status of the playlist.
#[derive(Clone, Copy, PartialEq, Eq, Structural, Debug)]
pub enum Status {
    Stopped,
    Running,
    Paused,
}

impl Default for Status {
    /// The initial status is `Stopped`.
    fn default() -> (r: Self)
        ensures
            r == Status::Stopped,
    {
        Status::Stopped
    }
}

impl Status {
    /// The wire encoding of a status.
    pub fn as_u32(&self) -> (r: u32)
        ensures
            r == match self {
                Status::Stopped => 0u32,
                Status::Running => 1u32,
                Status::Paused => 2u32,
            },
    {
        match self {
            Status::Stopped => 0,
            Status::Running => 1,
            Status::Paused => 2,
        }
    }

    /// Decodes a status; unknown encodings fall back to `Stopped`.
    pub fn from_u32(status: u32) -> (r: Self)
        ensures
            r == if status == 1 {
                Status::Running
            } else if status == 2 {
                Status::Paused
            } else {
                Status::Stopped
            },
    {
        match status {
            1 => Status::Running,
            2 => Status::Paused,
            _ => Status::Stopped,
        }
    }
}

/// Errors of the playlist operations.
#[derive(Clone, Copy, PartialEq, Eq, Structural, Debug)]
pub enum PlaylistError {
    /// There is no current track, so no next track can be chosen.
    NoNextTrack,
    /// The playlist holds no tracks.
    NoTracks,
}

/// The abstract state of a playlist.
pub struct PlaylistV {
    pub tracks: Seq<Track>,
    pub current_track_index: Option<usize>,
    pub next_track_index: usize,
    pub played_index: Seq<usize>,
    pub current_track: Option<Track>,
    pub next_track: Option<Track>,
    pub next_track_duration: u64,
    pub status: Status,
    pub loop_mode: Loop,
    pub add_playlist_front: bool,
}

impl PlaylistV {
    /// The invariant: a current-track index always indexes a valid position.
    pub open spec fn inv(self) -> bool {
        self.current_track_index matches Some(i) ==> i < self.tracks.len()
    }

    /// The current track: the cached snapshot when one is set, else the
    /// track at the current index.
    pub open spec fn cur_track(self) -> Option<Track> {
        if self.current_track is Some {
            self.current_track
        } else {
            match self.current_track_index {
                Some(i) => if i < self.tracks.len() {
                    Some(self.tracks[i as int])
                } else {
                    None
                },
                None => None,
            }
        }
    }
}

/// An ordered list of tracks with a current position, a loop policy, a
/// history of played positions, and a marker for a gapless pre-queued next
/// track.
pub struct Playlist {
    pub tracks: Vec<Track>,
    pub current_track_index: Option<usize>,
    pub next_track_index: usize,
    pub played_index: Vec<usize>,
    pub current_track: Option<Track>,
    pub next_track: Option<Track>,
    pub next_track_duration: u64,
    pub status: Status,
    pub loop_mode: Loop,
    pub add_playlist_front: bool,
}

impl View for Playlist {
    type V = PlaylistV;

    open spec fn view(&self) -> PlaylistV {
        PlaylistV {
            tracks: self.tracks@,
            current_track_index: self.current_track_index,
            next_track_index: self.next_track_index,
            played_index: self.played_index@,
            current_track: self.current_track,
            next_track: self.next_track,
            next_track_duration: self.next_track_duration,
            status: self.status,
            loop_mode: self.loop_mode,
            add_playlist_front: self.add_playlist_front,
        }
    }
}

/// The successor of a loop mode under cycling: random, playlist-cycle and
/// single repeat, in a cycle of three.
pub open spec fn cycle_spec(m: Loop) -> Loop {
    match m {
        Loop::Random => Loop::Playlist,
        Loop::Playlist => Loop::Single,
        Loop::Single => Loop::Random,
    }
}

impl Playlist {
    /// Builds a playlist from a configuration and the already-materialized
    /// tracks of the persisted playlist file. An out-of-range persisted
    /// index is dropped, so the invariant holds from the start.
    pub fn new(config: &Settings, current_track_index: Option<usize>, tracks: Vec<Track>) -> (r:
        Playlist)
        ensures
            r@.inv(),
            r@.tracks == tracks@,
            r@.current_track_index == if current_track_index matches Some(i) && i < tracks@.len() {
                current_track_index
            } else {
                None::<usize>
            },
            r@.next_track_index == 0,
            r@.played_index == Seq::<usize>::empty(),
            r@.current_track is None,
            r@.next_track is None,
            r@.next_track_duration == 0,
            r@.status == Status::Stopped,
            r@.loop_mode == config.player_loop_mode,
            r@.add_playlist_front == config.add_playlist_front,
    {
        let index = match current_track_index {
            Some(i) => if i < tracks.len() {
                Some(i)
            } else {
                None
            },
            None => None,
        };
        Playlist {
            tracks,
            current_track_index: index,
            next_track_index: 0,
            played_index: Vec::new(),
            current_track: None,
            next_track: None,
            next_track_duration: 0,
            status: Status::Stopped,
            loop_mode: config.player_loop_mode,
            add_playlist_front: config.add_playlist_front,
        }
    }

    /// Replaces the track list and current index with freshly loaded ones;
    /// an out-of-range index is dropped.
    pub fn reload_tracks(&mut self, current_track_index: Option<usize>, tracks: Vec<Track>)
        ensures
            final(self)@.inv(),
            final(self)@ == (PlaylistV {
                tracks: tracks@,
                current_track_index: if current_track_index matches Some(i) && i < tracks@.len() {
                    current_track_index
                } else {
                    None::<usize>
                },
                ..old(self)@
            }),
    {
        let index = match current_track_index {
            Some(i) => if i < tracks.len() {
                Some(i)
            } else {
                None
            },
            None => None,
        };
        self.tracks = tracks;
        self.current_track_index = index;
    }

    /// The number of tracks.
    pub fn len(&self) -> (r: usize)
        ensures
            r == self@.tracks.len(),
    {
        self.tracks.len()
    }

    /// Whether the playlist holds no tracks.
    pub fn is_empty(&self) -> (r: bool)
        ensures
            r == (self@.tracks.len() == 0),
    {
        self.tracks.len() == 0
    }

    /// Sets the playback status.
    pub fn set_status(&mut self, status: Status)
        ensures
            final(self)@ == (PlaylistV { status, ..old(self)@ }),
    {
        self.status = status;
    }

    /// Whether playback is stopped.
    pub fn is_stopped(&self) -> (r: bool)
        ensures
            r == (self@.status == Status::Stopped),
    {
        self.status == Status::Stopped
    }

    /// Whether playback is paused.
    pub fn is_paused(&self) -> (r: bool)
        ensures
            r == (self@.status == Status::Paused),
    {
        self.status == Status::Paused
    }

    /// The playback status.
    pub fn status(&self) -> (r: Status)
        ensures
            r == self@.status,
    {
        self.status
    }

    /// Advances the loop mode to the next of the three modes and returns it.
    pub fn cycle_loop_mode(&mut self) -> (r: Loop)
        ensures
            final(self)@ == (PlaylistV { loop_mode: cycle_spec(old(self)@.loop_mode), ..old(self)@ }),
            r == final(self)@.loop_mode,
    {
        self.loop_mode = match self.loop_mode {
            Loop::Random => Loop::Playlist,
            Loop::Playlist => Loop::Single,
            Loop::Single => Loop::Random,
        };
        self.loop_mode
    }

    /// Flips the add-to-front flag and returns its new value.
    pub fn toggle_add_front(&mut self) -> (r: bool)
        ensures
            final(self)@ == (PlaylistV { add_playlist_front: !old(self)@.add_playlist_front, ..old(
                self,
            )@ }),
            r == final(self)@.add_playlist_front,
    {
        self.add_playlist_front = !self.add_playlist_front;
        self.add_playlist_front
    }

    /// The tracks, in order.
    pub fn tracks(&self) -> (r: &Vec<Track>)
        ensures
            r@ == self@.tracks,
    {
        &self.tracks
    }

    /// Forgets the cached current-track snapshot, so the current track is
    /// again read through the current index.
    pub fn clear_current_track(&mut self)
        ensures
            final(self)@ == (PlaylistV { current_track: None::<Track>, ..old(self)@ }),
    {
        self.current_track = None;
    }

    /// The current-track index.
    pub fn get_current_track_index(&self) -> (r: Option<usize>)
        ensures
            r == self@.current_track_index,
    {
        self.current_track_index
    }

    /// Sets the current-track index. The index must be in range (or `None`)
    /// to keep the playlist pointing at a valid position.
    pub fn set_current_track_index(&mut self, index: Option<usize>)
        requires
            index matches Some(i) ==> i < old(self)@.tracks.len(),
        ensures
            final(self)@ == (PlaylistV { current_track_index: index, ..old(self)@ }),
    {
        self.current_track_index = index;
    }

    /// The pre-fetched next track, when one is armed for gapless hand-off.
    pub fn next_track(&self) -> (r: Option<&Track>)
        ensures
            r is Some <==> self@.next_track is Some,
            r is Some ==> *r->0 == self@.next_track->0,
    {
        self.next_track.as_ref()
    }

    /// Arms (or clears) the pre-fetched next track for gapless hand-off.
    pub fn set_next_track(&mut self, track: Option<&Track>)
        ensures
            final(self)@ == (PlaylistV {
                next_track: match track {
                    Some(t) => Some(*t),
                    None => None::<Track>,
                },
                ..old(self)@
            }),
    {
        match track {
            Some(t) => self.next_track = Some(t.clone()),
            None => self.next_track = None,
        }
    }

    /// Whether a next track is armed for gapless hand-off.
    pub fn has_next_track(&self) -> (r: bool)
        ensures
            r == (self@.next_track is Some),
    {
        self.next_track.is_some()
    }

    /// The duration, in whole seconds, reported for the pre-queued next track.
    pub fn next_track_duration(&self) -> (r: u64)
        ensures
            r == self@.next_track_duration,
    {
        self.next_track_duration
    }

    /// Records the duration, in whole seconds, of the pre-queued next track.
    pub fn set_next_track_duration(&mut self, d: u64)
        ensures
            final(self)@ == (PlaylistV { next_track_duration: d, ..old(self)@ }),
    {
        self.next_track_duration = d;
    }
}

/// Relies on rand::Rng::gen_range over a thread-local generator: a value
/// drawn from `[0, n)`. It panics only on an empty range, which the
/// precondition rules out.
#[verifier::external_body]
fn random_below(n: usize) -> (r: usize)
    requires
        n > 0,
    ensures
        r < n,
{
    rand::Rng::gen_range(&mut rand::thread_rng(), 0..n)
}

/// What the chosen next index may be, given the loop mode: the same index
/// for single repeat, the successor modulo the length for playlist cycling,
/// and for random mode any in-range index other than the current one —
/// except that a one-track playlist yields the current index.
pub open spec fn is_next_index(pre: PlaylistV, r: usize) -> bool {
    match pre.current_track_index {
        Some(i) => {
            let len = pre.tracks.len();
            match pre.loop_mode {
                Loop::Single => r == i,
                Loop::Playlist => r == if i + 1 >= len {
                    0int
                } else {
                    i + 1
                },
                Loop::Random => r < len && (len > 1 ==> r != i) && (len <= 1 ==> r == i),
            }
        },
        None => false,
    }
}

/// How `next` changes the state: the current index — when one exists — is
/// pushed on the history (it never records positions that were not
/// current); the new current index is the armed next-track index whenever
/// one is armed and valid (the gapless hand-off), else a next index per
/// the loop mode; everything else is unchanged.
pub open spec fn next_transition(pre: PlaylistV, post: PlaylistV) -> bool {
    &&& post.played_index == match pre.current_track_index {
        Some(i) => pre.played_index.push(i),
        None => pre.played_index,
    }
    &&& if pre.next_track is Some && pre.next_track_index < pre.tracks.len() {
        post.current_track_index == Some(pre.next_track_index)
    } else if pre.current_track_index is Some {
        post.current_track_index matches Some(r) && is_next_index(pre, r)
    } else {
        post.current_track_index == pre.current_track_index
    }
    &&& post == (PlaylistV {
        played_index: post.played_index,
        current_track_index: post.current_track_index,
        ..pre
    })
}

/// How `previous` changes the state: when the history is non-empty its top
/// is popped and becomes the current index (or `None` when it no longer
/// indexes a track); with an empty history, playlist cycling steps back one
/// position (wrapping from zero to the end), single repeat stays, and
/// random mode picks as `is_next_index` does.
pub open spec fn prev_transition(pre: PlaylistV, post: PlaylistV) -> bool {
    &&& if pre.played_index.len() > 0 {
        &&& post.played_index == pre.played_index.drop_last()
        &&& post.current_track_index == if pre.played_index.last() < pre.tracks.len() {
            Some(pre.played_index.last())
        } else {
            None::<usize>
        }
    } else {
        &&& post.played_index == pre.played_index
        &&& match pre.loop_mode {
            Loop::Single => post.current_track_index == pre.current_track_index,
            Loop::Playlist => post.current_track_index == match pre.current_track_index {
                Some(i) => if i == 0 {
                    Some((pre.tracks.len() - 1) as usize)
                } else {
                    Some((i - 1) as usize)
                },
                None => None::<usize>,
            },
            Loop::Random => match pre.current_track_index {
                Some(i) => post.current_track_index matches Some(r) && is_next_index(pre, r),
                None => post.current_track_index == if pre.tracks.len() > 0 {
                    Some(0usize)
                } else {
                    None::<usize>
                },
            },
        }
    }
    &&& post == (PlaylistV {
        played_index: post.played_index,
        current_track_index: post.current_track_index,
        ..pre
    })
}

impl Playlist {
    /// A uniformly random in-range index, avoiding the current index when
    /// more than one track exists. On a one-track playlist it returns the
    /// current index at once — it never retries to avoid it. Without a
    /// current track it returns zero.
    fn get_random_index(&self) -> (r: usize)
        requires
            self@.inv(),
        ensures
            match self@.current_track_index {
                Some(i) => is_next_index(
                    PlaylistV { loop_mode: Loop::Random, ..self@ },
                    r,
                ),
                None => r == 0,
            },
    {
        match self.current_track_index {
            None => 0,
            Some(i) => {
                let len = self.tracks.len();
                if len <= 1 {
                    i
                } else {
                    let r = random_below(len - 1);
                    if r >= i {
                        r + 1
                    } else {
                        r
                    }
                }
            },
        }
    }

    /// The index the loop mode selects as next, or an error when there is
    /// no current track.
    fn get_next_track_index(&self) -> (r: Result<usize, PlaylistError>)
        requires
            self@.inv(),
        ensures
            r is Ok <==> self@.current_track_index is Some,
            r matches Ok(v) ==> is_next_index(self@, v),
            r matches Err(e) ==> e == PlaylistError::NoNextTrack,
    {
        if let Some(index) = self.current_track_index {
            let next_track_index: usize = match self.loop_mode {
                Loop::Single => index,
                Loop::Playlist => {
                    let len = self.tracks.len();
                    if index + 1 >= len {
                        0
                    } else {
                        index + 1
                    }
                },
                Loop::Random => self.get_random_index(),
            };
            return Ok(next_track_index);
        }
        Err(PlaylistError::NoNextTrack)
    }

    /// Pushes the current index — when one exists — on the history and
    /// advances the current index: to the armed next-track index when one
    /// is valid (the gapless hand-off), else per the loop mode.
    pub fn next(&mut self)
        requires
            old(self)@.inv(),
        ensures
            final(self)@.inv(),
            next_transition(old(self)@, final(self)@),
    {
        if let Some(i) = self.current_track_index {
            self.played_index.push(i);
        }
        if self.next_track.is_some() && self.next_track_index < self.tracks.len() {
            self.current_track_index = Some(self.next_track_index);
            return;
        }
        if let Ok(next_track_index) = self.get_next_track_index() {
            self.current_track_index = Some(next_track_index);
        }
    }

    /// Steps back: pops the history when it is non-empty; otherwise moves
    /// per the loop mode, wrapping from position zero to the last track
    /// under playlist cycling.
    pub fn previous(&mut self)
        requires
            old(self)@.inv(),
        ensures
            final(self)@.inv(),
            prev_transition(old(self)@, final(self)@),
    {
        if self.played_index.len() > 0 {
            if let Some(index) = self.played_index.pop() {
                if index < self.tracks.len() {
                    self.current_track_index = Some(index);
                } else {
                    self.current_track_index = None;
                }
                return;
            }
        }
        match self.loop_mode {
            Loop::Single => {},
            Loop::Playlist => {
                if let Some(index) = self.current_track_index {
                    if index == 0 {
                        self.current_track_index = Some(self.tracks.len() - 1);
                    } else {
                        self.current_track_index = Some(index - 1);
                    }
                }
            },
            Loop::Random => {
                if self.current_track_index.is_some() || self.tracks.len() > 0 {
                    self.current_track_index = Some(self.get_random_index());
                }
            },
        }
    }

    /// Selects the prospective next track: records its index as the armed
    /// next-track index and returns a copy of the track, or `None` when
    /// there is no current track.
    pub fn fetch_next_track(&mut self) -> (r: Option<Track>)
        requires
            old(self)@.inv(),
        ensures
            final(self)@.inv(),
            r is Some <==> old(self)@.current_track_index is Some,
            r matches Some(t) ==> {
                &&& is_next_index(old(self)@, final(self)@.next_track_index)
                &&& final(self)@ == (PlaylistV {
                    next_track_index: final(self)@.next_track_index,
                    ..old(self)@
                })
                &&& t == old(self)@.tracks[final(self)@.next_track_index as int]
            },
            r is None ==> *final(self) == *old(self),
    {
        match self.get_next_track_index() {
            Ok(index) => {
                self.next_track_index = index;
                proof {
                    assert(index < self.tracks@.len());
                }
                Some(self.tracks[index].clone())
            },
            Err(_) => None,
        }
    }
}

/// Relies on rand::seq::SliceRandom::shuffle: an in-place permutation of
/// the slice (a sequence of swaps), so the elements' multiset and the
/// length are unchanged.
#[verifier::external_body]
fn shuffle_tracks(v: &mut Vec<Track>)
    ensures
        final(v)@.to_multiset() == old(v)@.to_multiset(),
        final(v)@.len() == old(v)@.len(),
{
    rand::seq::SliceRandom::shuffle(v.as_mut_slice(), &mut rand::thread_rng());
}

/// Does track `t` carry the source URI `f`?
pub open spec fn track_has_file(t: Track, f: Seq<char>) -> bool {
    t.file matches Some(s) && s@ == f
}

/// The first position whose track carries the URI `f`.
pub open spec fn find_file(tracks: Seq<Track>, f: Seq<char>) -> Option<int>
    decreases tracks.len(),
{
    if tracks.len() == 0 {
        None
    } else if track_has_file(tracks.first(), f) {
        Some(0)
    } else {
        match find_file(tracks.drop_first(), f) {
            Some(i) => Some(i + 1),
            None => None,
        }
    }
}

proof fn lemma_find_file_hit(tracks: Seq<Track>, f: Seq<char>, i: int)
    requires
        0 <= i < tracks.len(),
        track_has_file(tracks[i], f),
        forall|k: int| 0 <= k < i ==> !track_has_file(#[trigger] tracks[k], f),
    ensures
        find_file(tracks, f) == Some(i),
    decreases i,
{
    if i > 0 {
        assert(!track_has_file(tracks.first(), f));
        lemma_find_file_hit(tracks.drop_first(), f, i - 1);
    }
}

proof fn lemma_find_file_miss(tracks: Seq<Track>, f: Seq<char>)
    requires
        forall|k: int| 0 <= k < tracks.len() ==> !track_has_file(#[trigger] tracks[k], f),
    ensures
        find_file(tracks, f) is None,
    decreases tracks.len(),
{
    if tracks.len() > 0 {
        lemma_find_file_miss(tracks.drop_first(), f);
    }
}

/// The tracks selected by a keep-mask, in their given order.
pub open spec fn mask_filter(tracks: Seq<Track>, keep: Seq<bool>) -> Seq<Track>
    decreases tracks.len(),
{
    if tracks.len() == 0 {
        Seq::empty()
    } else {
        mask_filter(tracks.drop_last(), keep.drop_last()) + if keep.last() {
            seq![tracks.last()]
        } else {
            Seq::empty()
        }
    }
}

impl Playlist {
    /// Moves the track at `index` one position towards the end, keeping the
    /// current-track pointer on the track it pointed at. Out-of-range
    /// indices leave the playlist unchanged.
    pub fn swap_down(&mut self, index: usize)
        requires
            old(self)@.inv(),
        ensures
            final(self)@.inv(),
            if old(self)@.tracks.len() >= 2 && index < old(self)@.tracks.len() - 1 {
                final(self)@ == (PlaylistV {
                    tracks: old(self)@.tracks.update(index as int, old(self)@.tracks[index + 1]).update(
                        index + 1,
                        old(self)@.tracks[index as int],
                    ),
                    current_track_index: if old(self)@.current_track_index == Some(index) {
                        Some((index + 1) as usize)
                    } else if old(self)@.current_track_index == Some((index + 1) as usize) {
                        Some(index)
                    } else {
                        old(self)@.current_track_index
                    },
                    ..old(self)@
                })
            } else {
                *final(self) == *old(self)
            },
    {
        let len = self.tracks.len();
        if len >= 2 && index < len - 1 {
            let track = self.tracks.remove(index);
            self.tracks.insert(index + 1, track);
            proof {
                assert(self.tracks@ =~= old(self)@.tracks.update(
                    index as int,
                    old(self)@.tracks[index + 1],
                ).update(index + 1, old(self)@.tracks[index as int]));
            }
            if let Some(current_index) = self.current_track_index {
                if index == current_index {
                    self.current_track_index = Some(current_index + 1);
                } else if current_index > 0 && index == current_index - 1 {
                    self.current_track_index = Some(current_index - 1);
                }
            }
        }
    }

    /// Moves the track at `index` one position towards the front, keeping
    /// the current-track pointer on the track it pointed at. Position zero
    /// and out-of-range indices leave the playlist unchanged.
    pub fn swap_up(&mut self, index: usize)
        requires
            old(self)@.inv(),
        ensures
            final(self)@.inv(),
            if 0 < index < old(self)@.tracks.len() {
                final(self)@ == (PlaylistV {
                    tracks: old(self)@.tracks.update(index - 1, old(self)@.tracks[index as int]).update(
                        index as int,
                        old(self)@.tracks[index - 1],
                    ),
                    current_track_index: if old(self)@.current_track_index == Some(index) {
                        Some((index - 1) as usize)
                    } else if old(self)@.current_track_index == Some((index - 1) as usize) {
                        Some(index)
                    } else {
                        old(self)@.current_track_index
                    },
                    ..old(self)@
                })
            } else {
                *final(self) == *old(self)
            },
    {
        if index > 0 && index < self.tracks.len() {
            let track = self.tracks.remove(index);
            self.tracks.insert(index - 1, track);
            proof {
                assert(self.tracks@ =~= old(self)@.tracks.update(
                    index - 1,
                    old(self)@.tracks[index as int],
                ).update(index as int, old(self)@.tracks[index - 1]));
            }
            if let Some(current_index) = self.current_track_index {
                if index == current_index {
                    self.current_track_index = Some(current_index - 1);
                } else if index == current_index + 1 {
                    self.current_track_index = Some(current_index + 1);
                }
            }
        }
    }

    /// Removes the track at `index` (out-of-range indices are ignored) and
    /// shifts the current-track pointer down when the removal was at or
    /// before it; removing the first track while it is current clears the
    /// pointer.
    pub fn remove(&mut self, index: usize)
        requires
            old(self)@.inv(),
        ensures
            final(self)@.inv(),
            if index < old(self)@.tracks.len() {
                final(self)@ == (PlaylistV {
                    tracks: old(self)@.tracks.remove(index as int),
                    current_track_index: match old(self)@.current_track_index {
                        Some(ci) => if index <= ci {
                            if ci == 0 {
                                None::<usize>
                            } else {
                                Some((ci - 1) as usize)
                            }
                        } else {
                            Some(ci)
                        },
                        None => None::<usize>,
                    },
                    ..old(self)@
                })
            } else {
                *final(self) == *old(self)
            },
    {
        if index < self.tracks.len() {
            self.tracks.remove(index);
            if let Some(current_index) = self.current_track_index {
                if index <= current_index {
                    if current_index == 0 {
                        self.current_track_index = None;
                    } else {
                        self.current_track_index = Some(current_index - 1);
                    }
                }
            }
        }
    }

    /// Removes every track and clears the current-track pointer.
    pub fn clear(&mut self)
        ensures
            final(self)@ == (PlaylistV {
                tracks: Seq::<Track>::empty(),
                current_track_index: None::<usize>,
                ..old(self)@
            }),
            final(self)@.inv(),
    {
        self.tracks.clear();
        self.current_track_index = None;
    }

    /// Adds one materialized episode track: to the front when the
    /// add-to-front flag is set (advancing the playlist when it is not
    /// stopped), else to the back.
    pub fn add_episode(&mut self, track: Track)
        requires
            old(self)@.inv(),
        ensures
            final(self)@.inv(),
            if old(self)@.add_playlist_front {
                {
                    let mid = PlaylistV { tracks: seq![track] + old(self)@.tracks, ..old(self)@ };
                    if old(self)@.status != Status::Stopped {
                        next_transition(mid, final(self)@)
                    } else {
                        final(self)@ == mid
                    }
                }
            } else {
                final(self)@ == (PlaylistV {
                    tracks: old(self)@.tracks.push(track),
                    ..old(self)@
                })
            },
    {
        if self.add_playlist_front {
            self.tracks.insert(0, track);
            proof {
                assert(self.tracks@ =~= seq![track] + old(self)@.tracks);
            }
            if !(self.status == Status::Stopped) {
                self.next();
            }
            return;
        }
        self.tracks.push(track);
    }

    /// Adds a batch of materialized tracks: at the front in their given
    /// order when the add-to-front flag is set — shifting the current-track
    /// pointer past them, or placing it at the start when the playlist was
    /// empty — else appended at the back.
    pub fn add_playlist(&mut self, tracks: Vec<Track>)
        requires
            old(self)@.inv(),
        ensures
            final(self)@.inv(),
            if old(self)@.add_playlist_front {
                final(self)@ == (PlaylistV {
                    tracks: tracks@ + old(self)@.tracks,
                    current_track_index: if old(self)@.tracks.len() == 0 {
                        if tracks@.len() > 0 {
                            Some(0usize)
                        } else {
                            None::<usize>
                        }
                    } else {
                        match old(self)@.current_track_index {
                            Some(i) => Some((tracks@.len() + i) as usize),
                            None => None::<usize>,
                        }
                    },
                    ..old(self)@
                })
            } else {
                final(self)@ == (PlaylistV { tracks: old(self)@.tracks + tracks@, ..old(self)@ })
            },
    {
        if self.add_playlist_front {
            let was_empty = self.tracks.len() == 0;
            let added = tracks.len();
            let mut new_tracks = tracks;
            new_tracks.append(&mut self.tracks);
            self.tracks = new_tracks;
            if was_empty {
                if self.tracks.len() > 0 {
                    self.current_track_index = Some(0);
                }
            } else if let Some(index) = self.current_track_index {
                let total = self.tracks.len();
                proof {
                    assert(added + index < total);
                }
                self.current_track_index = Some(added + index);
            }
            return;
        }
        let mut tail = tracks;
        self.tracks.append(&mut tail);
    }

    /// Shuffles the tracks into a random order, then re-derives the
    /// current-track pointer by the URI of the cached current track: the
    /// first position carrying that URI becomes current; without a cached
    /// track, a URI, or a hit, the pointer is left as it was.
    pub fn shuffle(&mut self)
        requires
            old(self)@.inv(),
        ensures
            final(self)@.inv(),
            final(self)@.tracks.to_multiset() == old(self)@.tracks.to_multiset(),
            final(self)@.tracks.len() == old(self)@.tracks.len(),
            final(self)@ == (PlaylistV {
                tracks: final(self)@.tracks,
                current_track_index: final(self)@.current_track_index,
                ..old(self)@
            }),
            match old(self)@.current_track {
                Some(t) => match t.file {
                    Some(f) => match find_file(final(self)@.tracks, f@) {
                        Some(i) => final(self)@.current_track_index == Some(i as usize),
                        None => final(self)@.current_track_index == old(
                            self,
                        )@.current_track_index,
                    },
                    None => final(self)@.current_track_index == old(self)@.current_track_index,
                },
                None => final(self)@.current_track_index == old(self)@.current_track_index,
            },
    {
        shuffle_tracks(&mut self.tracks);
        let cur = match &self.current_track {
            Some(t) => match &t.file {
                Some(f) => Some(f.clone()),
                None => None,
            },
            None => None,
        };
        if let Some(f) = cur {
            let ghost snap = self@;
            let len = self.tracks.len();
            let mut index: usize = 0;
            while index < len
                invariant
                    0 <= index <= len,
                    self@ == snap,
                    len == snap.tracks.len(),
                    snap == (PlaylistV { tracks: snap.tracks, ..old(self)@ }),
                    snap.tracks.to_multiset() == old(self)@.tracks.to_multiset(),
                    snap.tracks.len() == old(self)@.tracks.len(),
                    old(self)@.current_track matches Some(t) && t.file matches Some(g) && g@ == f@,
                    forall|k: int| 0 <= k < index ==> !track_has_file(#[trigger] snap.tracks[k], f@),
                decreases len - index,
            {
                let hit = match &self.tracks[index].file {
                    Some(g) => g.eq(&f),
                    None => false,
                };
                if hit {
                    proof {
                        lemma_find_file_hit(self.tracks@, f@, index as int);
                    }
                    self.current_track_index = Some(index);
                    return;
                }
                index = index + 1;
            }
            proof {
                lemma_find_file_miss(self.tracks@, f@);
            }
        }
    }

    /// Keeps exactly the tracks whose mask entry is true (one entry per
    /// track), then re-derives the current-track pointer from the current
    /// track's URI; when that URI is gone — or there was none — the pointer
    /// is cleared.
    pub fn remove_deleted_items(&mut self, keep: &Vec<bool>)
        requires
            old(self)@.inv(),
            keep@.len() == old(self)@.tracks.len(),
        ensures
            final(self)@.inv(),
            final(self)@ == (PlaylistV {
                tracks: mask_filter(old(self)@.tracks, keep@),
                current_track_index: match old(self)@.cur_track() {
                    Some(t) => match t.file {
                        Some(f) => match find_file(mask_filter(old(self)@.tracks, keep@), f@) {
                            Some(i) => Some(i as usize),
                            None => None::<usize>,
                        },
                        None => None::<usize>,
                    },
                    None => None::<usize>,
                },
                ..old(self)@
            }),
    {
        let cur = match self.current_track() {
            Some(t) => match &t.file {
                Some(f) => Some(f.clone()),
                None => None,
            },
            None => None,
        };
        let len = self.tracks.len();
        let mut kept: Vec<Track> = Vec::new();
        let mut i: usize = 0;
        proof {
            assert(self.tracks@.take(0) =~= Seq::<Track>::empty());
            assert(keep@.take(0) =~= Seq::<bool>::empty());
        }
        while i < len
            invariant
                0 <= i <= len,
                len == self.tracks@.len(),
                keep@.len() == len,
                kept@ == mask_filter(self.tracks@.take(i as int), keep@.take(i as int)),
            decreases len - i,
        {
            proof {
                assert(self.tracks@.take(i + 1).drop_last() =~= self.tracks@.take(i as int));
                assert(keep@.take(i + 1).drop_last() =~= keep@.take(i as int));
                assert(self.tracks@.take(i + 1).last() == self.tracks@[i as int]);
                assert(keep@.take(i + 1).last() == keep@[i as int]);
            }
            if keep[i] {
                kept.push(self.tracks[i].clone());
                proof {
                    assert(kept@ =~= mask_filter(
                        self.tracks@.take(i + 1),
                        keep@.take(i + 1),
                    ));
                }
            } else {
                proof {
                    assert(kept@ =~= mask_filter(
                        self.tracks@.take(i + 1),
                        keep@.take(i + 1),
                    ));
                }
            }
            i = i + 1;
        }
        proof {
            assert(self.tracks@.take(len as int) =~= self.tracks@);
            assert(keep@.take(len as int) =~= keep@);
        }
        self.tracks = kept;
        self.current_track_index = None;
        if let Some(f) = cur {
            let ghost snap = self@;
            let n = self.tracks.len();
            let mut index: usize = 0;
            while index < n
                invariant
                    0 <= index <= n,
                    self@ == snap,
                    n == snap.tracks.len(),
                    snap == (PlaylistV {
                        tracks: mask_filter(old(self)@.tracks, keep@),
                        current_track_index: None::<usize>,
                        ..old(self)@
                    }),
                    old(self)@.cur_track() matches Some(t) && t.file matches Some(g) && g@ == f@,
                    forall|k: int| 0 <= k < index ==> !track_has_file(#[trigger] snap.tracks[k], f@),
                decreases n - index,
            {
                let hit = match &self.tracks[index].file {
                    Some(g) => g.eq(&f),
                    None => false,
                };
                if hit {
                    proof {
                        lemma_find_file_hit(self.tracks@, f@, index as int);
                    }
                    self.current_track_index = Some(index);
                    return;
                }
                index = index + 1;
            }
            proof {
                lemma_find_file_miss(self.tracks@, f@);
            }
        }
    }

    /// Mutable access to the track at the current index (bypassing the
    /// cached snapshot), to attach a downloaded episode's cached path.
    pub fn current_track_as_mut(&mut self) -> (r: Option<&mut Track>)
        requires
            old(self)@.inv(),
        ensures
            r is Some <==> old(self)@.current_track_index is Some,
            r matches Some(m) ==> {
                let i = old(self)@.current_track_index->0;
                &&& *m == old(self)@.tracks[i as int]
                &&& final(self)@ == (PlaylistV {
                    tracks: old(self)@.tracks.update(i as int, *final(m)),
                    ..old(self)@
                })
            },
            r is None ==> *final(self) == *old(self),
    {
        match self.current_track_index {
            Some(index) => Some(&mut self.tracks[index]),
            None => None,
        }
    }

    /// The current track: the cached snapshot when set, else the track at
    /// the current index.
    pub fn current_track(&self) -> (r: Option<&Track>)
        requires
            self@.inv(),
        ensures
            r is Some <==> self@.cur_track() is Some,
            r matches Some(t) ==> *t == self@.cur_track()->0,
    {
        if self.current_track.is_some() {
            return self.current_track.as_ref();
        }
        if let Some(index) = &self.current_track_index {
            return Some(&self.tracks[*index]);
        }
        None
    }
}

/// One line per track that has a source URI, in order.
pub open spec fn uri_lines(tracks: Seq<Track>) -> Seq<Seq<char>>
    decreases tracks.len(),
{
    if tracks.len() == 0 {
        Seq::empty()
    } else {
        uri_lines(tracks.drop_last()) + match tracks.last().file {
            Some(f) => seq![f@],
            None => Seq::<Seq<char>>::empty(),
        }
    }
}

/// The first line of the persisted playlist file: the current-track index
/// in decimal, or empty when there is none.
pub open spec fn index_line(index: Option<usize>) -> Seq<char> {
    match index {
        Some(i) => dec_rep(i as nat),
        None => Seq::empty(),
    }
}

/// The persisted playlist file: the index line, then one URI per line,
/// each line ended by a newline.
pub open spec fn render_playlist(index: Option<usize>, tracks: Seq<Track>) -> Seq<char> {
    join_lines(seq![index_line(index)] + uri_lines(tracks))
}

/// The current-track index read from the first line: present exactly when
/// that line is a non-empty digit string whose value fits.
pub open spec fn index_of_lines(ls: Seq<Seq<char>>) -> Option<usize> {
    if ls.len() > 0 && ls[0].len() > 0 && all_digits(ls[0]) && dec_val(ls[0]) <= usize::MAX {
        Some(dec_val(ls[0]) as usize)
    } else {
        None
    }
}

/// The URI candidates read from the lines after the first, skipping empty
/// lines.
pub open spec fn uris_of_lines(ls: Seq<Seq<char>>) -> Seq<Seq<char>>
    decreases ls.len(),
{
    if ls.len() <= 1 {
        Seq::empty()
    } else {
        uris_of_lines(ls.drop_last()) + if ls.last().len() > 0 {
            seq![ls.last()]
        } else {
            Seq::<Seq<char>>::empty()
        }
    }
}

proof fn lemma_join_push(ls: Seq<Seq<char>>, l: Seq<char>)
    ensures
        join_lines(ls.push(l)) == join_lines(ls) + l + seq!['\n'],
    decreases ls.len(),
{
    reveal_with_fuel(join_lines, 3);
    if ls.len() == 0 {
        assert(ls.push(l).first() == l);
        assert(ls.push(l).drop_first() =~= Seq::<Seq<char>>::empty());
        assert(join_lines(ls.push(l)) =~= join_lines(ls) + l + seq!['\n']);
    } else {
        assert(ls.push(l).first() == ls.first());
        assert(ls.push(l).drop_first() =~= ls.drop_first().push(l));
        lemma_join_push(ls.drop_first(), l);
        assert(join_lines(ls.push(l)) =~= join_lines(ls) + l + seq!['\n']);
    }
}

/// When every track has a URI, the URI lines are exactly the file views.
proof fn lemma_uri_lines_all(tracks: Seq<Track>)
    requires
        forall|k: int| 0 <= k < tracks.len() ==> (#[trigger] tracks[k]).file is Some,
    ensures
        uri_lines(tracks) =~= Seq::new(tracks.len(), |k: int| tracks[k].file->0@),
    decreases tracks.len(),
{
    if tracks.len() > 0 {
        lemma_uri_lines_all(tracks.drop_last());
    }
}

proof fn lemma_uris_of_lines_skip_first(l0: Seq<char>, us: Seq<Seq<char>>)
    requires
        forall|k: int| 0 <= k < us.len() ==> (#[trigger] us[k]).len() > 0,
    ensures
        uris_of_lines(seq![l0] + us) == us,
    decreases us.len(),
{
    let ls = seq![l0] + us;
    if us.len() == 0 {
        assert(ls.len() == 1);
    } else {
        assert(ls.drop_last() =~= seq![l0] + us.drop_last());
        lemma_uris_of_lines_skip_first(l0, us.drop_last());
        assert(ls.last() == us.last());
        assert(uris_of_lines(ls) =~= us);
    }
}

/// Loading a saved playlist file yields the same ordered URIs and the same
/// current-track index, provided every track has a non-empty URI without
/// newlines.
pub proof fn lemma_save_load_roundtrip(index: Option<usize>, tracks: Seq<Track>)
    requires
        forall|k: int| 0 <= k < tracks.len() ==> (#[trigger] tracks[k]).file is Some,
        forall|k: int| 0 <= k < tracks.len() ==> (#[trigger] tracks[k]).file->0@.len() > 0,
        forall|k: int|
            0 <= k < tracks.len() ==> !(#[trigger] tracks[k]).file->0@.contains('\n'),
    ensures
        index_of_lines(split_lines(render_playlist(index, tracks))) == index,
        uris_of_lines(split_lines(render_playlist(index, tracks))) == uri_lines(tracks),
{
    let idx = index_line(index);
    let us = uri_lines(tracks);
    let ls = seq![idx] + us;
    lemma_uri_lines_all(tracks);
    assert(forall|k: int| 0 <= k < us.len() ==> #[trigger] us[k] == tracks[k].file->0@);
    assert(!idx.contains('\n')) by {
        match index {
            Some(i) => {
                lemma_dec_rep_digits(i as nat);
                if idx.contains('\n') {
                    let w = choose|w: int| 0 <= w < idx.len() && idx[w] == '\n';
                    assert(is_digit(idx[w]));
                }
            },
            None => {},
        }
    }
    assert forall|k: int| 0 <= k < ls.len() implies !(#[trigger] ls[k]).contains('\n') by {
        if k > 0 {
            assert(ls[k] == tracks[k - 1].file->0@);
        }
    }
    lemma_split_join(ls);
    assert(split_lines(render_playlist(index, tracks)) == ls);
    assert(ls[0] == idx);
    match index {
        Some(i) => {
            lemma_dec_rep_digits(i as nat);
            lemma_dec_roundtrip(i as nat);
            assert(index_of_lines(ls) == Some(i));
        },
        None => {
            assert(idx.len() == 0);
            assert(index_of_lines(ls) is None);
        },
    }
    assert(forall|k: int| 0 <= k < us.len() ==> (#[trigger] us[k]).len() > 0);
    lemma_uris_of_lines_skip_first(idx, us);
}

/// Relies on pathdiff::diff_utf8_paths: the relative path that reaches
/// `path` from `base`, a pure function of the two strings.
#[verifier::external_body]
fn relative_path(path: &str, base: &str) -> (r: Option<String>)
    ensures
        r is Some <==> rel_path_of(path@, base@) is Some,
        r matches Some(p) ==> p@ == rel_path_of(path@, base@)->0,
{
    match pathdiff::diff_utf8_paths(path, base) {
        Some(p) => Some(p.into_string()),
        None => None,
    }
}

/// The relative path from `base` to `path`, as pathdiff computes it.
pub uninterp spec fn rel_path_of(path: Seq<char>, base: Seq<char>) -> Option<Seq<char>>;

/// The M3U body: for each track with a URI whose relative path against the
/// export directory exists, that path followed by a newline.
pub open spec fn m3u_of(tracks: Seq<Track>, parent: Seq<char>) -> Seq<char>
    decreases tracks.len(),
{
    if tracks.len() == 0 {
        Seq::empty()
    } else {
        m3u_of(tracks.drop_last(), parent) + match tracks.last().file {
            Some(f) => match rel_path_of(f@, parent) {
                Some(p) => p + seq!['\n'],
                None => Seq::<char>::empty(),
            },
            None => Seq::<char>::empty(),
        }
    }
}

impl Playlist {
    /// Renders the persisted playlist file: the current-track index (or an
    /// empty first line), then one URI line per track that has one.
    pub fn save(&self) -> (r: String)
        ensures
            r@ == render_playlist(self@.current_track_index, self@.tracks),
    {
        proof {
            reveal_strlit("\n");
        }
        let mut out: String = match self.current_track_index {
            Some(i) => fmt_usize(i),
            None => String::new(),
        };
        out.append("\n");
        proof {
            reveal_with_fuel(join_lines, 3);
            let ls0 = seq![index_line(self@.current_track_index)];
            assert(ls0.drop_first() =~= Seq::<Seq<char>>::empty());
            assert(join_lines(ls0) =~= index_line(self@.current_track_index) + seq!['\n']);
            assert(out@ =~= join_lines(ls0));
            assert(self@.tracks.take(0) =~= Seq::<Track>::empty());
            assert(ls0 =~= seq![index_line(self@.current_track_index)] + uri_lines(
                self@.tracks.take(0),
            ));
        }
        let len = self.tracks.len();
        let mut i: usize = 0;
        while i < len
            invariant
                0 <= i <= len,
                len == self.tracks@.len(),
                out@ == join_lines(
                    seq![index_line(self@.current_track_index)] + uri_lines(
                        self@.tracks.take(i as int),
                    ),
                ),
            decreases len - i,
        {
            proof {
                reveal_strlit("\n");
                assert(self.tracks@.take(i + 1).drop_last() =~= self.tracks@.take(i as int));
                assert(self.tracks@.take(i + 1).last() == self.tracks@[i as int]);
            }
            let ghost pre = seq![index_line(self@.current_track_index)] + uri_lines(
                self@.tracks.take(i as int),
            );
            if let Some(f) = &self.tracks[i].file {
                out.append(f.as_str());
                out.append("\n");
                proof {
                    lemma_join_push(pre, self.tracks@[i as int].file->0@);
                    assert(pre.push(self.tracks@[i as int].file->0@) =~= seq![
                        index_line(self@.current_track_index),
                    ] + uri_lines(self@.tracks.take(i + 1)));
                    assert(out@ =~= join_lines(
                        seq![index_line(self@.current_track_index)] + uri_lines(
                            self@.tracks.take(i + 1),
                        ),
                    ));
                }
            } else {
                proof {
                    assert(uri_lines(self@.tracks.take(i + 1)) =~= uri_lines(
                        self@.tracks.take(i as int),
                    ));
                    assert(seq![index_line(self@.current_track_index)] + uri_lines(
                        self@.tracks.take(i + 1),
                    ) =~= pre);
                }
            }
            i = i + 1;
        }
        proof {
            assert(self@.tracks.take(len as int) =~= self@.tracks);
        }
        out
    }

    /// Parses the persisted playlist file into the current-track index of
    /// its first line and the URI candidates of the remaining non-empty
    /// lines. Materializing tracks from the URIs is the caller's side.
    pub fn load(content: &str) -> (r: (Option<usize>, Vec<String>))
        ensures
            r.0 == index_of_lines(split_lines(content@)),
            r.1.deep_view() == uris_of_lines(split_lines(content@)),
    {
        let lines = split_str_lines(content);
        let ghost ls = split_lines(content@);
        let n = lines.len();
        if n == 0 {
            let empty_uris: Vec<String> = Vec::new();
            proof {
                assert(uris_of_lines(ls) == Seq::<Seq<char>>::empty());
                assert(empty_uris.deep_view() =~= Seq::<Seq<char>>::empty());
            }
            return (None, empty_uris);
        }
        proof {
            assert(lines@[0]@ == ls[0]);
        }
        let index = parse_usize(lines[0].as_str());
        let mut uris: Vec<String> = Vec::new();
        let mut i: usize = 1;
        proof {
            assert(ls.take(1int).len() == 1);
            assert(uris.deep_view() =~= uris_of_lines(ls.take(1int)));
        }
        while i < n
            invariant
                1 <= i <= n,
                n == lines@.len(),
                lines.deep_view() == ls,
                uris.deep_view() == uris_of_lines(ls.take(i as int)),
            decreases n - i,
        {
            proof {
                assert(ls.take(i + 1).drop_last() =~= ls.take(i as int));
                assert(ls.take(i + 1).last() == ls[i as int]);
                assert(lines@[i as int]@ == ls[i as int]);
            }
            let line = &lines[i];
            let ghost old_dv = uris.deep_view();
            if line.as_str().unicode_len() > 0 {
                uris.push(line.clone());
                proof {
                    assert(uris.deep_view() =~= old_dv.push(lines@[i as int]@));
                    assert(uris.deep_view() =~= uris_of_lines(ls.take(i + 1)));
                }
            } else {
                proof {
                    assert(uris.deep_view() =~= uris_of_lines(ls.take(i + 1)));
                }
            }
            i = i + 1;
        }
        proof {
            assert(ls.take(n as int) =~= ls);
        }
        (index, uris)
    }

    /// The M3U body for the tracks, with paths relative to the export
    /// file's directory.
    fn get_m3u_file(&self, parent_folder: &str) -> (r: String)
        ensures
            r@ == "#EXTM3U\n"@ + m3u_of(self@.tracks, parent_folder@),
    {
        proof {
            reveal_strlit("\n");
        }
        let mut out = <String as vstd::string::StringExecFns>::from_str("#EXTM3U\n");
        proof {
            assert(self@.tracks.take(0) =~= Seq::<Track>::empty());
            assert(out@ =~= "#EXTM3U\n"@ + m3u_of(self@.tracks.take(0), parent_folder@));
        }
        let len = self.tracks.len();
        let mut i: usize = 0;
        while i < len
            invariant
                0 <= i <= len,
                len == self.tracks@.len(),
                out@ == "#EXTM3U\n"@ + m3u_of(self@.tracks.take(i as int), parent_folder@),
            decreases len - i,
        {
            proof {
                reveal_strlit("\n");
                assert(self.tracks@.take(i + 1).drop_last() =~= self.tracks@.take(i as int));
                assert(self.tracks@.take(i + 1).last() == self.tracks@[i as int]);
            }
            if let Some(f) = &self.tracks[i].file {
                if let Some(p) = relative_path(f.as_str(), parent_folder) {
                    out.append(p.as_str());
                    out.append("\n");
                    proof {
                        assert(out@ =~= "#EXTM3U\n"@ + m3u_of(
                            self@.tracks.take(i + 1),
                            parent_folder@,
                        ));
                    }
                } else {
                    proof {
                        assert(out@ =~= "#EXTM3U\n"@ + m3u_of(
                            self@.tracks.take(i + 1),
                            parent_folder@,
                        ));
                    }
                }
            } else {
                proof {
                    assert(out@ =~= "#EXTM3U\n"@ + m3u_of(
                        self@.tracks.take(i + 1),
                        parent_folder@,
                    ));
                }
            }
            i = i + 1;
        }
        proof {
            assert(self@.tracks.take(len as int) =~= self@.tracks);
        }
        out
    }

    /// Renders the M3U export for writing beside `parent_folder`, or
    /// reports that an empty playlist has nothing to save.
    pub fn save_m3u(&self, parent_folder: &str) -> (r: Result<String, PlaylistError>)
        ensures
            r is Ok <==> self@.tracks.len() > 0,
            r matches Ok(m) ==> m@ == "#EXTM3U\n"@ + m3u_of(self@.tracks, parent_folder@),
            r matches Err(e) ==> e == PlaylistError::NoTracks,
    {
        if self.tracks.len() == 0 {
            return Err(PlaylistError::NoTracks);
        }
        Ok(self.get_m3u_file(parent_folder))
    }
}

/// The URI that plays a track: podcasts prefer their cached local copy
/// when the caller reports it present on disk.
pub open spec fn chosen_uri(t: Track, localfile_exists: bool) -> Option<Seq<char>> {
    match t.media_type {
        Some(MediaType::Music) => match t.file {
            Some(f) => Some(f@),
            None => None,
        },
        Some(MediaType::Podcast) => if t.podcast_localfile is Some && localfile_exists {
            Some(t.podcast_localfile->0@)
        } else {
            match t.file {
                Some(f) => Some(f@),
                None => None,
            }
        },
        None => None,
    }
}

impl Playlist {
    /// The URI to hand to the backend for the current track;
    /// `localfile_exists` reports whether the podcast's cached copy is
    /// present on disk (checked by the caller).
    pub fn get_current_track(&self, localfile_exists: bool) -> (r: Option<String>)
        requires
            self@.inv(),
        ensures
            match self@.cur_track() {
                Some(t) => {
                    &&& (r is Some <==> chosen_uri(t, localfile_exists) is Some)
                    &&& (r matches Some(s) ==> s@ == chosen_uri(t, localfile_exists)->0)
                },
                None => r is None,
            },
    {
        match self.current_track() {
            None => None,
            Some(track) => match track.media_type {
                Some(MediaType::Music) => match &track.file {
                    Some(f) => Some(f.clone()),
                    None => None,
                },
                Some(MediaType::Podcast) => {
                    if localfile_exists {
                        if let Some(local) = &track.podcast_localfile {
                            return Some(local.clone());
                        }
                    }
                    match &track.file {
                        Some(f) => Some(f.clone()),
                        None => None,
                    }
                },
                None => None,
            },
        }
    }
}

/// After `next` followed by `previous`, the current-track index is again
/// what it was: `next` pushes the old current index on the history, and
/// `previous` pops it — the history top always wins over the loop mode.
pub proof fn lemma_next_then_previous_restores(p0: PlaylistV, p1: PlaylistV, p2: PlaylistV)
    requires
        p0.inv(),
        p0.current_track_index is Some,
        next_transition(p0, p1),
        prev_transition(p1, p2),
    ensures
        p2.current_track_index == p0.current_track_index,
{
    assert(p1.played_index.len() > 0);
    assert(p1.played_index.last() == p0.current_track_index->0);
}

/// A random next on a one-track playlist is the current track — position
/// zero — at once: the selection never retries to avoid the current track.
pub proof fn lemma_random_next_single_track(pre: PlaylistV, r: usize)
    requires
        pre.inv(),
        pre.loop_mode == Loop::Random,
        pre.tracks.len() == 1,
        pre.current_track_index is Some,
        is_next_index(pre, r),
    ensures
        r == 0,
{
}

/// The gapless hand-off: whenever a next track is armed with a valid
/// index, advancing adopts that index as current — without recomputing the
/// selection — and the old current index goes on the history.
pub proof fn lemma_gapless_adoption(pre: PlaylistV, post: PlaylistV)
    requires
        next_transition(pre, post),
        pre.next_track is Some,
        pre.next_track_index < pre.tracks.len(),
    ensures
        post.current_track_index == Some(pre.next_track_index),
        pre.current_track_index matches Some(i) ==> post.played_index == pre.played_index.push(
            i,
        ),
{
}

/// Cycling the loop mode three times returns to the start, and never leaves
/// a mode fixed: the cycle is a bijection of period three over the modes.
pub proof fn lemma_cycle_loop_mode_period_three()
    ensures
        forall|m: Loop| cycle_spec(cycle_spec(cycle_spec(m))) == m,
        forall|m: Loop| cycle_spec(m) != m,
        forall|m1: Loop, m2: Loop| cycle_spec(m1) == cycle_spec(m2) ==> m1 == m2,
{
}

} // verus!
