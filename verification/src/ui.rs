//! Plain data types of the terminal front-end: the messages it routes,
//! the component identifiers, its own playback-status mirror, and the
//! layout selectors. The front-end itself lives outside the core.
use vstd::prelude::*;

verus! {

/// Messages the front-end routes between its components.
#[derive(Debug, PartialEq)]
pub enum Msg {
    AppClose,
    DigitCounterChanged(isize),
    DigitCounterBlur,
    LibraryTreeExtendDir(String),
    LibraryTreeGoToUpperDir,
    LetterCounterChanged(isize),
    LetterCounterBlur,
    LibraryTreeBlur,
    PlayerTogglePause,
    PlaylistTableBlur,
    PlaylistAdd(String),
    PlaylistDelete(usize),
    PlaylistDeleteAll,
    NoOp,
}

/// Identifiers of the front-end's components.
#[derive(Debug, Eq, PartialEq, Clone, Hash)]
pub enum Id {
    GlobalListener,
    DigitCounter,
    LetterCounter,
    Label,
    Library,
    Playlist,
    Progress,
    Lyric,
}

/// The front-end's mirror of the playback status.
#[derive(Clone, Copy, PartialEq, Eq, Structural, Debug)]
pub enum Status {
    Running,
    Stopped,
    Paused,
}

/// Which main view the front-end shows.
#[derive(PartialEq, Eq, Structural, Clone, Copy, Debug)]
pub enum TermusicLayout {
    TreeView,
    DataBase,
    Podcast,
}

/// Which tab of the configuration editor is open.
#[derive(PartialEq, Eq, Structural, Clone, Copy, Debug)]
pub enum ConfigEditorLayout {
    General,
    Color,
    Key1,
    Key2,
}

/// Which terminal image protocol the cover-art renderer found.
#[derive(Debug, Clone, Copy, PartialEq, Eq, Structural)]
pub enum ViuerSupported {
    Kitty,
    ITerm,
    NotSupported,
}

} // verus!
