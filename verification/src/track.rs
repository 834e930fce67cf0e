//! The playable item: a local music file or a remote podcast episode.
use vstd::prelude::*;

verus! {

/// The kind of media a track holds.
#[derive(Clone, Copy, PartialEq, Eq, Structural, Debug)]
pub enum MediaType {
    Music,
    Podcast,
}

/// A playable item. `file` is its source URI (a local path or a remote URL);
/// `duration_secs` is the total duration in whole seconds, when known;
/// `podcast_localfile` is the locally cached copy of a podcast episode, when
/// one was downloaded.
#[derive(Debug)]
pub struct Track {
    pub media_type: Option<MediaType>,
    pub file: Option<String>,
    pub duration_secs: i64,
    pub podcast_localfile: Option<String>,
}

impl Clone for Track {
    fn clone(&self) -> (r: Self)
        ensures
            r == *self,
    {
        Track {
            media_type: self.media_type,
            file: match &self.file {
                Some(f) => Some(f.clone()),
                None => None,
            },
            duration_secs: self.duration_secs,
            podcast_localfile: match &self.podcast_localfile {
                Some(f) => Some(f.clone()),
                None => None,
            },
        }
    }
}

impl Track {
    /// A music track read from a local path.
    pub fn new_music(file: String, duration_secs: i64) -> (r: Track)
        ensures
            r.media_type == Some(MediaType::Music),
            r.file == Some(file),
            r.duration_secs == duration_secs,
            r.podcast_localfile is None,
    {
        Track {
            media_type: Some(MediaType::Music),
            file: Some(file),
            duration_secs,
            podcast_localfile: None,
        }
    }

    /// A podcast episode, keyed by its URL, with an optional cached file.
    pub fn new_podcast(url: String, duration_secs: i64, localfile: Option<String>) -> (r: Track)
        ensures
            r.media_type == Some(MediaType::Podcast),
            r.file == Some(url),
            r.duration_secs == duration_secs,
            r.podcast_localfile == localfile,
    {
        Track {
            media_type: Some(MediaType::Podcast),
            file: Some(url),
            duration_secs,
            podcast_localfile: localfile,
        }
    }

    /// The source URI, when the track has one.
    pub fn file(&self) -> (r: Option<&String>)
        ensures
            r is Some <==> self.file is Some,
            r is Some ==> *r->0 == self.file->0,
    {
        self.file.as_ref()
    }

    /// The total duration in whole seconds.
    pub fn duration(&self) -> (r: i64)
        ensures
            r == self.duration_secs,
    {
        self.duration_secs
    }

    /// Attaches the path of a locally cached copy (podcast episodes only
    /// gain one after download).
    pub fn set_podcast_localfile(&mut self, path: String)
        ensures
            *final(self) == (Track { podcast_localfile: Some(path), ..*old(self) }),
    {
        self.podcast_localfile = Some(path);
    }
}

} // verus!
