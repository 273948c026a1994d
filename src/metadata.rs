//! Events published to a station's metadata listeners.
use vstd::prelude::*;

use crate::track::Track;

verus! {

/// A station event.
#[derive(Clone, Debug)]
pub enum Metadata {
    /// A new track starts playing.
    TrackChange { title: String, artist: String },
}

impl Metadata {
    /// The event that announces `track`.
    pub fn track_change(track: &Track) -> (r: Metadata)
        ensures
            r == (Metadata::TrackChange { title: track.title, artist: track.artist }),
    {
        Metadata::TrackChange { title: track.title.clone(), artist: track.artist.clone() }
    }
}

} // verus!
