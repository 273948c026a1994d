//! Tracks, narrations and the station manifest.
use vstd::prelude::*;

verus! {

/// What is known of an audio file on disk.
#[derive(Debug)]
pub struct AudioFileInfo {
    /// Where the file is.
    pub location: String,
    /// Container format of the file, as its extension names it.
    pub format: String,
    /// Size of the file in bytes.
    pub size_bytes: u64,
    /// Duration of the audio in milliseconds.
    pub audio_milliseconds: u64,
}

/// A spoken passage played before or after a track.
#[derive(Debug)]
pub struct Narration {
    pub source: String,
    pub transcript: String,
    pub file_info: AudioFileInfo,
}

/// A track of a station, with the narrations that may be played around it.
#[derive(Debug)]
pub struct Track {
    pub title: String,
    pub artist: String,
    pub album_art: String,
    pub source: String,
    pub narration_before: Vec<Narration>,
    pub narration_after: Vec<Narration>,
    pub file_info: AudioFileInfo,
}

/// The value of a track, with its narration pools as sequences.
pub ghost struct TrackView {
    pub title: String,
    pub artist: String,
    pub album_art: String,
    pub source: String,
    pub narration_before: Seq<Narration>,
    pub narration_after: Seq<Narration>,
    pub file_info: AudioFileInfo,
}

impl View for Track {
    type V = TrackView;

    open spec fn view(&self) -> TrackView {
        TrackView {
            title: self.title,
            artist: self.artist,
            album_art: self.album_art,
            source: self.source,
            narration_before: self.narration_before@,
            narration_after: self.narration_after@,
            file_info: self.file_info,
        }
    }
}

/// A station: its description, the seed of its random choices and its tracks.
pub struct StationManifest {
    pub title: String,
    pub description: String,
    pub seed: u64,
    pub tracks: Vec<Track>,
}

/// A titled list of tracks.
pub struct Playlist {
    pub title: String,
    pub description: String,
    pub tracks: Vec<Track>,
}

impl Clone for AudioFileInfo {
    fn clone(&self) -> (r: Self)
        ensures
            r == *self,
    {
        AudioFileInfo {
            location: self.location.clone(),
            format: self.format.clone(),
            size_bytes: self.size_bytes,
            audio_milliseconds: self.audio_milliseconds,
        }
    }
}

impl Clone for Narration {
    fn clone(&self) -> (r: Self)
        ensures
            r == *self,
    {
        Narration {
            source: self.source.clone(),
            transcript: self.transcript.clone(),
            file_info: self.file_info.clone(),
        }
    }
}

impl Clone for Track {
    fn clone(&self) -> (r: Self)
        ensures
            r@ == self@,
    {
        let before = self.narration_before.clone();
        let after = self.narration_after.clone();
        assert forall|i: int| 0 <= i < before@.len() implies before@[i] == self.narration_before@[i] by {
            assert(cloned::<Narration>(self.narration_before[i], before[i]));
        }
        assert forall|i: int| 0 <= i < after@.len() implies after@[i] == self.narration_after@[i] by {
            assert(cloned::<Narration>(self.narration_after[i], after[i]));
        }
        assert(before@ =~= self.narration_before@);
        assert(after@ =~= self.narration_after@);
        Track {
            title: self.title.clone(),
            artist: self.artist.clone(),
            album_art: self.album_art.clone(),
            source: self.source.clone(),
            narration_before: before,
            narration_after: after,
            file_info: self.file_info.clone(),
        }
    }
}

impl Track {
    /// A track whose file is `source`, of the given format and duration.
    pub fn new(
        title: String,
        artist: String,
        album_art: String,
        audio_milliseconds: u64,
        format: String,
        source: String,
        narration_before: Vec<Narration>,
        narration_after: Vec<Narration>,
    ) -> (r: Track)
        ensures
            r.title == title,
            r.artist == artist,
            r.album_art == album_art,
            r.source == source,
            r.narration_before == narration_before,
            r.narration_after == narration_after,
            r.file_info.location == source,
            r.file_info.format == format,
            r.file_info.size_bytes == 0,
            r.file_info.audio_milliseconds == audio_milliseconds,
    {
        let location = source.clone();
        Track {
            title,
            artist,
            album_art,
            source,
            narration_before,
            narration_after,
            file_info: AudioFileInfo { location, format, size_bytes: 0, audio_milliseconds },
        }
    }
}

/// Why a manifest cannot drive a station.
#[derive(PartialEq, Eq, Structural, Clone, Copy, Debug)]
pub enum ManifestError {
    /// The manifest lists no track.
    NoTracks,
    /// The track at this index has zero duration.
    ZeroDuration(usize),
}

/// The index of the first track with zero duration, if any.
pub open spec fn first_silent_track(tracks: Seq<Track>) -> Option<int> {
    if exists|i: int| 0 <= i < tracks.len() && tracks[i].file_info.audio_milliseconds == 0 {
        Some(
            choose|i: int|
                0 <= i < tracks.len() && tracks[i].file_info.audio_milliseconds == 0 && forall|
                    j: int,
                |
                    0 <= j < i ==> tracks[j].file_info.audio_milliseconds != 0,
        )
    } else {
        None
    }
}

impl StationManifest {
    /// Whether the manifest can drive a station: at least one track, and
    /// every track of nonzero duration.
    pub open spec fn is_valid(&self) -> bool {
        &&& self.tracks@.len() > 0
        &&& forall|i: int|
            0 <= i < self.tracks@.len() ==> #[trigger] self.tracks@[i].file_info.audio_milliseconds
                > 0
    }

    /// Checks that the manifest can drive a station.
    pub fn validate(&self) -> (r: Result<(), ManifestError>)
        ensures
            r is Ok <==> self.is_valid(),
            r == Err::<(), ManifestError>(ManifestError::NoTracks) <==> self.tracks@.len() == 0,
            forall|i: usize|
                r == Err::<(), ManifestError>(ManifestError::ZeroDuration(i)) <==> (
                self.tracks@.len() > 0 && 0 <= i < self.tracks@.len()
                    && self.tracks@[i as int].file_info.audio_milliseconds == 0 && forall|j: int|
                    0 <= j < i ==> self.tracks@[j].file_info.audio_milliseconds != 0),
    {
        if self.tracks.len() == 0 {
            return Err(ManifestError::NoTracks);
        }
        let mut i: usize = 0;
        while i < self.tracks.len()
            invariant
                0 <= i <= self.tracks@.len(),
                forall|j: int| 0 <= j < i ==> self.tracks@[j].file_info.audio_milliseconds != 0,
            decreases self.tracks@.len() - i,
        {
            if self.tracks[i].file_info.audio_milliseconds == 0 {
                return Err(ManifestError::ZeroDuration(i));
            }
            i = i + 1;
        }
        Ok(())
    }
}

} // verus!
