//! Where a station stands after a given time of playing, computed from its
//! seed alone: tracks back to back from the first one on.
use vstd::prelude::*;

use crate::track::Track;
use crate::track_iterator::{stream_index, TrackIterator};

verus! {

/// Unix time, in milliseconds, at which every station began to play.
pub const STATION_EPOCH: u64 = 1746794077052;

/// A station's step as the time schedule sees it.
#[derive(Debug)]
pub enum StationState {
    SwitchTrack,
    NarrationBefore { related_track: Track },
    Track { track: Track },
    NarrationAfter { related_track: Track },
}

/// Duration of the track at position `k` of the station's endless sequence.
pub open spec fn duration_at(tracks: Seq<Track>, seed: u64, k: nat) -> nat {
    tracks[stream_index(seed, tracks.len(), k) as int].file_info.audio_milliseconds as nat
}

/// Milliseconds that the first `k` tracks of the sequence take, back to back.
pub open spec fn played_before(tracks: Seq<Track>, seed: u64, k: nat) -> nat
    decreases k,
{
    if k == 0 {
        0
    } else {
        played_before(tracks, seed, (k - 1) as nat) + duration_at(tracks, seed, (k - 1) as nat)
    }
}

/// Milliseconds elapsed at Unix time `now_ms` since the stations began.
pub fn elapsed_since_epoch(now_ms: u64) -> (r: u64)
    ensures
        r == if now_ms >= STATION_EPOCH {
            now_ms - STATION_EPOCH
        } else {
            0
        },
{
    now_ms.saturating_sub(STATION_EPOCH)
}

impl StationState {
    /// The step's name.
    pub fn name(&self) -> (r: &'static str)
        ensures
            r@ == match *self {
                StationState::SwitchTrack => "SwitchTrack"@,
                StationState::NarrationBefore { .. } => "NarrationBefore"@,
                StationState::Track { .. } => "Track"@,
                StationState::NarrationAfter { .. } => "NarrationAfter"@,
            },
    {
        match self {
            StationState::SwitchTrack => "SwitchTrack",
            StationState::NarrationBefore { .. } => "NarrationBefore",
            StationState::Track { .. } => "Track",
            StationState::NarrationAfter { .. } => "NarrationAfter",
        }
    }

    /// The step of a station over `tracks` shuffled under `seed` after
    /// `elapsed` milliseconds of playing, and how far into it the station is.
    /// At zero it is still choosing its first track; after that it plays the
    /// track during which the time runs out (a track ends at the millisecond
    /// that completes it).
    pub fn determine_expected_state(tracks: Vec<Track>, seed: u64, elapsed: u64) -> (r: (
        StationState,
        u64,
    ))
        requires
            tracks@.len() > 0,
            forall|i: int| 0 <= i < tracks@.len() ==> #[trigger] tracks@[i].file_info.audio_milliseconds > 0,
        ensures
            elapsed == 0 ==> r.0 is SwitchTrack && r.1 == 0,
            elapsed > 0 ==> exists|k: nat|
                {
                    &&& #[trigger] played_before(tracks@, seed, k) < elapsed
                    &&& elapsed <= played_before(tracks@, seed, k + 1)
                    &&& r.0 is Track
                    &&& r.0->track@ == tracks@[stream_index(seed, tracks@.len(), k) as int]@
                    &&& r.1 == elapsed - played_before(tracks@, seed, k)
                },
    {
        if elapsed == 0 {
            return (StationState::SwitchTrack, 0);
        }
        let ghost all = tracks@;
        let mut iterator = TrackIterator::new(tracks, seed);
        let mut remaining: u64 = elapsed;
        #[verifier::loop_isolation(false)]
        loop
            invariant
                iterator.wf(),
                iterator.tracks() == all,
                iterator.seed() == seed,
                all.len() > 0,
                forall|i: int| 0 <= i < all.len() ==> #[trigger] all[i].file_info.audio_milliseconds > 0,
                0 < remaining <= elapsed,
                remaining == elapsed - played_before(all, seed, iterator.position()),
            decreases remaining,
        {
            let ghost k = iterator.position();
            proof {
                iterator.lemma_index_in_range(k);
            }
            let track = iterator.next();
            let d = track.file_info.audio_milliseconds;
            assert(d == duration_at(all, seed, k));
            if d >= remaining {
                assert(played_before(all, seed, k + 1) == played_before(all, seed, k) + d);
                return (StationState::Track { track }, remaining);
            }
            remaining = remaining - d;
        }
    }
}

} // verus!
