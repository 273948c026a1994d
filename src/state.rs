//! The playback state engine: what a station plays next.
use vstd::prelude::*;

use crate::metadata::Metadata;
use crate::random::{draw_below, drawn_below};
use crate::text::{append_padded, padded_decimal};
use crate::track::{Narration, Track, TrackView};
use crate::track_iterator::{stream_index, TrackIterator};

verus! {

/// Milliseconds of silence in one unit of an intentional delay.
pub const SILENCE_UNIT_MS: u64 = 500;

/// Delay units played before a narration.
pub const NARRATION_DELAY_UNITS: u8 = 4;

/// Delay units played before a track.
pub const TRACK_DELAY_UNITS: u8 = 2;

/// Mixed into the seed for narration draws, so that they do not follow the
/// shuffles of the playlist.
pub const NARRATION_STREAM: u64 = 0x6e61_7272_6174_696f;

/// A step of a station's playback.
#[derive(Debug)]
pub enum State {
    /// Choosing the next track; never played.
    SwitchTrack,
    /// A narration announcing `track`.
    NarrationBefore { narration: Narration, track: Track },
    /// The track itself.
    Track { track: Track },
    /// A narration following `track`.
    NarrationAfter { narration: Narration, track: Track },
    /// `duration_units` half seconds of silence, then `next_state`.
    IntentionalDelay { duration_units: u8, next_state: Box<State> },
}

/// The value of a step, with its tracks as track views.
pub ghost enum StepView {
    SwitchTrack,
    NarrationBefore { narration: Narration, track: TrackView },
    Track { track: TrackView },
    NarrationAfter { narration: Narration, track: TrackView },
    IntentionalDelay { duration_units: u8, next_state: Box<StepView> },
}

/// The view of step `s`.
pub open spec fn step_view(s: State) -> StepView
    decreases s,
{
    match s {
        State::SwitchTrack => StepView::SwitchTrack,
        State::NarrationBefore { narration, track } => StepView::NarrationBefore {
            narration,
            track: track@,
        },
        State::Track { track } => StepView::Track { track: track@ },
        State::NarrationAfter { narration, track } => StepView::NarrationAfter {
            narration,
            track: track@,
        },
        State::IntentionalDelay { duration_units, next_state } => StepView::IntentionalDelay {
            duration_units,
            next_state: Box::new(step_view(*next_state)),
        },
    }
}

impl View for State {
    type V = StepView;

    open spec fn view(&self) -> StepView {
        step_view(*self)
    }
}

impl State {
    /// How the step reads in the station's log.
    pub fn describe(&self) -> (r: String)
        ensures
            r@ == step_text(self@),
        decreases self,
    {
        let mut out = String::new();
        match self {
            State::SwitchTrack => {
                out.append("SwitchTrack");
            },
            State::NarrationBefore { narration, track: _ } => {
                out.append("NarrationBefore[\"");
                out.append(narration.transcript.as_str());
                out.append("\", ");
                append_padded(&mut out, narration.file_info.audio_milliseconds, 1);
                out.append(" ms]");
            },
            State::Track { track } => {
                out.append("Track[");
                out.append(track.title.as_str());
                out.append("]");
            },
            State::NarrationAfter { narration, track: _ } => {
                out.append("NarrationAfter[\"");
                out.append(narration.transcript.as_str());
                out.append("\", ");
                append_padded(&mut out, narration.file_info.audio_milliseconds, 1);
                out.append(" ms]");
            },
            State::IntentionalDelay { duration_units, next_state } => {
                out.append("IntentionalDelay[");
                append_padded(&mut out, *duration_units as u64, 1);
                out.append(" units, ");
                let inner = next_state.describe();
                out.append(inner.as_str());
                out.append("]");
            },
        }
        proof {
            assert(out@ =~= step_text(self@));
        }
        out
    }

    /// A copy of the step.
    pub fn duplicate(&self) -> (r: State)
        ensures
            r@ == self@,
        decreases self,
    {
        match self {
            State::SwitchTrack => State::SwitchTrack,
            State::NarrationBefore { narration, track } => State::NarrationBefore {
                narration: narration.clone(),
                track: track.clone(),
            },
            State::Track { track } => State::Track { track: track.clone() },
            State::NarrationAfter { narration, track } => State::NarrationAfter {
                narration: narration.clone(),
                track: track.clone(),
            },
            State::IntentionalDelay { duration_units, next_state } => {
                let next = next_state.duplicate();
                State::IntentionalDelay { duration_units: *duration_units, next_state: Box::new(next) }
            },
        }
    }
}

/// How a step reads in the station's log.
pub open spec fn step_text(s: StepView) -> Seq<char>
    decreases s,
{
    match s {
        StepView::SwitchTrack => "SwitchTrack"@,
        StepView::NarrationBefore { narration, track: _ } => "NarrationBefore[\""@
            + narration.transcript@ + "\", "@ + padded_decimal(
            narration.file_info.audio_milliseconds as nat,
            1,
        ) + " ms]"@,
        StepView::Track { track } => "Track["@ + track.title@ + "]"@,
        StepView::NarrationAfter { narration, track: _ } => "NarrationAfter[\""@
            + narration.transcript@ + "\", "@ + padded_decimal(
            narration.file_info.audio_milliseconds as nat,
            1,
        ) + " ms]"@,
        StepView::IntentionalDelay { duration_units, next_state } => "IntentionalDelay["@
            + padded_decimal(duration_units as nat, 1) + " units, "@ + step_text(*next_state)
            + "]"@,
    }
}

/// What the decoder does for a step.
#[derive(Debug)]
pub enum DecoderAction {
    /// Nothing: the step is never played.
    Idle,
    /// Announce `announce`, if any, then decode the file at `location` into
    /// the ring.
    Play { location: String, announce: Option<Metadata> },
    /// Put `units` packets of `SILENCE_UNIT_MS` milliseconds of silence into
    /// the ring.
    Silence { units: u8 },
}

/// What the decoder does for `step`: a track is announced before its audio
/// flows, narrations are played unannounced and a delay is rendered as
/// silence.
pub fn decoder_action(step: &State) -> (r: DecoderAction)
    ensures
        match *step {
            State::SwitchTrack => r is Idle,
            State::NarrationBefore { narration, track: _ } => r == (DecoderAction::Play {
                location: narration.file_info.location,
                announce: None,
            }),
            State::Track { track } => r == (DecoderAction::Play {
                location: track.file_info.location,
                announce: Some(
                    Metadata::TrackChange { title: track.title, artist: track.artist },
                ),
            }),
            State::NarrationAfter { narration, track: _ } => r == (DecoderAction::Play {
                location: narration.file_info.location,
                announce: None,
            }),
            State::IntentionalDelay { duration_units, next_state: _ } => r == (
            DecoderAction::Silence { units: duration_units }),
        },
{
    match step {
        State::SwitchTrack => DecoderAction::Idle,
        State::NarrationBefore { narration, track: _ } => DecoderAction::Play {
            location: narration.file_info.location.clone(),
            announce: None,
        },
        State::Track { track } => DecoderAction::Play {
            location: track.file_info.location.clone(),
            announce: Some(Metadata::track_change(track)),
        },
        State::NarrationAfter { narration, track: _ } => DecoderAction::Play {
            location: narration.file_info.location.clone(),
            announce: None,
        },
        State::IntentionalDelay { duration_units, next_state: _ } => DecoderAction::Silence {
            units: *duration_units,
        },
    }
}

/// The narration of `pool` drawn with draw number `draws` of a station seeded
/// with `seed`.
pub open spec fn narration_pick(seed: u64, draws: u64, pool: Seq<Narration>) -> Narration {
    pool[drawn_below(seed ^ NARRATION_STREAM, draws, pool.len() as u64) as int]
}

/// The index into `pool` of draw number `draws` of the station seeded `seed`.
pub open spec fn pick_index(seed: u64, draws: u64, pool: Seq<Narration>) -> u64 {
    drawn_below(seed ^ NARRATION_STREAM, draws, pool.len() as u64)
}

/// Draw number `draws` of the station seeded `seed` falls within `pool`, so
/// the narration it picks is one of the pool's.
pub open spec fn pick_in_pool(seed: u64, draws: u64, pool: Seq<Narration>) -> bool {
    pick_index(seed, draws, pool) < pool.len()
}

/// A pick that falls within the pool is one of the pool's narrations.
pub proof fn lemma_pick_in_pool(seed: u64, draws: u64, pool: Seq<Narration>)
    requires
        pick_in_pool(seed, draws, pool),
    ensures
        pool.contains(narration_pick(seed, draws, pool)),
{
    assert(pool[pick_index(seed, draws, pool) as int] == narration_pick(seed, draws, pool));
}

/// Whether leaving step `cur` draws a narration.
pub open spec fn draws_narration(cur: StepView, upcoming: TrackView) -> bool {
    match cur {
        StepView::SwitchTrack => upcoming.narration_before.len() > 0,
        StepView::Track { track } => track.narration_after.len() > 0,
        _ => false,
    }
}

/// The step after `cur`, where `upcoming` is the playlist's next track and
/// the narration draws use draw number `draws` of the station seeded `seed`.
pub open spec fn successor(cur: StepView, upcoming: TrackView, seed: u64, draws: u64) -> StepView {
    match cur {
        StepView::SwitchTrack => if upcoming.narration_before.len() > 0 {
            StepView::IntentionalDelay {
                duration_units: NARRATION_DELAY_UNITS,
                next_state: Box::new(
                    StepView::NarrationBefore {
                        narration: narration_pick(seed, draws, upcoming.narration_before),
                        track: upcoming,
                    },
                ),
            }
        } else {
            StepView::IntentionalDelay {
                duration_units: TRACK_DELAY_UNITS,
                next_state: Box::new(StepView::Track { track: upcoming }),
            }
        },
        StepView::NarrationBefore { narration: _, track } => StepView::IntentionalDelay {
            duration_units: TRACK_DELAY_UNITS,
            next_state: Box::new(StepView::Track { track }),
        },
        StepView::Track { track } => if track.narration_after.len() > 0 {
            StepView::IntentionalDelay {
                duration_units: NARRATION_DELAY_UNITS,
                next_state: Box::new(
                    StepView::NarrationAfter {
                        narration: narration_pick(seed, draws, track.narration_after),
                        track,
                    },
                ),
            }
        } else {
            StepView::SwitchTrack
        },
        StepView::NarrationAfter { .. } => StepView::SwitchTrack,
        StepView::IntentionalDelay { duration_units: _, next_state } => *next_state,
    }
}

/// Draws a narration of `pool` with draw number `draws` of the station seeded
/// `seed`; `None` when the pool is empty.
pub fn pick_random_narration(pool: &Vec<Narration>, seed: u64, draws: u64) -> (r: Option<
    Narration,
>)
    ensures
        r is None <==> pool@.len() == 0,
        r is Some ==> r->0 == narration_pick(seed, draws, pool@),
        r is Some ==> pick_in_pool(seed, draws, pool@),
        r is Some ==> pool@.contains(r->0),
{
    if pool.len() == 0 {
        None
    } else {
        let idx = draw_below(seed ^ NARRATION_STREAM, draws, pool.len() as u64) as usize;
        let r = pool[idx].clone();
        assert(pool@[idx as int] == r);
        Some(r)
    }
}

/// Decides a station's steps: it holds the playlist cursor and the count of
/// narration draws made so far.
pub struct StateManager {
    iterator: TrackIterator,
    seed: u64,
    draws: u64,
}

impl StateManager {
    pub closed spec fn wf(&self) -> bool {
        self.iterator.wf() && self.iterator.seed() == self.seed
    }

    /// The station's tracks.
    pub closed spec fn tracks(&self) -> Seq<Track> {
        self.iterator.tracks()
    }

    /// The seed of every random choice.
    pub closed spec fn seed(&self) -> u64 {
        self.seed
    }

    /// Narration draws made so far.
    pub closed spec fn draws(&self) -> u64 {
        self.draws
    }

    /// Tracks taken from the playlist so far.
    pub closed spec fn tracks_taken(&self) -> nat {
        self.iterator.position()
    }

    /// The track that the next `SwitchTrack` takes: the one at position
    /// `tracks_taken()` of the shuffled endless sequence.
    pub open spec fn upcoming(&self) -> Track {
        self.tracks()[stream_index(self.seed(), self.tracks().len(), self.tracks_taken()) as int]
    }

    /// The engine has tracks, and its upcoming track is one of them.
    pub proof fn lemma_upcoming_in_list(&self)
        requires
            self.wf(),
        ensures
            self.tracks().len() > 0,
            stream_index(self.seed(), self.tracks().len(), self.tracks_taken()) < self.tracks().len(),
            self.tracks().contains(self.upcoming()),
    {
        self.iterator.lemma_index_in_range(self.iterator.position());
    }

    /// Two engines over the same tracks with the same seed, that have taken as
    /// many tracks and drawn as many narrations, take the same next track and
    /// decide the same next step from any step.
    pub proof fn lemma_same_seed_same_steps(a: &StateManager, b: &StateManager, current: StepView)
        requires
            a.wf(),
            b.wf(),
            a.tracks() == b.tracks(),
            a.seed() == b.seed(),
            a.draws() == b.draws(),
            a.tracks_taken() == b.tracks_taken(),
        ensures
            a.upcoming() == b.upcoming(),
            successor(current, a.upcoming()@, a.seed(), a.draws()) == successor(
                current,
                b.upcoming()@,
                b.seed(),
                b.draws(),
            ),
    {
    }

    /// An engine over `tracks` whose choices follow `seed`.
    pub fn new(tracks: Vec<Track>, seed: u64) -> (r: StateManager)
        requires
            tracks@.len() > 0,
        ensures
            r.wf(),
            r.tracks() == tracks@,
            r.seed() == seed,
            r.draws() == 0,
            r.tracks_taken() == 0,
    {
        StateManager { iterator: TrackIterator::new(tracks, seed), seed, draws: 0 }
    }

    /// The step that follows `current`.
    pub fn advance(&mut self, current: State) -> (r: State)
        requires
            old(self).wf(),
        ensures
            final(self).wf(),
            final(self).tracks() == old(self).tracks(),
            final(self).seed() == old(self).seed(),
            r@ == successor(current@, old(self).upcoming()@, old(self).seed(), old(self).draws()),
            final(self).draws() == if draws_narration(current@, old(self).upcoming()@) {
                old(self).draws().wrapping_add(1)
            } else {
                old(self).draws()
            },
            final(self).tracks_taken() == old(self).tracks_taken() + if current is SwitchTrack {
                1nat
            } else {
                0nat
            },
            current is SwitchTrack && old(self).upcoming().narration_before@.len() > 0 ==> pick_in_pool(
                old(self).seed(),
                old(self).draws(),
                old(self).upcoming().narration_before@,
            ),
            match current {
                State::Track { track } => track.narration_after@.len() > 0 ==> pick_in_pool(
                    old(self).seed(),
                    old(self).draws(),
                    track.narration_after@,
                ),
                _ => true,
            },
    {
        proof {
            reveal_with_fuel(step_view, 2);
            self.lemma_upcoming_in_list();
        }
        match current {
            State::SwitchTrack => {
                let track = self.iterator.next();
                let narration = pick_random_narration(&track.narration_before, self.seed, self.draws);
                match narration {
                    Some(narration) => {
                        self.draws = self.draws.wrapping_add(1);
                        State::IntentionalDelay {
                            duration_units: NARRATION_DELAY_UNITS,
                            next_state: Box::new(State::NarrationBefore { narration, track }),
                        }
                    },
                    None => State::IntentionalDelay {
                        duration_units: TRACK_DELAY_UNITS,
                        next_state: Box::new(State::Track { track }),
                    },
                }
            },
            State::NarrationBefore { narration: _, track } => State::IntentionalDelay {
                duration_units: TRACK_DELAY_UNITS,
                next_state: Box::new(State::Track { track }),
            },
            State::Track { track } => {
                let narration = pick_random_narration(&track.narration_after, self.seed, self.draws);
                match narration {
                    Some(narration) => {
                        self.draws = self.draws.wrapping_add(1);
                        State::IntentionalDelay {
                            duration_units: NARRATION_DELAY_UNITS,
                            next_state: Box::new(State::NarrationAfter { narration, track }),
                        }
                    },
                    None => State::SwitchTrack,
                }
            },
            State::NarrationAfter { .. } => State::SwitchTrack,
            State::IntentionalDelay { duration_units: _, next_state } => *next_state,
        }
    }

    /// The next step that reaches the decoder: `SwitchTrack`, a moment of
    /// choosing that is never played, is passed over to the step it leads to.
    pub fn advance_published(&mut self, current: State) -> (r: State)
        requires
            old(self).wf(),
        ensures
            final(self).wf(),
            final(self).tracks() == old(self).tracks(),
            final(self).seed() == old(self).seed(),
            !(r is SwitchTrack),
            current is SwitchTrack && old(self).upcoming().narration_before@.len() > 0 ==> pick_in_pool(
                old(self).seed(),
                old(self).draws(),
                old(self).upcoming().narration_before@,
            ),
            match current {
                State::Track { track } => track.narration_after@.len() > 0 ==> pick_in_pool(
                    old(self).seed(),
                    old(self).draws(),
                    track.narration_after@,
                ),
                _ => true,
            },
            ({
                let first = successor(current@, old(self).upcoming()@, old(self).seed(), old(self).draws());
                let taken1 = old(self).tracks_taken() + if current is SwitchTrack {
                    1nat
                } else {
                    0nat
                };
                let draws1 = if draws_narration(current@, old(self).upcoming()@) {
                    old(self).draws().wrapping_add(1)
                } else {
                    old(self).draws()
                };
                let next_track = old(self).tracks()[stream_index(
                    old(self).seed(),
                    old(self).tracks().len(),
                    taken1,
                ) as int];
                if first is SwitchTrack {
                    &&& r@ == successor(StepView::SwitchTrack, next_track@, old(self).seed(), draws1)
                    &&& final(self).tracks_taken() == taken1 + 1
                    &&& final(self).draws() == if next_track.narration_before@.len() > 0 {
                        draws1.wrapping_add(1)
                    } else {
                        draws1
                    }
                    &&& next_track.narration_before@.len() > 0 ==> pick_in_pool(
                        old(self).seed(),
                        draws1,
                        next_track.narration_before@,
                    )
                } else {
                    &&& r@ == first
                    &&& final(self).tracks_taken() == taken1
                    &&& final(self).draws() == draws1
                }
            }),
    {
        proof {
            reveal_with_fuel(step_view, 2);
        }
        let first = self.advance(current);
        if matches!(first, State::SwitchTrack) {
            let r = self.advance(first);
            proof {
                assert(!(r is SwitchTrack));
            }
            r
        } else {
            first
        }
    }
}

/// Whether step `s` reaches the decoder: every step but `SwitchTrack`.
pub fn is_published(s: &State) -> (r: bool)
    ensures
        r == !(s is SwitchTrack),
{
    !matches!(s, State::SwitchTrack)
}

} // verus!
