//! The station's coarse playback modes and how `play`, `stop` and `next`
//! move between them.
use vstd::prelude::*;

verus! {

/// A station's playback mode.
#[derive(PartialEq, Eq, Structural, Clone, Copy, Debug)]
pub enum StationMode {
    Down,
    Playing,
    Switching,
}

/// The mode after `play` in mode `m`: a stopped station starts playing.
pub open spec fn play_from(m: StationMode) -> StationMode {
    match m {
        StationMode::Down => StationMode::Playing,
        _ => m,
    }
}

/// The mode after `stop` in mode `m`: every station goes down.
pub open spec fn stop_from(m: StationMode) -> StationMode {
    StationMode::Down
}

/// The mode after `next` in mode `m`, where `has_next_track` tells whether
/// the playlist gave a next track: a playing station keeps playing the next
/// track or goes down without one, a switching station starts playing, and a
/// stopped one stays down.
pub open spec fn next_from(m: StationMode, has_next_track: bool) -> StationMode {
    match m {
        StationMode::Down => StationMode::Down,
        StationMode::Playing => if has_next_track {
            StationMode::Playing
        } else {
            StationMode::Down
        },
        StationMode::Switching => StationMode::Playing,
    }
}

/// The name of mode `m`.
pub open spec fn mode_name(m: StationMode) -> Seq<char> {
    match m {
        StationMode::Down => "Down"@,
        StationMode::Playing => "Playing"@,
        StationMode::Switching => "Switching"@,
    }
}

/// A playback mode as a value of its own type.
pub trait StationState {
    /// The mode that the value stands for.
    spec fn mode(&self) -> StationMode;

    /// The mode's name.
    fn name(&self) -> (r: &'static str)
        ensures
            r@ == mode_name(self.mode()),
    ;

    /// The mode after `play`.
    fn play(&self) -> (r: StationMode)
        ensures
            r == play_from(self.mode()),
    ;

    /// The mode after `stop`.
    fn stop(&self) -> (r: StationMode)
        ensures
            r == stop_from(self.mode()),
    ;

    /// The mode after `next`.
    fn next(&self, has_next_track: bool) -> (r: StationMode)
        ensures
            r == next_from(self.mode(), has_next_track),
    ;
}

/// The station is stopped.
pub struct DownState;

/// The station is playing a track.
pub struct PlayingState;

/// The station is between tracks.
pub struct SwitchingState;

impl DownState {
    pub fn new() -> (r: DownState) {
        DownState
    }
}

impl PlayingState {
    pub fn new() -> (r: PlayingState) {
        PlayingState
    }
}

impl SwitchingState {
    pub fn new() -> (r: SwitchingState) {
        SwitchingState
    }
}

impl StationState for DownState {
    open spec fn mode(&self) -> StationMode {
        StationMode::Down
    }

    fn name(&self) -> (r: &'static str) {
        "Down"
    }

    fn play(&self) -> (r: StationMode) {
        StationMode::Playing
    }

    fn stop(&self) -> (r: StationMode) {
        StationMode::Down
    }

    fn next(&self, has_next_track: bool) -> (r: StationMode) {
        StationMode::Down
    }
}

impl StationState for PlayingState {
    open spec fn mode(&self) -> StationMode {
        StationMode::Playing
    }

    fn name(&self) -> (r: &'static str) {
        "Playing"
    }

    fn play(&self) -> (r: StationMode) {
        StationMode::Playing
    }

    fn stop(&self) -> (r: StationMode) {
        StationMode::Down
    }

    fn next(&self, has_next_track: bool) -> (r: StationMode) {
        if has_next_track {
            StationMode::Playing
        } else {
            StationMode::Down
        }
    }
}

impl StationState for SwitchingState {
    open spec fn mode(&self) -> StationMode {
        StationMode::Switching
    }

    fn name(&self) -> (r: &'static str) {
        "Switching"
    }

    fn play(&self) -> (r: StationMode) {
        StationMode::Switching
    }

    fn stop(&self) -> (r: StationMode) {
        StationMode::Down
    }

    fn next(&self, has_next_track: bool) -> (r: StationMode) {
        StationMode::Playing
    }
}

impl StationMode {
    /// The mode's name.
    pub fn name(&self) -> (r: &'static str)
        ensures
            r@ == mode_name(*self),
    {
        match self {
            StationMode::Down => "Down",
            StationMode::Playing => "Playing",
            StationMode::Switching => "Switching",
        }
    }
}

} // verus!
