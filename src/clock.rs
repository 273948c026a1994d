//! The playback clock: paces the feed of the encoders at wall-clock rate
//! against a fixed anchor, so that small delays do not add up.
use vstd::prelude::*;

use crate::pcm::AudioPacket;

verus! {

/// `x` capped at `u64::MAX`.
pub open spec fn saturate(x: int) -> u64 {
    if x > u64::MAX {
        u64::MAX
    } else {
        x as u64
    }
}

/// Total duration, in microseconds, of the packets `batch`.
pub open spec fn batch_micros(batch: Seq<AudioPacket>) -> nat
    decreases batch.len(),
{
    if batch.len() == 0 {
        0
    } else {
        batch_micros(batch.drop_last()) + batch.last().audio_length_micros as nat
    }
}

/// What the clock's worker does next.
#[derive(PartialEq, Eq, Structural, Clone, Copy, Debug)]
pub enum ClockAction {
    /// Wait, in short sleeps, until the ring reaches its high watermark.
    Refill,
    /// Sleep this many microseconds, until the audio fed so far is due.
    Sleep { micros: u64 },
    /// The feed is behind the wall clock: go on at once.
    TimeUnderrun,
}

/// The clock's state: whether it is refilling, the anchor of the current
/// run and how much audio it has fed since then.
pub struct PlaybackClock {
    refilling: bool,
    start_micros: u64,
    playback_micros: u64,
}

impl PlaybackClock {
    /// Whether the clock waits for the ring to fill.
    pub closed spec fn refilling(&self) -> bool {
        self.refilling
    }

    /// Wall-clock time, in microseconds, at which the current run started.
    pub closed spec fn start(&self) -> u64 {
        self.start_micros
    }

    /// Audio fed to the encoders since the current run started, in
    /// microseconds.
    pub closed spec fn playback_time(&self) -> u64 {
        self.playback_micros
    }

    /// A clock that first waits for the ring to fill.
    pub fn new() -> (r: PlaybackClock)
        ensures
            r.refilling(),
            r.playback_time() == 0,
    {
        PlaybackClock { refilling: true, start_micros: 0, playback_micros: 0 }
    }

    /// Audio fed since the current run started, in microseconds.
    pub fn playback_time_micros(&self) -> (r: u64)
        ensures
            r == self.playback_time(),
    {
        self.playback_micros
    }

    /// Whether the clock waits for the ring to fill.
    pub fn is_refilling(&self) -> (r: bool)
        ensures
            r == self.refilling(),
    {
        self.refilling
    }

    /// The ring reached its high watermark at `now_micros`: a new run starts
    /// there, with nothing fed yet.
    pub fn on_filled(&mut self, now_micros: u64)
        ensures
            !final(self).refilling(),
            final(self).start() == now_micros,
            final(self).playback_time() == 0,
    {
        self.refilling = false;
        self.start_micros = now_micros;
        self.playback_micros = 0;
    }

    /// The ring was empty at the top of the loop: an underrun. The clock
    /// refills before it goes on.
    pub fn on_underrun(&mut self) -> (r: ClockAction)
        ensures
            r == ClockAction::Refill,
            final(self).refilling(),
            final(self).start() == old(self).start(),
            final(self).playback_time() == old(self).playback_time(),
    {
        self.refilling = true;
        ClockAction::Refill
    }

    /// `batch` was drained from the ring and fed to the encoders at
    /// `now_micros`: its duration is added to the playback time, and the
    /// worker sleeps until the anchor plus the playback time, or reports a
    /// time underrun when that moment has passed.
    pub fn on_batch(&mut self, batch: &Vec<AudioPacket>, now_micros: u64) -> (r: ClockAction)
        requires
            !old(self).refilling(),
        ensures
            !final(self).refilling(),
            final(self).start() == old(self).start(),
            final(self).playback_time() == saturate(
                old(self).playback_time() + batch_micros(batch@),
            ),
            final(self).playback_time() >= old(self).playback_time(),
            ({
                let next_time = saturate(final(self).start() + final(self).playback_time() as nat);
                if next_time > now_micros {
                    r == ClockAction::Sleep { micros: (next_time - now_micros) as u64 }
                } else {
                    r == ClockAction::TimeUnderrun
                }
            }),
    {
        let mut i: usize = 0;
        while i < batch.len()
            invariant
                i <= batch@.len(),
                self.start_micros == old(self).start_micros,
                !self.refilling,
                self.playback_micros == saturate(
                    old(self).playback_micros + batch_micros(batch@.subrange(0, i as int)),
                ),
            decreases batch@.len() - i,
        {
            assert(batch@.subrange(0, i as int + 1).drop_last() =~= batch@.subrange(0, i as int));
            self.playback_micros = self.playback_micros.saturating_add(batch[i].audio_length_micros);
            i = i + 1;
        }
        assert(batch@.subrange(0, i as int) =~= batch@);
        let next_time = self.start_micros.saturating_add(self.playback_micros);
        if next_time > now_micros {
            ClockAction::Sleep { micros: next_time - now_micros }
        } else {
            ClockAction::TimeUnderrun
        }
    }
}

} // verus!
