//! The PCM ring: a FIFO of audio packets between the decoder (producer) and
//! the playback clock (consumer), kept between two watermarks.
use vstd::prelude::*;

use std::collections::VecDeque;

use crate::pcm::AudioPacket;

verus! {

/// Length at which the producer stops and the consumer may start.
pub const SETPOINT_HIGH: usize = 20;

/// Length to which the ring must fall before a stopped producer resumes.
pub const SETPOINT_LOW: usize = 10;

/// A bounded FIFO of audio packets with a high and a low watermark.
pub struct PcmRing {
    packets: VecDeque<AudioPacket>,
    high: usize,
    low: usize,
}

/// The ring refused a packet; it is handed back.
pub struct Backpressure {
    pub packet: AudioPacket,
}

impl View for PcmRing {
    type V = Seq<AudioPacket>;

    closed spec fn view(&self) -> Seq<AudioPacket> {
        self.packets@
    }
}

impl PcmRing {
    /// The high watermark.
    pub closed spec fn high(&self) -> nat {
        self.high as nat
    }

    /// The low watermark.
    pub closed spec fn low(&self) -> nat {
        self.low as nat
    }

    pub closed spec fn wf(&self) -> bool {
        &&& self.low < self.high
        &&& self.packets@.len() <= self.high
    }

    /// An empty ring with watermarks `SETPOINT_HIGH` and `SETPOINT_LOW`.
    pub fn new() -> (r: PcmRing)
        ensures
            r.wf(),
            r@ == Seq::<AudioPacket>::empty(),
            r.high() == SETPOINT_HIGH,
            r.low() == SETPOINT_LOW,
    {
        PcmRing { packets: VecDeque::new(), high: SETPOINT_HIGH, low: SETPOINT_LOW }
    }

    /// An empty ring with the given watermarks.
    pub fn with_watermarks(high: usize, low: usize) -> (r: PcmRing)
        requires
            low < high,
        ensures
            r.wf(),
            r@ == Seq::<AudioPacket>::empty(),
            r.high() == high,
            r.low() == low,
    {
        PcmRing { packets: VecDeque::new(), high, low }
    }

    /// Number of packets queued.
    pub fn len(&self) -> (r: usize)
        ensures
            r == self@.len(),
    {
        self.packets.len()
    }

    /// Whether the ring has reached its high watermark: the consumer's
    /// refill is done.
    pub fn is_filled(&self) -> (r: bool)
        ensures
            r == (self@.len() >= self.high()),
    {
        self.packets.len() >= self.high
    }

    /// Whether a producer stopped by backpressure may resume: the ring has
    /// fallen to its low watermark.
    pub fn may_resume(&self) -> (r: bool)
        ensures
            r == (self@.len() <= self.low()),
    {
        self.packets.len() <= self.low
    }

    /// Enqueues `packet` unless the ring has reached its high watermark; then
    /// the packet comes back and the producer must wait for `may_resume`.
    pub fn try_enqueue(&mut self, packet: AudioPacket) -> (r: Result<(), Backpressure>)
        requires
            old(self).wf(),
        ensures
            final(self).wf(),
            final(self).high() == old(self).high(),
            final(self).low() == old(self).low(),
            r is Ok <==> old(self)@.len() < old(self).high(),
            r is Ok ==> final(self)@ == old(self)@.push(packet),
            r is Err ==> final(self)@ == old(self)@ && r->Err_0.packet == packet,
    {
        if self.packets.len() < self.high {
            self.packets.push_back(packet);
            Ok(())
        } else {
            Err(Backpressure { packet })
        }
    }

    /// Enqueues the packet of a producer that waited out backpressure, once
    /// the ring has fallen to its low watermark; before that it comes back.
    pub fn enqueue_after_backpressure(&mut self, packet: AudioPacket) -> (r: Result<
        (),
        Backpressure,
    >)
        requires
            old(self).wf(),
        ensures
            final(self).wf(),
            final(self).high() == old(self).high(),
            final(self).low() == old(self).low(),
            r is Ok <==> old(self)@.len() <= old(self).low(),
            r is Ok ==> final(self)@ == old(self)@.push(packet),
            r is Err ==> final(self)@ == old(self)@ && r->Err_0.packet == packet,
    {
        if self.packets.len() <= self.low {
            self.packets.push_back(packet);
            Ok(())
        } else {
            Err(Backpressure { packet })
        }
    }

    /// Takes every queued packet, oldest first, and leaves the ring empty.
    pub fn drain_all(&mut self) -> (r: Vec<AudioPacket>)
        requires
            old(self).wf(),
        ensures
            final(self).wf(),
            final(self).high() == old(self).high(),
            final(self).low() == old(self).low(),
            r@ == old(self)@,
            final(self)@ == Seq::<AudioPacket>::empty(),
    {
        let mut out: Vec<AudioPacket> = Vec::new();
        while self.packets.len() > 0
            invariant
                self.wf(),
                self.high == old(self).high,
                self.low == old(self).low,
                out@ + self.packets@ == old(self)@,
            decreases self.packets@.len(),
        {
            match self.packets.pop_front() {
                Some(p) => {
                    out.push(p);
                },
                None => {},
            }
            assert(out@ + self.packets@ =~= old(self)@);
        }
        assert(out@ =~= old(self)@);
        out
    }

    /// However producer and consumer interleave, the ring never holds more
    /// than its high watermark, let alone one packet more.
    pub proof fn lemma_ring_bounded(&self)
        requires
            self.wf(),
        ensures
            self@.len() <= self.high(),
            self@.len() <= self.high() + 1,
    {
    }
}

} // verus!
