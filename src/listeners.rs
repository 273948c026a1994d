//! Bookkeeping of the listeners of a codec's broadcast: their records, the
//! decisions of each listener's stream, and process-wide listener ids.
use vstd::prelude::*;

verus! {

/// Hands out listener ids, each once.
pub struct IdGenerator {
    next: usize,
}

impl IdGenerator {
    /// The id that the next call of `generate_id` hands out.
    pub closed spec fn next_id(&self) -> nat {
        self.next as nat
    }

    /// A generator that starts at 0.
    pub fn new() -> (r: IdGenerator)
        ensures
            r.next_id() == 0,
    {
        IdGenerator { next: 0 }
    }
}

/// A fresh id: each call returns one more than the previous one, until the
/// ids of a `usize` run out.
pub fn generate_id(ids: &mut IdGenerator) -> (r: Option<usize>)
    ensures
        old(ids).next_id() < usize::MAX ==> r == Some(old(ids).next_id() as usize)
            && final(ids).next_id() == old(ids).next_id() + 1,
        old(ids).next_id() == usize::MAX ==> r is None && final(ids).next_id() == old(ids).next_id(),
{
    if ids.next == usize::MAX {
        return None;
    }
    let r = ids.next;
    ids.next = ids.next + 1;
    Some(r)
}

/// What is kept of a connected listener; `S` is the signal that ends its
/// stream.
pub struct ListenerRecord<S> {
    pub id: usize,
    pub bytes_sent: u64,
    pub connected_at_ms: u64,
    pub shutdown: S,
}

/// Bits per second of `bytes` bytes sent over `elapsed_ms` milliseconds;
/// zero when no time has passed.
pub open spec fn bits_per_second(bytes: nat, elapsed_ms: nat) -> int {
    if elapsed_ms == 0 {
        0
    } else {
        (bytes * 8000 / elapsed_ms) as int
    }
}

/// `x` capped at `u64::MAX`.
pub open spec fn cap_u64(x: int) -> u64 {
    if x > u64::MAX {
        u64::MAX
    } else {
        x as u64
    }
}

/// One listener's traffic: its id, bytes sent and bits per second.
#[derive(PartialEq, Eq, Structural, Clone, Copy, Debug)]
pub struct BandwidthStat {
    pub id: usize,
    pub bytes_sent: u64,
    pub bits_per_second: u64,
}

/// The connected listeners of one broadcast, in the order they attached, each
/// id at most once.
pub struct ListenerRegistry<S> {
    clients: Vec<ListenerRecord<S>>,
}

impl<S> View for ListenerRegistry<S> {
    type V = Seq<ListenerRecord<S>>;

    closed spec fn view(&self) -> Seq<ListenerRecord<S>> {
        self.clients@
    }
}

impl<S> ListenerRegistry<S> {
    /// The ids of the records `s`.
    pub open spec fn ids_of(s: Seq<ListenerRecord<S>>) -> Seq<usize> {
        s.map_values(|c: ListenerRecord<S>| c.id)
    }

    pub open spec fn wf(&self) -> bool {
        Self::ids_of(self@).no_duplicates()
    }

    /// Whether a listener with id `id` is connected.
    pub open spec fn has(&self, id: usize) -> bool {
        Self::ids_of(self@).contains(id)
    }

    /// An empty registry.
    pub fn new() -> (r: ListenerRegistry<S>)
        ensures
            r.wf(),
            r@ == Seq::<ListenerRecord<S>>::empty(),
    {
        ListenerRegistry { clients: Vec::new() }
    }

    fn find(&self, id: usize) -> (r: Option<usize>)
        ensures
            r is None <==> !self.has(id),
            r is Some ==> r->0 < self@.len() && self@[r->0 as int].id == id,
    {
        let mut i: usize = 0;
        while i < self.clients.len()
            invariant
                i <= self@.len(),
                forall|j: int| 0 <= j < i ==> self@[j].id != id,
            decreases self@.len() - i,
        {
            if self.clients[i].id == id {
                proof {
                    assert(Self::ids_of(self@)[i as int] == id);
                }
                return Some(i);
            }
            i = i + 1;
        }
        proof {
            if self.has(id) {
                let j = choose|j: int| 0 <= j < self@.len() && Self::ids_of(self@)[j] == id;
                assert(self@[j].id == id);
            }
        }
        None
    }

    /// Whether a listener with id `id` is connected.
    pub fn contains(&self, id: usize) -> (r: bool)
        ensures
            r == self.has(id),
    {
        self.find(id).is_some()
    }

    /// Records a listener that connected at `now_ms`, with nothing sent yet.
    /// An id that is already connected is refused, and `shutdown` comes back.
    pub fn register(&mut self, id: usize, now_ms: u64, shutdown: S) -> (r: Option<S>)
        requires
            old(self).wf(),
        ensures
            final(self).wf(),
            r is None <==> !old(self).has(id),
            r is None ==> final(self)@ == old(self)@.push(
                ListenerRecord { id, bytes_sent: 0, connected_at_ms: now_ms, shutdown },
            ),
            r is Some ==> final(self)@ == old(self)@ && r->0 == shutdown,
    {
        if self.contains(id) {
            return Some(shutdown);
        }
        let ghost before = self@;
        self.clients.push(ListenerRecord { id, bytes_sent: 0, connected_at_ms: now_ms, shutdown });
        proof {
            assert(Self::ids_of(self@) =~= Self::ids_of(before).push(id));
        }
        None
    }

    /// Removes the listener `id` and hands back its shutdown signal; `None`
    /// when no such listener is connected.
    pub fn remove(&mut self, id: usize) -> (r: Option<S>)
        requires
            old(self).wf(),
        ensures
            final(self).wf(),
            r is None <==> !old(self).has(id),
            r is None ==> final(self)@ == old(self)@,
            r is Some ==> exists|i: int|
                0 <= i < old(self)@.len() && old(self)@[i].id == id && #[trigger] old(self)@[i].shutdown
                    == r->0 && final(self)@ == old(self)@.remove(i),
            !final(self).has(id),
    {
        match self.find(id) {
            None => None,
            Some(i) => {
                let ghost before = self@;
                let rec = self.clients.remove(i);
                proof {
                    assert(Self::ids_of(self@) =~= Self::ids_of(before).remove(i as int));
                    assert(before[i as int].shutdown == rec.shutdown);
                    assert forall|j: int| 0 <= j < self@.len() implies #[trigger] Self::ids_of(self@)[j] != id by {
                        if j < i {
                            assert(Self::ids_of(before)[j] != Self::ids_of(before)[i as int]);
                        } else {
                            assert(Self::ids_of(before)[j + 1] != Self::ids_of(before)[i as int]);
                        }
                    }
                }
                Some(rec.shutdown)
            },
        }
    }

    /// Adds `n` bytes to what listener `id` has been sent (capped at
    /// `u64::MAX`); nothing changes when no such listener is connected.
    pub fn record_sent(&mut self, id: usize, n: u64) -> (r: bool)
        requires
            old(self).wf(),
        ensures
            final(self).wf(),
            r == old(self).has(id),
            final(self)@.len() == old(self)@.len(),
            forall|i: int|
                0 <= i < old(self)@.len() ==> {
                    let o = #[trigger] old(self)@[i];
                    let f = final(self)@[i];
                    &&& f.id == o.id
                    &&& f.connected_at_ms == o.connected_at_ms
                    &&& f.shutdown == o.shutdown
                    &&& f.bytes_sent == if o.id == id {
                        cap_u64(o.bytes_sent + n)
                    } else {
                        o.bytes_sent
                    }
                },
    {
        match self.find(id) {
            None => {
                proof {
                    assert forall|j: int| 0 <= j < self@.len() implies self@[j].id != id by {
                        assert(Self::ids_of(self@)[j] == self@[j].id);
                    }
                }
                false
            },
            Some(i) => {
                let ghost before = self@;
                let mut rec = self.clients.remove(i);
                assert(rec == before[i as int]);
                rec.bytes_sent = rec.bytes_sent.saturating_add(n);
                assert(rec.bytes_sent == cap_u64(before[i as int].bytes_sent + n));
                self.clients.insert(i, rec);
                proof {
                    assert(self@ =~= before.update(i as int, rec));
                    assert(Self::ids_of(self@) =~= Self::ids_of(before));
                    assert forall|j: int| 0 <= j < before.len() && j != i implies before[j].id != id by {
                        assert(Self::ids_of(before)[j] != Self::ids_of(before)[i as int]);
                    }
                }
                true
            },
        }
    }

    /// The ids of the connected listeners, in the order they attached.
    pub fn list_clients(&self) -> (r: Vec<usize>)
        ensures
            r@ == Self::ids_of(self@),
    {
        let mut out: Vec<usize> = Vec::new();
        let mut i: usize = 0;
        while i < self.clients.len()
            invariant
                i <= self@.len(),
                out@ == Self::ids_of(self@.subrange(0, i as int)),
            decreases self@.len() - i,
        {
            out.push(self.clients[i].id);
            i = i + 1;
            assert(out@ =~= Self::ids_of(self@.subrange(0, i as int)));
        }
        assert(self@.subrange(0, i as int) =~= self@);
        out
    }

    /// Each connected listener's bytes sent and bits per second at `now_ms`
    /// (capped at `u64::MAX`), in the order they attached.
    pub fn get_bandwidth_stats(&self, now_ms: u64) -> (r: Vec<BandwidthStat>)
        ensures
            r@.len() == self@.len(),
            forall|i: int|
                0 <= i < self@.len() ==> #[trigger] r@[i] == (BandwidthStat {
                    id: self@[i].id,
                    bytes_sent: self@[i].bytes_sent,
                    bits_per_second: cap_u64(
                        bits_per_second(
                            self@[i].bytes_sent as nat,
                            if now_ms >= self@[i].connected_at_ms {
                                (now_ms - self@[i].connected_at_ms) as nat
                            } else {
                                0
                            },
                        ),
                    ),
                }),
    {
        let mut out: Vec<BandwidthStat> = Vec::new();
        let mut i: usize = 0;
        while i < self.clients.len()
            invariant
                i <= self@.len(),
                out@.len() == i,
                forall|j: int|
                    0 <= j < i ==> #[trigger] out@[j] == (BandwidthStat {
                        id: self@[j].id,
                        bytes_sent: self@[j].bytes_sent,
                        bits_per_second: cap_u64(
                            bits_per_second(
                                self@[j].bytes_sent as nat,
                                if now_ms >= self@[j].connected_at_ms {
                                    (now_ms - self@[j].connected_at_ms) as nat
                                } else {
                                    0
                                },
                            ),
                        ),
                    }),
            decreases self@.len() - i,
        {
            let c = &self.clients[i];
            let elapsed: u64 = if now_ms >= c.connected_at_ms {
                now_ms - c.connected_at_ms
            } else {
                0
            };
            let bps: u64 = if elapsed == 0 {
                0
            } else {
                let wide: u128 = (c.bytes_sent as u128) * 8000 / (elapsed as u128);
                if wide > u64::MAX as u128 {
                    u64::MAX
                } else {
                    wide as u64
                }
            };
            out.push(BandwidthStat { id: c.id, bytes_sent: c.bytes_sent, bits_per_second: bps });
            i = i + 1;
        }
        out
    }
}

/// Total of `stats`' bytes sent.
pub open spec fn stats_total(stats: Seq<BandwidthStat>) -> nat
    decreases stats.len(),
{
    if stats.len() == 0 {
        0
    } else {
        stats_total(stats.drop_last()) + stats.last().bytes_sent as nat
    }
}

/// Bytes sent to all listeners together, capped at `u64::MAX`.
pub fn total_bytes_sent(stats: &Vec<BandwidthStat>) -> (r: u64)
    ensures
        r == cap_u64(stats_total(stats@) as int),
{
    let mut total: u64 = 0;
    let mut i: usize = 0;
    while i < stats.len()
        invariant
            i <= stats@.len(),
            total == cap_u64(stats_total(stats@.subrange(0, i as int)) as int),
        decreases stats@.len() - i,
    {
        assert(stats@.subrange(0, i as int + 1).drop_last() =~= stats@.subrange(0, i as int));
        total = total.saturating_add(stats[i].bytes_sent);
        i = i + 1;
    }
    assert(stats@.subrange(0, i as int) =~= stats@);
    total
}

/// Bytes per second sent between two reports `elapsed_ms` apart, whose totals
/// were `previous` and `current`; zero when no time passed or the total fell
/// (listeners left).
pub fn throughput_bytes_per_second(previous: u64, current: u64, elapsed_ms: u64) -> (r: u64)
    ensures
        r == if elapsed_ms == 0 || current <= previous {
            0
        } else {
            cap_u64(((current - previous) as nat * 1000 / elapsed_ms as nat) as int)
        },
{
    if elapsed_ms == 0 || current <= previous {
        return 0;
    }
    let wide: u128 = ((current - previous) as u128) * 1000 / (elapsed_ms as u128);
    if wide > u64::MAX as u128 {
        u64::MAX
    } else {
        wide as u64
    }
}

/// What happened to a listener's stream.
#[derive(PartialEq, Eq, Structural, Clone, Copy, Debug)]
pub enum ListenerEvent {
    /// The broadcast delivered a chunk of `len` bytes.
    Chunk { len: u64 },
    /// The listener fell behind and `skipped` chunks were lost.
    Lagged { skipped: u64 },
    /// The listener's shutdown signal fired.
    Shutdown,
    /// The broadcast closed.
    Closed,
}

/// What a listener's stream does about an event.
#[derive(PartialEq, Eq, Structural, Clone, Copy, Debug)]
pub enum ListenerAction {
    /// Hand the chunk to the listener.
    Forward,
    /// Note the lag and go on with the next chunk.
    Skip,
    /// End the stream normally.
    Stop,
    /// The broadcast closed, which a station never does: a programming error.
    Fail,
}

/// The state of one listener's stream: the null frame has gone out first,
/// then the broadcast's chunks.
pub struct ListenerSession {
    id: usize,
    bytes_sent: u64,
    finished: bool,
    normal_exit: bool,
}

impl ListenerSession {
    /// The listener whose stream this is.
    pub closed spec fn listener(&self) -> usize {
        self.id
    }

    pub closed spec fn sent(&self) -> u64 {
        self.bytes_sent
    }

    pub closed spec fn finished(&self) -> bool {
        self.finished
    }

    pub closed spec fn normal_exit(&self) -> bool {
        self.normal_exit
    }

    /// The stream of listener `id` after its null frame of `null_frame_len`
    /// bytes went out.
    pub fn start(id: usize, null_frame_len: u64) -> (r: ListenerSession)
        ensures
            r.listener() == id,
            r.sent() == null_frame_len,
            !r.finished(),
            !r.normal_exit(),
    {
        ListenerSession { id, bytes_sent: null_frame_len, finished: false, normal_exit: false }
    }

    /// The listener whose stream this is.
    pub fn id(&self) -> (r: usize)
        ensures
            r == self.listener(),
    {
        self.id
    }

    /// Bytes handed to the listener so far.
    pub fn bytes_sent(&self) -> (r: u64)
        ensures
            r == self.sent(),
    {
        self.bytes_sent
    }

    /// Whether the stream ended by its shutdown signal; a stream that ends
    /// any other way was dropped by the client.
    pub fn exited_normally(&self) -> (r: bool)
        ensures
            r == self.normal_exit(),
    {
        self.normal_exit
    }

    /// Whether the stream has ended.
    pub fn is_finished(&self) -> (r: bool)
        ensures
            r == self.finished(),
    {
        self.finished
    }

    /// Decides about `event`: a chunk is forwarded and counted, a lag is
    /// skipped, the shutdown signal ends the stream normally, and a closed
    /// broadcast is an error.
    pub fn on_event(&mut self, event: ListenerEvent) -> (r: ListenerAction)
        requires
            !old(self).finished(),
        ensures
            final(self).listener() == old(self).listener(),
            match event {
                ListenerEvent::Chunk { len } => r == ListenerAction::Forward && final(self).sent()
                    == cap_u64(old(self).sent() + len) && !final(self).finished()
                    && final(self).normal_exit() == old(self).normal_exit(),
                ListenerEvent::Lagged { skipped: _ } => r == ListenerAction::Skip && final(self).sent()
                    == old(self).sent() && !final(self).finished()
                    && final(self).normal_exit() == old(self).normal_exit(),
                ListenerEvent::Shutdown => r == ListenerAction::Stop && final(self).sent()
                    == old(self).sent() && final(self).finished() && final(self).normal_exit(),
                ListenerEvent::Closed => r == ListenerAction::Fail && final(self).sent()
                    == old(self).sent() && final(self).finished() && !final(self).normal_exit(),
            },
    {
        match event {
            ListenerEvent::Chunk { len } => {
                self.bytes_sent = self.bytes_sent.saturating_add(len);
                ListenerAction::Forward
            },
            ListenerEvent::Lagged { skipped: _ } => ListenerAction::Skip,
            ListenerEvent::Shutdown => {
                self.finished = true;
                self.normal_exit = true;
                ListenerAction::Stop
            },
            ListenerEvent::Closed => {
                self.finished = true;
                self.normal_exit = false;
                ListenerAction::Fail
            },
        }
    }
}

} // verus!
