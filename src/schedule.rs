use vstd::prelude::*;
use crate::scanner_enums::PortStatus;

verus! {

/// The state of one launched port.
#[derive(Debug, Clone, Copy, PartialEq, Eq, Structural)]
pub enum SlotState {
    Running,
    Done(PortStatus),
}

pub open spec fn count_running(s: Seq<SlotState>) -> nat
    decreases s.len(),
{
    if s.len() == 0 {
        0
    } else {
        count_running(s.drop_last()) + if s.last() is Running {
            1nat
        } else {
            0nat
        }
    }
}

/// The finished ports of `s`, in port order, the first slot being port `start`.
pub open spec fn done_pairs(s: Seq<SlotState>, start: int) -> Seq<(u16, PortStatus)>
    decreases s.len(),
{
    if s.len() == 0 {
        Seq::empty()
    } else {
        let prev = done_pairs(s.drop_last(), start);
        match s.last() {
            SlotState::Done(st) => prev.push(((start + s.len() - 1) as u16, st)),
            SlotState::Running => prev,
        }
    }
}

proof fn lemma_count_update(s: Seq<SlotState>, i: int, x: SlotState)
    requires
        0 <= i < s.len(),
    ensures
        count_running(s.update(i, x)) + (if s[i] is Running {
            1int
        } else {
            0int
        }) == count_running(s) + (if x is Running {
            1int
        } else {
            0int
        }),
    decreases s.len(),
{
    let t = s.update(i, x);
    if i == s.len() - 1 {
        assert(t.drop_last() =~= s.drop_last());
    } else {
        assert(t.drop_last() =~= s.drop_last().update(i, x));
        lemma_count_update(s.drop_last(), i, x);
    }
}

proof fn lemma_count_at_least_one(s: Seq<SlotState>, i: int)
    requires
        0 <= i < s.len(),
        s[i] is Running,
    ensures
        count_running(s) >= 1,
    decreases s.len(),
{
    if i < s.len() - 1 {
        lemma_count_at_least_one(s.drop_last(), i);
    }
}

proof fn lemma_count_two(s: Seq<SlotState>, i: int, j: int)
    requires
        0 <= i < j < s.len(),
        s[i] is Running,
        s[j] is Running,
    ensures
        count_running(s) >= 2,
    decreases s.len(),
{
    if j == s.len() - 1 {
        lemma_count_at_least_one(s.drop_last(), i);
    } else {
        lemma_count_two(s.drop_last(), i, j);
    }
}

/// Which ports of `start_port..=end_port` have been launched, which are in flight
/// and which finished with what status. Ports are launched in increasing order and
/// at most `concurrency` of them are in flight at once.
pub struct ScanSchedule {
    start_port: u16,
    end_port: u16,
    concurrency: usize,
    slots: Vec<SlotState>,
    in_flight: usize,
}

impl ScanSchedule {
    pub closed spec fn first(&self) -> u16 {
        self.start_port
    }

    pub closed spec fn last(&self) -> u16 {
        self.end_port
    }

    pub closed spec fn bound(&self) -> nat {
        self.concurrency as nat
    }

    /// The number of ports in the range.
    pub open spec fn total(&self) -> nat {
        if self.last() >= self.first() {
            (self.last() - self.first() + 1) as nat
        } else {
            0
        }
    }

    /// How many ports have been launched so far.
    pub closed spec fn launched(&self) -> nat {
        self.slots@.len()
    }

    /// How many launched ports are still in flight.
    pub closed spec fn in_flight(&self) -> nat {
        count_running(self.slots@)
    }

    pub closed spec fn is_running(&self, p: u16) -> bool {
        self.start_port <= p < self.start_port + self.slots@.len() && self.slots@[p
            - self.start_port] is Running
    }

    /// The recorded result of each finished port.
    pub closed spec fn results(&self) -> Map<u16, PortStatus> {
        Map::new(
            |p: u16|
                self.start_port <= p < self.start_port + self.slots@.len() && self.slots@[p
                    - self.start_port] is Done,
            |p: u16| self.slots@[p - self.start_port]->Done_0,
        )
    }

    /// The finished ports with their statuses, in port order.
    pub closed spec fn results_in_order(&self) -> Seq<(u16, PortStatus)> {
        done_pairs(self.slots@, self.start_port as int)
    }

    pub closed spec fn wf(&self) -> bool {
        &&& self.concurrency >= 1
        &&& self.slots@.len() <= self.total()
        &&& self.in_flight == count_running(self.slots@)
        &&& self.in_flight <= self.concurrency
    }

    /// A schedule over `start_port..=end_port` (empty when `start_port > end_port`).
    pub fn new(start_port: u16, end_port: u16, concurrency: usize) -> (r: Self)
        requires
            concurrency >= 1,
        ensures
            r.wf(),
            r.first() == start_port,
            r.last() == end_port,
            r.bound() == concurrency,
            r.launched() == 0,
            r.in_flight() == 0,
            r.results() == Map::<u16, PortStatus>::empty(),
    {
        let r = ScanSchedule { start_port, end_port, concurrency, slots: Vec::new(), in_flight: 0 };
        assert(r.results() =~= Map::<u16, PortStatus>::empty());
        r
    }

    /// Admits the next port when a permit is free and ports remain.
    pub fn next_port(&mut self) -> (r: Option<u16>)
        requires
            old(self).wf(),
        ensures
            final(self).wf(),
            final(self).first() == old(self).first(),
            final(self).last() == old(self).last(),
            final(self).bound() == old(self).bound(),
            final(self).results() == old(self).results(),
            r is Some <==> old(self).in_flight() < old(self).bound() && old(self).launched()
                < old(self).total(),
            r is Some ==> r->0 == old(self).first() + old(self).launched() && final(self).launched()
                == old(self).launched() + 1 && final(self).in_flight() == old(self).in_flight() + 1
                && final(self).is_running(r->0),
            r is None ==> *final(self) == *old(self),
    {
        let total: usize = if self.end_port >= self.start_port {
            (self.end_port - self.start_port) as usize + 1
        } else {
            0
        };
        if self.in_flight < self.concurrency && self.slots.len() < total {
            let port = self.start_port + self.slots.len() as u16;
            let ghost before = self.slots@;
            self.slots.push(SlotState::Running);
            assert(self.slots@.drop_last() =~= before);
            self.in_flight = self.in_flight + 1;
            assert(self.results() =~= old(self).results());
            Some(port)
        } else {
            None
        }
    }

    /// Records `status` for `port` if it is in flight, releasing its permit; returns
    /// whether it was in flight.
    pub fn complete(&mut self, port: u16, status: PortStatus) -> (r: bool)
        requires
            old(self).wf(),
        ensures
            final(self).wf(),
            final(self).first() == old(self).first(),
            final(self).last() == old(self).last(),
            final(self).bound() == old(self).bound(),
            final(self).launched() == old(self).launched(),
            r == old(self).is_running(port),
            r ==> final(self).results() == old(self).results().insert(port, status)
                && final(self).in_flight() + 1 == old(self).in_flight() && !final(self).is_running(port),
            !r ==> *final(self) == *old(self),
    {
        if port < self.start_port {
            return false;
        }
        let i = (port - self.start_port) as usize;
        if i >= self.slots.len() {
            return false;
        }
        match self.slots[i] {
            SlotState::Running => {
                let ghost before = self.slots@;
                self.slots.set(i, SlotState::Done(status));
                proof {
                    lemma_count_update(before, i as int, SlotState::Done(status));
                    lemma_count_at_least_one(before, i as int);
                }
                self.in_flight = self.in_flight - 1;
                assert(self.results() =~= old(self).results().insert(port, status));
                true
            },
            SlotState::Done(_) => false,
        }
    }

    /// True once every port has been launched and none is in flight; then the results
    /// hold exactly one entry for each port of the range.
    pub fn is_finished(&self) -> (r: bool)
        requires
            self.wf(),
        ensures
            r == (self.launched() == self.total() && self.in_flight() == 0),
            r ==> forall|p: u16|
                #[trigger] self.results().contains_key(p) <==> self.first() <= p <= self.last(),
    {
        let total: usize = if self.end_port >= self.start_port {
            (self.end_port - self.start_port) as usize + 1
        } else {
            0
        };
        let r = self.slots.len() == total && self.in_flight == 0;
        proof {
            if r {
                assert forall|p: u16| #[trigger]
                    self.results().contains_key(p) <==> self.first() <= p <= self.last() by {
                    if self.first() <= p <= self.last() {
                        let i = p - self.start_port;
                        if self.slots@[i] is Running {
                            lemma_count_at_least_one(self.slots@, i);
                        }
                    }
                }
            }
        }
        r
    }

    /// The finished ports with their statuses, in port order.
    pub fn results_list(&self) -> (r: Vec<(u16, PortStatus)>)
        requires
            self.wf(),
        ensures
            r@ == self.results_in_order(),
    {
        let mut out: Vec<(u16, PortStatus)> = Vec::new();
        let mut i: usize = 0;
        while i < self.slots.len()
            invariant
                self.wf(),
                0 <= i <= self.slots@.len(),
                out@ == done_pairs(self.slots@.take(i as int), self.start_port as int),
            decreases self.slots@.len() - i,
        {
            let ghost prev = self.slots@.take(i as int);
            assert(self.slots@.take(i + 1).drop_last() =~= prev);
            match self.slots[i] {
                SlotState::Done(st) => {
                    out.push((self.start_port + i as u16, st));
                },
                SlotState::Running => {},
            }
            i += 1;
        }
        assert(self.slots@.take(i as int) =~= self.slots@);
        out
    }
}

/// At every moment the number of probes in flight is at most the concurrency bound.
pub proof fn lemma_in_flight_within_bound(s: &ScanSchedule)
    requires
        s.wf(),
    ensures
        s.in_flight() <= s.bound(),
{
}

/// With a concurrency of one, probes run strictly one after another: no two ports
/// are ever in flight together.
pub proof fn lemma_serial_at_concurrency_one(s: &ScanSchedule, p: u16, q: u16)
    requires
        s.wf(),
        s.bound() == 1,
        s.is_running(p),
        s.is_running(q),
    ensures
        p == q,
{
    if p < q {
        lemma_count_two(s.slots@, p - s.start_port, q - s.start_port);
    } else if q < p {
        lemma_count_two(s.slots@, q - s.start_port, p - s.start_port);
    }
}

/// A range of one port is scanned by exactly one probe, and yields one result.
pub proof fn lemma_single_port_single_probe(s: &ScanSchedule)
    requires
        s.wf(),
        s.first() == s.last(),
        s.launched() == s.total(),
        s.in_flight() == 0,
    ensures
        s.launched() == 1,
        s.results().dom() == set![s.first()],
{
    assert forall|p: u16| s.results().dom().contains(p) <==> p == s.first() by {
        if p == s.first() {
            if s.slots@[0] is Running {
                lemma_count_at_least_one(s.slots@, 0);
            }
        }
    }
    assert(s.results().dom() =~= set![s.first()]);
}

} // verus!
