use vstd::prelude::*;

verus! {

/// One rendezvous: the delivery handle of the probe sent from `src_port` to `dst_port`.
pub struct ProbeEntry<H> {
    pub src_port: u16,
    pub dst_port: u16,
    pub handle: H,
}

/// The rendezvous table between in-flight raw probes and the listener, keyed by
/// (ephemeral source port, target port). Keys are unique: a second registration
/// of a key in use is refused, so no probe's handle is ever overwritten.
pub struct ProbeTable<H> {
    entries: Vec<ProbeEntry<H>>,
}

pub open spec fn entry_key<H>(e: ProbeEntry<H>) -> (u16, u16) {
    (e.src_port, e.dst_port)
}

impl<H> ProbeTable<H> {
    spec fn holds(&self, k: (u16, u16)) -> bool {
        exists|i: int| 0 <= i < self.entries@.len() && entry_key(#[trigger] self.entries@[i]) == k
    }

    spec fn index_of(&self, k: (u16, u16)) -> int {
        choose|i: int| 0 <= i < self.entries@.len() && entry_key(#[trigger] self.entries@[i]) == k
    }

    /// Keys are unique.
    pub closed spec fn wf(&self) -> bool {
        forall|i: int, j: int|
            0 <= i < j < self.entries@.len() ==> entry_key(#[trigger] self.entries@[i]) != entry_key(
                #[trigger] self.entries@[j],
            )
    }

    pub closed spec fn view(&self) -> Map<(u16, u16), H> {
        Map::new(|k: (u16, u16)| self.holds(k), |k: (u16, u16)| self.entries@[self.index_of(k)].handle)
    }

    proof fn lemma_index(&self, i: int)
        requires
            self.wf(),
            0 <= i < self.entries@.len(),
        ensures
            self.view().contains_key(entry_key(self.entries@[i])),
            self.view()[entry_key(self.entries@[i])] == self.entries@[i].handle,
    {
        let k = entry_key(self.entries@[i]);
        assert(self.holds(k));
        let j = self.index_of(k);
        assert(entry_key(self.entries@[j]) == k);
        if i < j {
            assert(entry_key(self.entries@[i]) != entry_key(self.entries@[j]));
        } else if j < i {
            assert(entry_key(self.entries@[j]) != entry_key(self.entries@[i]));
        }
    }

    /// An empty table.
    pub fn new() -> (r: Self)
        ensures
            r.wf(),
            r.view() == Map::<(u16, u16), H>::empty(),
    {
        let r = ProbeTable { entries: Vec::new() };
        assert(r.view() =~= Map::<(u16, u16), H>::empty());
        r
    }

    fn find(&self, src_port: u16, dst_port: u16) -> (r: Option<usize>)
        ensures
            match r {
                Some(i) => i < self.entries@.len() && entry_key(self.entries@[i as int]) == (
                    src_port,
                    dst_port,
                ),
                None => forall|i: int|
                    0 <= i < self.entries@.len() ==> entry_key(#[trigger] self.entries@[i]) != (
                        src_port,
                        dst_port,
                    ),
            },
    {
        let mut i: usize = 0;
        while i < self.entries.len()
            invariant
                0 <= i <= self.entries@.len(),
                forall|j: int|
                    0 <= j < i ==> entry_key(#[trigger] self.entries@[j]) != (src_port, dst_port),
            decreases self.entries@.len() - i,
        {
            if self.entries[i].src_port == src_port && self.entries[i].dst_port == dst_port {
                return Some(i);
            }
            i += 1;
        }
        None
    }

    /// True when a probe is registered under the key.
    pub fn contains(&self, src_port: u16, dst_port: u16) -> (r: bool)
        requires
            self.wf(),
        ensures
            r == self.view().contains_key((src_port, dst_port)),
    {
        match self.find(src_port, dst_port) {
            Some(i) => {
                proof {
                    self.lemma_index(i as int);
                }
                true
            },
            None => false,
        }
    }

    /// The handle registered under the key, if any.
    pub fn lookup(&self, src_port: u16, dst_port: u16) -> (r: Option<&H>)
        requires
            self.wf(),
        ensures
            r is Some <==> self.view().contains_key((src_port, dst_port)),
            r is Some ==> *r->0 == self.view()[(src_port, dst_port)],
    {
        match self.find(src_port, dst_port) {
            Some(i) => {
                proof {
                    self.lemma_index(i as int);
                }
                Some(&self.entries[i].handle)
            },
            None => None,
        }
    }

    /// Registers `handle` under the key unless the key is in use; returns whether it did.
    pub fn register(&mut self, src_port: u16, dst_port: u16, handle: H) -> (r: bool)
        requires
            old(self).wf(),
        ensures
            final(self).wf(),
            r == !old(self).view().contains_key((src_port, dst_port)),
            r ==> final(self).view() == old(self).view().insert((src_port, dst_port), handle),
            !r ==> final(self).view() == old(self).view(),
    {
        match self.find(src_port, dst_port) {
            Some(i) => {
                proof {
                    self.lemma_index(i as int);
                }
                false
            },
            None => {
                let ghost before = *self;
                let k = (src_port, dst_port);
                self.entries.push(ProbeEntry { src_port, dst_port, handle });
                let ghost n: int = before.entries@.len() as int;
                assert forall|i: int, j: int|
                    0 <= i < j < self.entries@.len() implies entry_key(
                        #[trigger] self.entries@[i],
                    ) != entry_key(#[trigger] self.entries@[j]) by {
                    if j < n {
                        assert(before.entries@[i] == self.entries@[i]);
                        assert(before.entries@[j] == self.entries@[j]);
                    } else {
                        assert(before.entries@[i] == self.entries@[i]);
                    }
                }
                assert forall|k2: (u16, u16)|
                    #[trigger] self.view().contains_key(k2) <==> before.view().insert(
                        k,
                        handle,
                    ).contains_key(k2) by {
                    if self.holds(k2) && k2 != k {
                        let j = self.index_of(k2);
                        assert(before.entries@[j] == self.entries@[j]);
                        assert(before.holds(k2));
                    }
                    if before.holds(k2) {
                        let j = before.index_of(k2);
                        assert(before.entries@[j] == self.entries@[j]);
                        assert(self.holds(k2));
                    }
                    if k2 == k {
                        assert(entry_key(self.entries@[n]) == k);
                    }
                }
                assert forall|k2: (u16, u16)| #[trigger]
                    self.view().contains_key(k2) implies self.view()[k2] == before.view().insert(
                    k,
                    handle,
                )[k2] by {
                    if k2 == k {
                        self.lemma_index(n);
                    } else {
                        let j = before.index_of(k2);
                        assert(before.entries@[j] == self.entries@[j]);
                        before.lemma_index(j);
                        self.lemma_index(j);
                    }
                }
                assert(self.view() =~= before.view().insert(k, handle));
                true
            },
        }
    }

    /// Drops the rendezvous under the key, handing back its handle if there was one.
    pub fn remove(&mut self, src_port: u16, dst_port: u16) -> (r: Option<H>)
        requires
            old(self).wf(),
        ensures
            final(self).wf(),
            final(self).view() == old(self).view().remove((src_port, dst_port)),
            r is Some <==> old(self).view().contains_key((src_port, dst_port)),
            r is Some ==> r->0 == old(self).view()[(src_port, dst_port)],
    {
        match self.find(src_port, dst_port) {
            Some(i) => {
                let ghost before = *self;
                let k = (src_port, dst_port);
                proof {
                    before.lemma_index(i as int);
                }
                let e = self.entries.remove(i);
                let ghost n: int = before.entries@.len() as int;
                assert forall|a: int, b: int|
                    0 <= a < b < self.entries@.len() implies entry_key(
                        #[trigger] self.entries@[a],
                    ) != entry_key(#[trigger] self.entries@[b]) by {
                    let a0 = if a < i {
                        a
                    } else {
                        a + 1
                    };
                    let b0 = if b < i {
                        b
                    } else {
                        b + 1
                    };
                    assert(self.entries@[a] == before.entries@[a0]);
                    assert(self.entries@[b] == before.entries@[b0]);
                }
                assert forall|k2: (u16, u16)|
                    #[trigger] self.view().contains_key(k2) <==> before.view().remove(
                        k,
                    ).contains_key(k2) by {
                    if self.holds(k2) {
                        let j = self.index_of(k2);
                        let j0 = if j < i {
                            j
                        } else {
                            j + 1
                        };
                        assert(self.entries@[j] == before.entries@[j0]);
                        before.lemma_index(j0);
                        if k2 == k {
                            assert(entry_key(before.entries@[i as int]) == k);
                        }
                    }
                    if before.holds(k2) && k2 != k {
                        let j = before.index_of(k2);
                        if j < i {
                            assert(self.entries@[j] == before.entries@[j]);
                        } else {
                            assert(j != i);
                            assert(self.entries@[j - 1] == before.entries@[j]);
                        }
                    }
                }
                assert forall|k2: (u16, u16)| #[trigger]
                    self.view().contains_key(k2) implies self.view()[k2] == before.view().remove(
                    k,
                )[k2] by {
                    let j = self.index_of(k2);
                    let j0 = if j < i {
                        j
                    } else {
                        j + 1
                    };
                    assert(self.entries@[j] == before.entries@[j0]);
                    self.lemma_index(j);
                    before.lemma_index(j0);
                }
                assert(self.view() =~= before.view().remove(k));
                Some(e.handle)
            },
            None => {
                assert(self.view() =~= self.view().remove((src_port, dst_port)));
                None
            },
        }
    }
}

} // verus!
