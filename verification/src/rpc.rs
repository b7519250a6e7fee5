//! Request/response correlation: the id allocator and the table of
//! single-shot waiters. Ids start at 1, grow by one per request and are
//! never reused; a waiter leaves the table the moment it is resumed, so a
//! second response with the same id finds nothing to resume.
use vstd::prelude::*;
use vstd::string::StringExecFns;

verus! {

broadcast use vstd::seq::group_seq_axioms, vstd::std_specs::vec::group_vec_axioms;

/// One outstanding request: its id and the guid of the object it was sent
/// on.
pub struct Waiter {
    pub id: u32,
    pub guid: String,
}

/// The id allocator and waiter table of one connection.
pub struct RpcEngine {
    pub next_id: u32,
    pub waiters: Vec<Waiter>,
    pub issued: Ghost<Seq<u32>>,
}

/// Some waiter in the table carries this id.
pub open spec fn has_waiter(ws: Seq<Waiter>, id: u32) -> bool {
    exists|k: int| 0 <= k < ws.len() && ws[k].id == id
}

/// The guid stands somewhere in the list.
pub open spec fn guid_listed(gs: Seq<String>, g: Seq<char>) -> bool {
    exists|i: int| 0 <= i < gs.len() && gs[i]@ == g
}

/// Engine bookkeeping: the k-th id ever issued is k + 1, so ids are the
/// positive integers in order; waiter ids never repeat and are all issued.
pub open spec fn engine_wf(e: RpcEngine) -> bool {
    &&& e.next_id >= 1
    &&& e.issued@.len() == e.next_id - 1
    &&& (forall|k: int| 0 <= k < e.issued@.len() ==> e.issued@[k] == k + 1)
    &&& (forall|k: int| 0 <= k < e.waiters@.len() ==> 1 <= (#[trigger] e.waiters@[k]).id
        < e.next_id)
    &&& (forall|k1: int, k2: int|
        0 <= k1 < k2 < e.waiters@.len() ==> e.waiters@[k1].id != e.waiters@[k2].id)
}

/// Ids are issued in strictly increasing order: of two issued ids, the
/// smaller one was allocated first.
pub proof fn lemma_id_monotonic(e: RpcEngine)
    requires
        engine_wf(e),
    ensures
        forall|i: int, j: int|
            0 <= i < e.issued@.len() && 0 <= j < e.issued@.len() ==> ((e.issued@[i] < e.issued@[j])
                <==> i < j),
{
}

/// Taking the one waiter with this id leaves no waiter with it: a waiter is
/// resumed at most once.
pub proof fn lemma_at_most_one_response(ws: Seq<Waiter>, id: u32, k: int)
    requires
        forall|k1: int, k2: int| 0 <= k1 < k2 < ws.len() ==> ws[k1].id != ws[k2].id,
        0 <= k < ws.len(),
        ws[k].id == id,
    ensures
        !has_waiter(ws.remove(k), id),
{
    let rest = ws.remove(k);
    if has_waiter(rest, id) {
        let t = choose|t: int| 0 <= t < rest.len() && rest[t].id == id;
        if t < k {
            assert(ws[t].id == id);
        } else {
            assert(ws[t + 1].id == id);
        }
    }
}

impl RpcEngine {
    /// A fresh engine: no waiter outstanding, the first request will get
    /// id 1.
    pub fn new() -> (r: RpcEngine)
        ensures
            engine_wf(r),
            r.waiters@.len() == 0,
            r.issued@.len() == 0,
    {
        RpcEngine { next_id: 1, waiters: Vec::new(), issued: Ghost(Seq::empty()) }
    }

    /// Allocates the next request id and parks a waiter for it, keyed to the
    /// object the request is sent on. `None` only when the id space is
    /// exhausted.
    pub fn register(&mut self, guid: &str) -> (r: Option<u32>)
        requires
            engine_wf(*old(self)),
        ensures
            engine_wf(*final(self)),
            match r {
                Some(id) => {
                    &&& id == old(self).next_id
                    &&& final(self).next_id == old(self).next_id + 1
                    &&& final(self).issued@ == old(self).issued@.push(id)
                    &&& final(self).waiters@.len() == old(self).waiters@.len() + 1
                    &&& final(self).waiters@.drop_last() == old(self).waiters@
                    &&& final(self).waiters@.last().id == id
                    &&& final(self).waiters@.last().guid@ == guid@
                    &&& !has_waiter(old(self).waiters@, id)
                },
                None => old(self).next_id == u32::MAX && *final(self) == *old(self),
            },
    {
        if self.next_id == u32::MAX {
            return None;
        }
        let id = self.next_id;
        self.next_id = id + 1;
        self.waiters.push(Waiter { id, guid: guid.to_owned() });
        proof {
            self.issued = Ghost(self.issued@.push(id));
            assert(self.waiters@.drop_last() =~= old(self).waiters@);
            assert(!has_waiter(old(self).waiters@, id));
        }
        Some(id)
    }

    /// Removes and returns the waiter for `id`, if it is still outstanding.
    /// Afterwards no waiter carries that id, so a late or duplicate response
    /// is dropped.
    pub fn take_waiter(&mut self, id: u32) -> (r: Option<String>)
        requires
            engine_wf(*old(self)),
        ensures
            engine_wf(*final(self)),
            final(self).next_id == old(self).next_id,
            final(self).issued@ == old(self).issued@,
            match r {
                Some(g) => {
                    &&& has_waiter(old(self).waiters@, id)
                    &&& !has_waiter(final(self).waiters@, id)
                    &&& (exists|k: int|
                        {
                            &&& 0 <= k < old(self).waiters@.len()
                            &&& (#[trigger] old(self).waiters@[k]).id == id
                            &&& g@ == old(self).waiters@[k].guid@
                            &&& final(self).waiters@ == old(self).waiters@.remove(k)
                        })
                },
                None => !has_waiter(old(self).waiters@, id) && *final(self) == *old(self),
            },
    {
        let mut k: usize = 0;
        while k < self.waiters.len()
            invariant
                k <= self.waiters@.len(),
                *self == *old(self),
                engine_wf(*old(self)),
                forall|t: int| 0 <= t < k ==> (#[trigger] self.waiters@[t]).id != id,
            decreases self.waiters@.len() - k,
        {
            if self.waiters[k].id == id {
                let w = self.waiters.remove(k);
                proof {
                    lemma_at_most_one_response(old(self).waiters@, id, k as int);
                    assert forall|k1: int, k2: int|
                        0 <= k1 < k2 < self.waiters@.len() implies self.waiters@[k1].id
                        != self.waiters@[k2].id by {
                        let j1 = if k1 < k {
                            k1
                        } else {
                            k1 + 1
                        };
                        let j2 = if k2 < k {
                            k2
                        } else {
                            k2 + 1
                        };
                        assert(self.waiters@[k1] == old(self).waiters@[j1]);
                        assert(self.waiters@[k2] == old(self).waiters@[j2]);
                    }
                    assert forall|t: int|
                        0 <= t < self.waiters@.len() implies 1 <= (#[trigger] self.waiters@[t]).id
                        < self.next_id by {
                        let j = if t < k {
                            t
                        } else {
                            t + 1
                        };
                        assert(self.waiters@[t] == old(self).waiters@[j]);
                    }
                }
                return Some(w.guid);
            }
            k += 1;
        }
        None
    }

    /// Removes and returns every outstanding waiter, for failing them all
    /// when the connection closes.
    pub fn take_all(&mut self) -> (r: Vec<Waiter>)
        requires
            engine_wf(*old(self)),
        ensures
            engine_wf(*final(self)),
            final(self).next_id == old(self).next_id,
            final(self).issued@ == old(self).issued@,
            final(self).waiters@.len() == 0,
            r@ == old(self).waiters@,
    {
        let mut out: Vec<Waiter> = Vec::new();
        proof {
            assert(old(self).waiters@.skip(0) =~= old(self).waiters@);
            assert(old(self).waiters@.take(0) =~= Seq::<Waiter>::empty());
        }
        while self.waiters.len() > 0
            invariant
                self.next_id == old(self).next_id,
                self.issued@ == old(self).issued@,
                out@.len() <= old(self).waiters@.len(),
                out@ == old(self).waiters@.take(out@.len() as int),
                self.waiters@ == old(self).waiters@.skip(out@.len() as int),
            decreases self.waiters@.len(),
        {
            let ghost done = out@.len() as int;
            let w = self.waiters.remove(0);
            proof {
                assert(old(self).waiters@.skip(done)[0] == old(self).waiters@[done]);
                assert(old(self).waiters@.skip(done).remove(0) =~= old(self).waiters@.skip(
                    done + 1,
                ));
            }
            out.push(w);
            proof {
                assert(out@ =~= old(self).waiters@.take(done + 1));
            }
        }
        proof {
            assert(out@ =~= old(self).waiters@);
        }
        out
    }

    /// Removes and returns the waiters parked on any of the given guids, for
    /// failing them when their objects are disposed. The survivors keep
    /// their order.
    pub fn take_by_guids(&mut self, guids: &Vec<String>) -> (r: Vec<Waiter>)
        requires
            engine_wf(*old(self)),
        ensures
            engine_wf(*final(self)),
            final(self).next_id == old(self).next_id,
            final(self).issued@ == old(self).issued@,
            forall|t: int| 0 <= t < r@.len() ==> guid_listed(guids@, (#[trigger] r@[t]).guid@),
            forall|t: int|
                0 <= t < old(self).waiters@.len() && guid_listed(
                    guids@,
                    (#[trigger] old(self).waiters@[t]).guid@,
                ) ==> exists|z: int| 0 <= z < r@.len() && r@[z] == old(self).waiters@[t],
            forall|t: int|
                0 <= t < final(self).waiters@.len() ==> !guid_listed(
                    guids@,
                    (#[trigger] final(self).waiters@[t]).guid@,
                ),
            forall|id: u32|
                has_waiter(old(self).waiters@, id) ==> has_waiter(final(self).waiters@, id)
                    || has_waiter(r@, id),
    {
        let n = self.waiters.len();
        let ghost old_ws = self.waiters@;
        let mut kept: Vec<Waiter> = Vec::new();
        let mut taken: Vec<Waiter> = Vec::new();
        let mut t: usize = 0;
        proof {
            assert(old_ws.skip(0) =~= old_ws);
        }
        while t < n
            invariant
                t <= n,
                n == old_ws.len(),
                self.next_id == old(self).next_id,
                self.issued@ == old(self).issued@,
                self.waiters@ == old_ws.skip(t as int),
                old_ws == old(self).waiters@,
                engine_wf(*old(self)),
                forall|z: int|
                    0 <= z < kept@.len() ==> exists|j: int|
                        0 <= j < t && old_ws[j] == #[trigger] kept@[z],
                forall|z: int|
                    0 <= z < taken@.len() ==> exists|j: int|
                        0 <= j < t && old_ws[j] == #[trigger] taken@[z],
                forall|z: int| 0 <= z < kept@.len() ==> !guid_listed(
                    guids@,
                    (#[trigger] kept@[z]).guid@,
                ),
                forall|z: int| 0 <= z < taken@.len() ==> guid_listed(
                    guids@,
                    (#[trigger] taken@[z]).guid@,
                ),
                forall|j: int|
                    0 <= j < t ==> has_waiter(kept@, (#[trigger] old_ws[j]).id) || has_waiter(
                        taken@,
                        old_ws[j].id,
                    ),
                forall|j: int|
                    0 <= j < t && guid_listed(guids@, (#[trigger] old_ws[j]).guid@) ==> exists|
                        z: int,
                    | 0 <= z < taken@.len() && taken@[z] == old_ws[j],
                forall|z1: int, z2: int|
                    0 <= z1 < z2 < kept@.len() ==> kept@[z1].id != kept@[z2].id,
                forall|z: int|
                    0 <= z < kept@.len() ==> 1 <= (#[trigger] kept@[z]).id < self.next_id,
            decreases n - t,
        {
            proof {
                assert(old_ws.skip(t as int)[0] == old_ws[t as int]);
                assert(old_ws.skip(t as int).remove(0) =~= old_ws.skip(t + 1));
            }
            let w = self.waiters.remove(0);
            let ghost w_snap = w;
            let mut is_taken = false;
            let mut i: usize = 0;
            while i < guids.len()
                invariant
                    i <= guids@.len(),
                    w == w_snap,
                    !is_taken ==> forall|z: int| 0 <= z < i ==> guids@[z]@ != w.guid@,
                    is_taken ==> guid_listed(guids@, w.guid@),
                decreases guids@.len() - i,
            {
                if crate::codec::str_eq(guids[i].as_str(), w.guid.as_str()) {
                    is_taken = true;
                }
                i += 1;
            }
            let ghost kept_before = kept@;
            let ghost taken_before = taken@;
            if is_taken {
                taken.push(w);
            } else {
                kept.push(w);
            }
            t += 1;
            proof {
                assert forall|z: int|
                    0 <= z < taken@.len() implies guid_listed(
                    guids@,
                    (#[trigger] taken@[z]).guid@,
                ) by {
                    if z < taken_before.len() {
                        assert(taken@[z] == taken_before[z]);
                        assert(guid_listed(guids@, taken_before[z].guid@));
                    } else {
                        assert(taken@[z] == w_snap);
                        assert(guid_listed(guids@, w_snap.guid@));
                    }
                }
                assert forall|z: int|
                    0 <= z < kept@.len() implies !guid_listed(
                    guids@,
                    (#[trigger] kept@[z]).guid@,
                ) by {
                    if z < kept_before.len() {
                        assert(kept@[z] == kept_before[z]);
                    } else {
                        assert(kept@[z] == w_snap);
                        assert(!is_taken);
                        if guid_listed(guids@, w_snap.guid@) {
                            let zz = choose|zz: int|
                                0 <= zz < guids@.len() && guids@[zz]@ == w_snap.guid@;
                        }
                    }
                }
                assert forall|z: int|
                    0 <= z < kept@.len() implies exists|j: int|
                        0 <= j < t && old_ws[j] == #[trigger] kept@[z] by {
                    if z < kept_before.len() {
                        let j = choose|j: int| 0 <= j < t - 1 && old_ws[j] == kept_before[z];
                        assert(old_ws[j] == kept@[z]);
                    } else {
                        assert(old_ws[t - 1] == kept@[z]);
                    }
                }
                assert forall|z: int|
                    0 <= z < taken@.len() implies exists|j: int|
                        0 <= j < t && old_ws[j] == #[trigger] taken@[z] by {
                    if z < taken_before.len() {
                        let j = choose|j: int| 0 <= j < t - 1 && old_ws[j] == taken_before[z];
                        assert(old_ws[j] == taken@[z]);
                    } else {
                        assert(old_ws[t - 1] == taken@[z]);
                    }
                }
                assert forall|j: int|
                    0 <= j < t && guid_listed(guids@, (#[trigger] old_ws[j]).guid@) implies exists|
                        z: int,
                    | 0 <= z < taken@.len() && taken@[z] == old_ws[j] by {
                    if j < t - 1 {
                        let z = choose|z: int|
                            0 <= z < taken_before.len() && taken_before[z] == old_ws[j];
                        assert(taken@[z] == old_ws[j]);
                    } else {
                        assert(old_ws[j] == w_snap);
                        assert(is_taken) by {
                            if !is_taken {
                                let i = choose|i: int|
                                    0 <= i < guids@.len() && guids@[i]@ == w_snap.guid@;
                            }
                        }
                        assert(taken@.last() == w_snap);
                    }
                }
                assert forall|j: int|
                    0 <= j < t implies has_waiter(kept@, (#[trigger] old_ws[j]).id) || has_waiter(
                    taken@,
                    old_ws[j].id,
                ) by {
                    if j < t - 1 {
                        if has_waiter(kept_before, old_ws[j].id) {
                            let z = choose|z: int|
                                0 <= z < kept_before.len() && kept_before[z].id == old_ws[j].id;
                            assert(kept@[z].id == old_ws[j].id);
                        } else {
                            let z = choose|z: int|
                                0 <= z < taken_before.len() && taken_before[z].id == old_ws[j].id;
                            assert(taken@[z].id == old_ws[j].id);
                        }
                    } else {
                        if is_taken {
                            assert(taken@.last().id == old_ws[j].id);
                        } else {
                            assert(kept@.last().id == old_ws[j].id);
                        }
                    }
                }
                assert forall|z1: int, z2: int|
                    0 <= z1 < z2 < kept@.len() implies kept@[z1].id != kept@[z2].id by {
                    if z2 == kept@.len() - 1 && !is_taken {
                        let j1 = choose|j: int| 0 <= j < t - 1 && old_ws[j] == kept@[z1];
                        assert(kept@[z2] == old_ws[t - 1]);
                        assert(old_ws[j1].id != old_ws[t - 1].id);
                    }
                }
            }
        }
        self.waiters = kept;
        taken
    }
}

} // verus!
