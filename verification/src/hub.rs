//! The Broadcast Hub's client registry: the ordered set of connected
//! notification clients, and the pruning rule applied after a broadcast.
//!
//! The host owns the actual connections and performs the sends; the registry
//! tracks one handle per client, in registration order.  A broadcast is a
//! pass over a snapshot of the registry, and every client whose send failed
//! is removed in the same pass — a severed client survives at most one
//! broadcast that targets it.

use vstd::prelude::*;

verus! {

/// The Client Registry: one handle per connected client, in registration
/// order.  Handles are issued in strictly increasing order and never reused,
/// so every registered client is distinct.
pub struct ClientRegistry {
    clients: Vec<u64>,
    next_id: u64,
}

impl View for ClientRegistry {
    type V = Seq<u64>;

    closed spec fn view(&self) -> Seq<u64> {
        self.clients@
    }
}

/// The registry entries that survive a broadcast pass: the clients whose
/// send did not fail, kept in their registration order.
pub open spec fn keep_ok(ids: Seq<u64>, failed: Seq<bool>) -> Seq<u64>
    decreases ids.len(),
{
    if ids.len() == 0 {
        Seq::empty()
    } else {
        let rest = keep_ok(ids.drop_last(), failed.drop_last());
        if failed[ids.len() - 1] {
            rest
        } else {
            rest.push(ids.last())
        }
    }
}

impl ClientRegistry {
    /// Registry well-formedness: handles strictly increase with
    /// registration order and stay below the next handle to be issued.
    pub closed spec fn wf(&self) -> bool {
        &&& forall|i: int, j: int|
            0 <= i < j < self.clients@.len() ==> self.clients@[i] < self.clients@[j]
        &&& forall|i: int| 0 <= i < self.clients@.len() ==> self.clients@[i] < self.next_id
    }

    /// Can another client still be issued a fresh handle?  Only a machine
    /// limit: the handle counter must not exhaust `u64`.
    pub closed spec fn can_register(&self) -> bool {
        self.next_id < u64::MAX
    }

    /// An empty registry.
    pub fn new() -> (r: ClientRegistry)
        ensures
            r@ == Seq::<u64>::empty(),
            r.wf(),
    {
        ClientRegistry { clients: Vec::new(), next_id: 0 }
    }

    /// Can a further client be registered?  Lets the host test
    /// `can_register` before calling `register`.
    pub fn has_capacity(&self) -> (r: bool)
        ensures
            r == self.can_register(),
    {
        self.next_id < u64::MAX
    }

    /// A client finished its handshake: append it, in order, under a fresh
    /// handle that no current entry carries.
    pub fn register(&mut self) -> (id: u64)
        requires
            old(self).wf(),
            old(self).can_register(),
        ensures
            final(self).wf(),
            final(self)@ == old(self)@.push(id),
            !old(self)@.contains(id),
    {
        let id = self.next_id;
        self.next_id = self.next_id + 1;
        self.clients.push(id);
        id
    }

    /// How many clients are registered.
    pub fn len(&self) -> (r: usize)
        ensures
            r == self@.len(),
    {
        self.clients.len()
    }

    /// A snapshot of the registered handles, in registration order: the
    /// targets of one broadcast pass.
    pub fn client_ids(&self) -> (r: Vec<u64>)
        ensures
            r@ == self@,
    {
        self.clients.clone()
    }

    /// End of a broadcast pass: `failed[i]` says whether the send to the
    /// `i`-th snapshot entry failed.  Exactly the failed entries leave the
    /// registry; the rest keep their order.
    pub fn prune(&mut self, failed: &Vec<bool>)
        requires
            old(self).wf(),
            failed@.len() == old(self)@.len(),
        ensures
            final(self).wf(),
            final(self)@ == keep_ok(old(self)@, failed@),
    {
        let ghost old_ids = self.clients@;
        let ghost old_next = self.next_id;
        let n = self.clients.len();
        let mut out: Vec<u64> = Vec::new();
        let mut i: usize = 0;
        while i < n
            invariant
                n == old_ids.len(),
                failed@.len() == old_ids.len(),
                self.clients@ == old_ids,
                self.next_id == old_next,
                0 <= i <= n,
                out@ == keep_ok(old_ids.take(i as int), failed@.take(i as int)),
            decreases n - i,
        {
            proof {
                assert(old_ids.take(i + 1).drop_last() =~= old_ids.take(i as int));
                assert(failed@.take(i + 1).drop_last() =~= failed@.take(i as int));
                assert(old_ids.take(i + 1).last() == old_ids[i as int]);
            }
            if !failed[i] {
                out.push(self.clients[i]);
            }
            i = i + 1;
        }
        self.clients = out;
        proof {
            assert(old_ids.take(n as int) =~= old_ids);
            assert(failed@.take(n as int) =~= failed@);
            lemma_keep_ok_order(old_ids, failed@);
            assert forall|k: int|
                0 <= k < self.clients@.len() implies self.clients@[k] < self.next_id by {
                assert(self.clients@.contains(self.clients@[k]));
                assert(old_ids.contains(self.clients@[k]));
                let j = choose|j: int| 0 <= j < old_ids.len() && old_ids[j] == self.clients@[k];
                assert(old_ids[j] < old_next);
            }
        }
    }
}

/// Surviving a broadcast pass keeps the registry's order and introduces no
/// entry that was not already registered.
proof fn lemma_keep_ok_order(ids: Seq<u64>, failed: Seq<bool>)
    requires
        failed.len() == ids.len(),
        forall|i: int, j: int| 0 <= i < j < ids.len() ==> ids[i] < ids[j],
    ensures
        forall|i: int, j: int|
            0 <= i < j < keep_ok(ids, failed).len()
                ==> keep_ok(ids, failed)[i] < keep_ok(ids, failed)[j],
        forall|x: u64| keep_ok(ids, failed).contains(x) ==> ids.contains(x),
    decreases ids.len(),
{
    if ids.len() > 0 {
        let front = ids.drop_last();
        lemma_keep_ok_order(front, failed.drop_last());
        let rest = keep_ok(front, failed.drop_last());
        assert forall|x: u64| rest.contains(x) implies ids.contains(x) by {
            assert(front.contains(x));
            let m = choose|m: int| 0 <= m < front.len() && front[m] == x;
            assert(ids[m] == x);
        }
        if !failed[ids.len() - 1] {
            let kept = rest.push(ids.last());
            assert forall|x: u64| rest.contains(x) implies x < ids.last() by {
                assert(front.contains(x));
                let m = choose|m: int| 0 <= m < front.len() && front[m] == x;
                assert(ids[m] < ids[ids.len() - 1]);
            }
            assert forall|i: int, j: int|
                0 <= i < j < kept.len() implies kept[i] < kept[j] by {
                if j < kept.len() - 1 {
                    assert(rest[i] < rest[j]);
                } else {
                    assert(rest.contains(rest[i]));
                }
            }
            assert forall|x: u64| kept.contains(x) implies ids.contains(x) by {
                let k = choose|k: int| 0 <= k < kept.len() && kept[k] == x;
                if k < kept.len() - 1 {
                    assert(rest.contains(x));
                } else {
                    assert(ids.contains(ids[ids.len() - 1]));
                }
            }
        }
    }
}

/// Which registered clients a pruning pass keeps: exactly those whose send
/// did not fail.
pub proof fn lemma_keep_ok_membership(ids: Seq<u64>, failed: Seq<bool>, x: u64)
    requires
        failed.len() == ids.len(),
    ensures
        keep_ok(ids, failed).contains(x) <==> exists|i: int|
            0 <= i < ids.len() && ids[i] == x && !failed[i],
    decreases ids.len(),
{
    if ids.len() == 0 {
        assert(!keep_ok(ids, failed).contains(x));
    } else {
        let front = ids.drop_last();
        let ffront = failed.drop_last();
        lemma_keep_ok_membership(front, ffront, x);
        let rest = keep_ok(front, ffront);
        if keep_ok(ids, failed).contains(x) {
            let k = choose|k: int|
                0 <= k < keep_ok(ids, failed).len() && keep_ok(ids, failed)[k] == x;
            if failed[ids.len() - 1] {
                assert(rest.contains(x));
                let i = choose|i: int| 0 <= i < front.len() && front[i] == x && !ffront[i];
                assert(ids[i] == x && !failed[i]);
            } else {
                if k < rest.len() {
                    assert(rest.contains(x));
                    let i = choose|i: int| 0 <= i < front.len() && front[i] == x && !ffront[i];
                    assert(ids[i] == x && !failed[i]);
                } else {
                    assert(ids[ids.len() - 1] == x && !failed[ids.len() - 1]);
                }
            }
        }
        if exists|i: int| 0 <= i < ids.len() && ids[i] == x && !failed[i] {
            let i = choose|i: int| 0 <= i < ids.len() && ids[i] == x && !failed[i];
            if i < ids.len() - 1 {
                assert(front[i] == x && !ffront[i]);
                assert(rest.contains(x));
                let k = choose|k: int| 0 <= k < rest.len() && rest[k] == x;
                if failed[ids.len() - 1] {
                    assert(keep_ok(ids, failed)[k] == x);
                } else {
                    assert(keep_ok(ids, failed)[k] == x);
                }
            } else {
                assert(!failed[ids.len() - 1]);
                assert(keep_ok(ids, failed).last() == x);
                assert(keep_ok(ids, failed).contains(x));
            }
        }
    }
}

/// Law (idempotence of notification): a broadcast in which no send fails
/// hands the registry back unchanged — no entry is dropped and none is
/// duplicated — so two broadcasts in a row to the same live clients leave
/// the registry exactly as it started, twice over.
pub proof fn lemma_broadcast_all_live_keeps_registry(ids: Seq<u64>, failed: Seq<bool>)
    requires
        failed.len() == ids.len(),
        forall|i: int| 0 <= i < failed.len() ==> !failed[i],
    ensures
        keep_ok(ids, failed) == ids,
    decreases ids.len(),
{
    if ids.len() > 0 {
        lemma_broadcast_all_live_keeps_registry(ids.drop_last(), failed.drop_last());
        assert(keep_ok(ids, failed) =~= ids);
    }
}

/// Law (dead-client pruning): a client whose send failed is gone after the
/// one broadcast pass that targeted it, and every client whose send
/// succeeded is still registered — one dead client never costs a live one
/// its registration.
pub proof fn lemma_dead_client_pruned(ids: Seq<u64>, failed: Seq<bool>, k: int)
    requires
        failed.len() == ids.len(),
        forall|i: int, j: int| 0 <= i < j < ids.len() ==> ids[i] != ids[j],
        0 <= k < ids.len(),
    ensures
        failed[k] ==> !keep_ok(ids, failed).contains(ids[k]),
        !failed[k] ==> keep_ok(ids, failed).contains(ids[k]),
{
    lemma_keep_ok_membership(ids, failed, ids[k]);
    if failed[k] {
        if exists|i: int| 0 <= i < ids.len() && ids[i] == ids[k] && !failed[i] {
            let i = choose|i: int| 0 <= i < ids.len() && ids[i] == ids[k] && !failed[i];
            if i < k {
                assert(ids[i] != ids[k]);
            } else {
                assert(ids[k] != ids[i]);
            }
        }
    }
}

/// The fixed payload a broadcast pushes to every client.
pub open spec fn reload_payload() -> Seq<char> {
    "{\"action\":\"RELOAD\"}"@
}

/// Begin a broadcast: the clients to send to, in registration order, and
/// the payload each receives.  With no registered clients the target list
/// is empty and the broadcast is a no-op, not an error.
pub fn broadcast_reload(reg: &ClientRegistry) -> (r: (Vec<u64>, String))
    ensures
        r.0@ == reg@,
        r.1@ == reload_payload(),
{
    (reg.client_ids(), "{\"action\":\"RELOAD\"}".to_owned())
}

} // verus!
