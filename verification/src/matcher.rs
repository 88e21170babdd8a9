//! The outbound RPC matcher.
//!
//! A mapping from a locally generated request identifier to the
//! pending response slot that the caller is waiting on, together with
//! the entry's creation time. An entry leaves the matcher exactly
//! once: when its response arrives, or when a periodic sweep finds it
//! older than the configured timeout and hands it back to be failed.
//! The sweep's cadence and the slot signalling live outside the
//! verified core; this module decides which entries stay and which go.

use vstd::prelude::*;

verus! {

/// One pending RPC: who is waiting, since when, under which
/// identifier.
pub struct RpcEntry<T> {
    /// The caller-assigned request identifier, unique among pending
    /// entries.
    pub request_id: u32,
    /// When the entry was registered, in microseconds.
    pub created_micros: u64,
    /// The response delivery slot the caller waits on.
    pub slot: T,
}

/// Whether some pending entry carries this identifier.
pub open spec fn contains_id<T>(entries: Seq<RpcEntry<T>>, request_id: u32) -> bool {
    exists|i: int| 0 <= i < entries.len() && entries[i].request_id == request_id
}

/// Whether an entry is older than the timeout at time `now_micros`.
pub open spec fn spec_expired<T>(e: RpcEntry<T>, now_micros: u64, timeout_micros: u64) -> bool {
    e.created_micros + timeout_micros <= now_micros
}

/// The pending outbound RPCs of one connection.
pub struct OutboundRpcMatcher<T> {
    /// The pending entries, identifiers pairwise distinct.
    pub entries: Vec<RpcEntry<T>>,
}

impl<T> OutboundRpcMatcher<T> {
    /// Identifiers are pairwise distinct among pending entries.
    pub open spec fn wf(self) -> bool {
        forall|i: int, j: int|
            0 <= i < j < self.entries@.len() ==> self.entries@[i].request_id
                != self.entries@[j].request_id
    }

    /// An empty matcher: no RPC pending.
    pub fn new() -> (m: OutboundRpcMatcher<T>)
        ensures
            m.wf(),
            m.entries@.len() == 0,
    {
        OutboundRpcMatcher { entries: Vec::new() }
    }

    /// Whether this identifier is pending.
    pub fn contains(&self, request_id: u32) -> (b: bool)
        ensures
            b == contains_id(self.entries@, request_id),
    {
        let n = self.entries.len();
        let mut i: usize = 0;
        while i < n
            invariant
                i <= n,
                n == self.entries@.len(),
                forall|j: int| 0 <= j < i ==> self.entries@[j].request_id != request_id,
            decreases n - i,
        {
            if self.entries[i].request_id == request_id {
                return true;
            }
            i = i + 1;
        }
        false
    }

    /// Register a pending RPC. The identifier must be new among the
    /// pending entries; a duplicate registers nothing and says so.
    pub fn insert(&mut self, request_id: u32, created_micros: u64, slot: T) -> (ok: bool)
        requires
            old(self).wf(),
        ensures
            final(self).wf(),
            ok == !contains_id(old(self).entries@, request_id),
            ok ==> final(self).entries@ == old(self).entries@.push(
                RpcEntry { request_id, created_micros, slot },
            ),
            !ok ==> final(self).entries@ == old(self).entries@,
    {
        if self.contains(request_id) {
            false
        } else {
            self.entries.push(RpcEntry { request_id, created_micros, slot });
            true
        }
    }

    /// Take and remove the entry with this identifier, if pending:
    /// used exactly once per completed or dropped RPC. A miss — the
    /// entry timed out, or the response is unsolicited — changes
    /// nothing.
    pub fn remove(&mut self, request_id: u32) -> (taken: Option<RpcEntry<T>>)
        requires
            old(self).wf(),
        ensures
            final(self).wf(),
            taken is Some == contains_id(old(self).entries@, request_id),
            match taken {
                Some(e) => {
                    &&& e.request_id == request_id
                    &&& exists|i: int|
                        0 <= i < old(self).entries@.len() && old(self).entries@[i] == e
                            && final(self).entries@ == old(self).entries@.remove(i)
                },
                None => final(self).entries@ == old(self).entries@,
            },
    {
        let ghost orig = self.entries@;
        let n = self.entries.len();
        let mut i: usize = 0;
        while i < n
            invariant
                i <= n,
                n == orig.len(),
                orig == old(self).entries@,
                self.entries@ == orig,
                old(self).wf(),
                forall|j: int| 0 <= j < i ==> orig[j].request_id != request_id,
            decreases n - i,
        {
            if self.entries[i].request_id == request_id {
                let e = self.entries.remove(i);
                proof {
                    orig.remove_ensures(i as int);
                    let r = orig.remove(i as int);
                    assert(self.entries@ == r);
                    assert(contains_id(orig, request_id)) by {
                        assert(orig[i as int].request_id == request_id);
                    }
                    assert forall|a: int, b: int|
                        0 <= a < b < r.len() implies r[a].request_id != r[b].request_id by {
                        if a < i {
                            assert(r[a] == orig[a]);
                        } else {
                            assert(r[a] == orig[a + 1]);
                        }
                        if b < i {
                            assert(r[b] == orig[b]);
                        } else {
                            assert(r[b] == orig[b + 1]);
                        }
                    }
                }
                return Some(e);
            }
            i = i + 1;
        }
        None
    }

    /// One pass of the timeout sweep: every entry older than the
    /// timeout at `now_micros` leaves the matcher and comes back in
    /// the returned batch, to be failed toward its caller; every
    /// younger entry stays. Nothing else enters or leaves.
    pub fn sweep(&mut self, now_micros: u64, timeout_micros: u64) -> (timed_out: Vec<
        RpcEntry<T>,
    >)
        requires
            old(self).wf(),
        ensures
            final(self).wf(),
            final(self).entries@.len() + timed_out@.len() == old(self).entries@.len(),
            forall|i: int|
                0 <= i < old(self).entries@.len() ==> {
                    if spec_expired(#[trigger] old(self).entries@[i], now_micros, timeout_micros) {
                        timed_out@.contains(old(self).entries@[i])
                    } else {
                        final(self).entries@.contains(old(self).entries@[i])
                    }
                },
            forall|i: int|
                0 <= i < timed_out@.len() ==> spec_expired(
                    #[trigger] timed_out@[i],
                    now_micros,
                    timeout_micros,
                ) && old(self).entries@.contains(timed_out@[i]),
            forall|i: int|
                0 <= i < final(self).entries@.len() ==> !spec_expired(
                    #[trigger] final(self).entries@[i],
                    now_micros,
                    timeout_micros,
                ) && old(self).entries@.contains(final(self).entries@[i]),
    {
        let ghost orig = self.entries@;
        let mut drained: Vec<RpcEntry<T>> = Vec::new();
        core::mem::swap(&mut self.entries, &mut drained);
        let mut timed_out: Vec<RpcEntry<T>> = Vec::new();
        while drained.len() > 0
            invariant
                orig == orig.subrange(
                    0,
                    orig.len() - drained@.len(),
                ) + drained@,
                self.entries@.len() + timed_out@.len() + drained@.len() == orig.len(),
                forall|i: int|
                    0 <= i < orig.len() - drained@.len() ==> {
                        if spec_expired(#[trigger] orig[i], now_micros, timeout_micros) {
                            timed_out@.contains(orig[i])
                        } else {
                            self.entries@.contains(orig[i])
                        }
                    },
                forall|i: int|
                    0 <= i < timed_out@.len() ==> spec_expired(
                        #[trigger] timed_out@[i],
                        now_micros,
                        timeout_micros,
                    ) && orig.contains(timed_out@[i]),
                forall|i: int|
                    0 <= i < self.entries@.len() ==> !spec_expired(
                        #[trigger] self.entries@[i],
                        now_micros,
                        timeout_micros,
                    ) && orig.contains(self.entries@[i]),
                forall|i: int, j: int|
                    0 <= i < j < self.entries@.len() ==> self.entries@[i].request_id
                        != self.entries@[j].request_id,
                forall|i: int, j: int|
                    0 <= i < j < drained@.len() ==> drained@[i].request_id
                        != drained@[j].request_id,
                forall|i: int, j: int|
                    0 <= i < self.entries@.len() && 0 <= j < drained@.len() ==> self.entries@[
                        i
                    ].request_id != drained@[j].request_id,
            decreases drained@.len(),
        {
            let ghost pos = orig.len() - drained@.len();
            let ghost kept0 = self.entries@;
            let ghost out0 = timed_out@;
            let e = drained.remove(0);
            assert(e == orig[pos]);
            let expired = now_micros >= e.created_micros && now_micros - e.created_micros
                >= timeout_micros;
            if expired {
                timed_out.push(e);
            } else {
                self.entries.push(e);
            }
            proof {
                assert forall|x: RpcEntry<T>| kept0.contains(x) implies self.entries@.contains(
                    x,
                ) by {
                    let j = choose|j: int| 0 <= j < kept0.len() && kept0[j] == x;
                    assert(self.entries@[j] == x);
                }
                assert forall|x: RpcEntry<T>| out0.contains(x) implies timed_out@.contains(x) by {
                    let j = choose|j: int| 0 <= j < out0.len() && out0[j] == x;
                    assert(timed_out@[j] == x);
                }
                if expired {
                    assert(timed_out@[out0.len() as int] == e);
                    assert(timed_out@.contains(e));
                } else {
                    assert(self.entries@[kept0.len() as int] == e);
                    assert(self.entries@.contains(e));
                }
                assert(orig == orig.subrange(0, orig.len() - drained@.len()) + drained@);
            }
        }
        timed_out
    }
}

} // verus!
