//! The connection-wide shutdown latch.
//!
//! A `Closer` is the single cancellation signal of one connection: it
//! starts open, moves to closed at most once, and never reopens. Every
//! task of the connection observes the same latch; any of them may
//! request shutdown. This module verifies the latch state machine; the
//! cross-task sharing (reference counting and wakeups) wraps it outside
//! the verified core.

use vstd::prelude::*;

verus! {

/// What one `close` request leaves of a latch state: closed, whatever
/// the state was before.
pub open spec fn spec_close(closed: bool) -> bool {
    true
}

/// The latch state after `n` further `close` requests on a latch whose
/// state is `closed`.
pub open spec fn spec_close_n(closed: bool, n: nat) -> bool
    decreases n,
{
    if n == 0 {
        closed
    } else {
        spec_close(spec_close_n(closed, (n - 1) as nat))
    }
}

/// Closing is idempotent: one `close` and any positive number of
/// `close` requests leave a latch in the same state, whatever state and
/// however many requesters. There is exactly one observable transition,
/// from open to closed.
pub proof fn lemma_close_idempotent(closed: bool, n: nat)
    requires
        n >= 1,
    ensures
        spec_close_n(closed, n) == spec_close(closed),
    decreases n,
{
    if n > 1 {
        lemma_close_idempotent(closed, (n - 1) as nat);
    }
}

/// A broadcastable boolean latch: open until the first `close`, closed
/// forever after.
pub struct Closer {
    /// Whether shutdown has been requested.
    pub closed: bool,
}

impl Closer {
    /// A fresh latch is open.
    pub fn new() -> (c: Closer)
        ensures
            !c.closed,
    {
        Closer { closed: false }
    }

    /// Request shutdown. Idempotent: the latch is closed afterwards,
    /// and a latch already closed is left exactly as it was.
    pub fn close(&mut self)
        ensures
            final(self).closed == spec_close(old(self).closed),
            old(self).closed ==> *final(self) == *old(self),
    {
        self.closed = true;
    }

    /// Whether shutdown has been requested.
    pub fn is_closed(&self) -> (b: bool)
        ensures
            b == self.closed,
    {
        self.closed
    }
}

} // verus!
