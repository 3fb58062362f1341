//! The connection-pool gate: a bounded resource manager standing
//! before every privileged store access. It counts handles out
//! against a capacity fixed at start; a handle is returned on every
//! exit path. The store itself is an outside collaborator, so what is
//! governed here is the accounting every acquisition and return must
//! obey; the serving layer holds the real connections.

use vstd::prelude::*;

verus! {

/// Why no handle was produced: no pool is registered for the process
/// (a deployment bug, a server-error class), or no idle connection
/// came free within the wait policy (a service-unavailable class,
/// retryable by the caller).
#[derive(Clone, Copy, PartialEq, Eq, Structural, Debug)]
pub enum PoolError {
    Unconfigured,
    Exhausted,
}

/// A borrowed store connection, exclusively owned by one unit of work
/// for one request's duration; giving it back is handing it to the
/// gate's release.
#[derive(Debug)]
pub struct ConnectionHandle {
}

/// The store collaborator could not run a query at all: a driver or
/// transport fault, as opposed to a query that ran and found nothing.
/// The two must never be conflated.
#[derive(Clone, Copy, PartialEq, Eq, Structural, Debug)]
pub struct StoreFailure;

/// A gate's accounting: how many handles may be out at once, and how
/// many are.
#[derive(Debug)]
pub struct PoolGate {
    pub capacity: usize,
    pub outstanding: usize,
}

impl PoolGate {
    /// A gate's invariant: outstanding handles never exceed capacity.
    /// Every operation preserves it.
    pub open spec fn wf(self) -> bool {
        self.outstanding <= self.capacity
    }

    /// Whether an acquisition would succeed at once.
    pub open spec fn can_acquire(self) -> bool {
        self.outstanding < self.capacity
    }

    /// A fresh gate with its capacity fixed and nothing out.
    pub fn new(capacity: usize) -> (g: PoolGate)
        ensures
            g.wf(),
            g.capacity == capacity,
            g.outstanding == 0,
    {
        PoolGate { capacity, outstanding: 0 }
    }

    /// Acquire a handle: one more is out when one was free, and an
    /// exhausted gate refuses without changing anything.
    pub fn acquire(&mut self) -> (r: Result<ConnectionHandle, PoolError>)
        requires
            old(self).wf(),
        ensures
            final(self).wf(),
            final(self).capacity == old(self).capacity,
            old(self).can_acquire() ==> r is Ok
                && final(self).outstanding == old(self).outstanding + 1,
            !old(self).can_acquire() ==> (r matches Err(e) && e == PoolError::Exhausted
                && final(self).outstanding == old(self).outstanding),
    {
        if self.outstanding < self.capacity {
            self.outstanding = self.outstanding + 1;
            Ok(ConnectionHandle {  })
        } else {
            Err(PoolError::Exhausted)
        }
    }

    /// Give a handle back; it is consumed, as a scope end consumes
    /// the borrowed connection.
    pub fn release(&mut self, handle: ConnectionHandle)
        requires
            old(self).wf(),
            old(self).outstanding > 0,
        ensures
            final(self).wf(),
            final(self).capacity == old(self).capacity,
            final(self).outstanding == old(self).outstanding - 1,
    {
        let ConnectionHandle {  } = handle;
        self.outstanding = self.outstanding - 1;
    }
}

/// The request-scoped acquisition: no registered gate is a
/// configuration fault, a registered one answers as its accounting
/// says.
pub fn acquire_handle(registry: &mut Option<PoolGate>) -> (r: Result<ConnectionHandle, PoolError>)
    requires
        (*old(registry)) matches Some(g) ==> g.wf(),
    ensures
        (*old(registry)) is None ==> (r matches Err(e) && e == PoolError::Unconfigured
            && (*final(registry)) is None),
        (*old(registry)) matches Some(g) ==> ((*final(registry)) matches Some(g2) && g2.wf()
            && g2.capacity == g.capacity && (g.can_acquire() ==> r is Ok && g2.outstanding
            == g.outstanding + 1) && (!g.can_acquire() ==> (r matches Err(e) && e
            == PoolError::Exhausted && g2.outstanding == g.outstanding))),
{
    match registry {
        None => Err(PoolError::Unconfigured),
        Some(gate) => gate.acquire(),
    }
}

/// The status class each gate failure maps to: a missing pool is a
/// server error, exhaustion is service-unavailable.
pub fn pool_error_status(e: &PoolError) -> (r: u16)
    ensures
        *e == PoolError::Unconfigured ==> r == 500,
        *e == PoolError::Exhausted ==> r == 503,
{
    match e {
        PoolError::Unconfigured => 500,
        PoolError::Exhausted => 503,
    }
}

/// Pool bound: a well-formed gate never has more handles out than its
/// capacity; with every handle out the next acquisition is refused;
/// and once one handle comes back, the next acquisition succeeds
/// again.
pub proof fn lemma_pool_bound(g: PoolGate)
    requires
        g.wf(),
    ensures
        g.outstanding <= g.capacity,
        g.outstanding == g.capacity ==> !g.can_acquire(),
        g.outstanding == g.capacity && g.capacity > 0 ==> (PoolGate {
            outstanding: (g.outstanding - 1) as usize,
            ..g
        }).can_acquire(),
{
}

} // verus!
