//! Bounded, connection-local pool of idle request contexts. Acquiring pops an
//! idle context or constructs a fresh one; releasing resets the context and
//! keeps it only while there is room — overflow releases are dropped, never
//! queued. The pool never grows past the capacity fixed at construction, and
//! every context it stores has all fields at their defaults.

use vstd::prelude::*;

use crate::context::{ContextV, RequestContext};

verus! {

/// Recycles per-request contexts for one connection.
pub struct ContextPool {
    /// Idle contexts available for reuse, most recently released last.
    pub idle: Vec<RequestContext>,
    /// Most idle contexts the pool will hold; fixed at construction.
    pub capacity: usize,
}

impl ContextPool {
    /// Pool invariant: never above capacity, and everything stored is reset.
    pub open spec fn wf(self) -> bool {
        &&& self.idle@.len() <= self.capacity
        &&& forall|i: int|
            0 <= i < self.idle@.len() ==> (#[trigger] self.idle@[i])@ == ContextV::pristine()
    }

    /// An empty pool that will hold at most `capacity` idle contexts.
    pub fn with_capacity(capacity: usize) -> (r: ContextPool)
        ensures
            r.wf(),
            r.idle@.len() == 0,
            r.capacity == capacity,
    {
        ContextPool { idle: Vec::new(), capacity }
    }

    /// Pop an idle context if one is stored, else construct a default one.
    /// Either way the caller receives a context with every field at its
    /// default.
    pub fn acquire(&mut self) -> (ctx: RequestContext)
        requires
            old(self).wf(),
        ensures
            final(self).wf(),
            final(self).capacity == old(self).capacity,
            ctx@ == ContextV::pristine(),
            old(self).idle@.len() > 0 ==> final(self).idle@ == old(self).idle@.drop_last(),
            old(self).idle@.len() == 0 ==> final(self).idle@ == old(self).idle@,
    {
        match self.idle.pop() {
            Some(ctx) => ctx,
            None => RequestContext::new(),
        }
    }

    /// Reset the finished context and keep it iff there is room; a release
    /// into a full pool drops the context.
    pub fn release(&mut self, ctx: RequestContext)
        requires
            old(self).wf(),
        ensures
            final(self).wf(),
            final(self).capacity == old(self).capacity,
            old(self).idle@.len() < old(self).capacity ==> {
                &&& final(self).idle@.len() == old(self).idle@.len() + 1
                &&& final(self).idle@.drop_last() == old(self).idle@
            },
            old(self).idle@.len() >= old(self).capacity ==> final(self).idle@ == old(self).idle@,
    {
        let mut ctx = ctx;
        if self.idle.len() < self.capacity {
            ctx.reset();
            self.idle.push(ctx);
            proof {
                assert(self.idle@.drop_last() =~= old(self).idle@);
            }
        }
    }

    /// How many idle contexts are stored right now.
    pub fn len(&self) -> (n: usize)
        ensures
            n == self.idle@.len(),
    {
        self.idle.len()
    }
}

} // verus!
