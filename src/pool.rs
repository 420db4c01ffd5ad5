use vstd::prelude::*;

use crate::config::{AgentPoolConfig, PoolStats};

verus! {

/// A fixed-size pool of CLI workers: idle workers wait in order of their
/// return, and `total` counts every worker the pool made.
pub struct AgentPool<T> {
    config: AgentPoolConfig,
    idle: Vec<T>,
    total: usize,
}

impl<T> AgentPool<T> {
    pub closed spec fn idle(&self) -> Seq<T> {
        self.idle@
    }

    pub closed spec fn total(&self) -> nat {
        self.total as nat
    }

    pub closed spec fn core_size(&self) -> nat {
        self.config.core_size as nat
    }

    /// The pool never holds more idle workers than it made.
    pub closed spec fn wf(&self) -> bool {
        self.idle@.len() <= self.total
    }

    /// An empty pool; its core workers are added with `add_created`.
    pub fn new(config: AgentPoolConfig) -> (r: Self)
        ensures
            r.wf(),
            r.idle() == Seq::<T>::empty(),
            r.total() == 0,
            r.core_size() == config.core_size,
    {
        AgentPool { config, idle: Vec::new(), total: 0 }
    }

    /// How many core workers are still to be made.
    pub fn missing_core(&self) -> (r: usize)
        ensures
            r == if self.total() < self.core_size() { self.core_size() - self.total() } else { 0 },
    {
        if self.total < self.config.core_size {
            self.config.core_size - self.total
        } else {
            0
        }
    }

    /// Takes a newly made worker in as idle.
    pub fn add_created(&mut self, agent: T)
        requires
            old(self).wf(),
            old(self).total() < usize::MAX,
        ensures
            final(self).wf(),
            final(self).idle() == old(self).idle().push(agent),
            final(self).total() == old(self).total() + 1,
            final(self).core_size() == old(self).core_size(),
    {
        self.idle.push(agent);
        self.total = self.total + 1;
    }

    /// The worker idle the longest, or nothing when every worker is busy:
    /// the pool does not grow past its core.
    pub fn acquire(&mut self) -> (r: Option<T>)
        requires
            old(self).wf(),
        ensures
            final(self).wf(),
            final(self).total() == old(self).total(),
            final(self).core_size() == old(self).core_size(),
            old(self).idle().len() == 0 ==> r is None && final(self).idle() == old(self).idle(),
            old(self).idle().len() > 0 ==> r == Some(old(self).idle()[0]) && final(self).idle()
                == old(self).idle().subrange(1, old(self).idle().len() as int),
    {
        if self.idle.len() == 0 {
            None
        } else {
            Some(self.idle.remove(0))
        }
    }

    /// Returns a worker to the pool. A pool whose workers are all idle
    /// already hands it back.
    pub fn release(&mut self, agent: T) -> (r: Result<(), T>)
        requires
            old(self).wf(),
        ensures
            final(self).wf(),
            final(self).total() == old(self).total(),
            final(self).core_size() == old(self).core_size(),
            old(self).idle().len() < old(self).total() ==> r is Ok && final(self).idle() == old(
                self,
            ).idle().push(agent),
            old(self).idle().len() >= old(self).total() ==> r == Err::<(), T>(agent) && final(self).idle()
                == old(self).idle(),
    {
        if self.idle.len() < self.total {
            self.idle.push(agent);
            Ok(())
        } else {
            Err(agent)
        }
    }

    pub fn stats(&self) -> (r: PoolStats)
        requires
            self.wf(),
        ensures
            r.total_count == self.total(),
            r.idle_count == self.idle().len(),
            r.active_count == self.total() - self.idle().len(),
    {
        PoolStats {
            total_count: self.total,
            idle_count: self.idle.len(),
            active_count: self.total - self.idle.len(),
        }
    }

    /// Empties the pool when it closes: every idle worker, oldest first.
    pub fn drain_idle(&mut self) -> (r: Vec<T>)
        ensures
            final(self).wf(),
            r@ == old(self).idle(),
            final(self).idle() == Seq::<T>::empty(),
            final(self).total() == 0,
    {
        let mut out: Vec<T> = Vec::new();
        std::mem::swap(&mut out, &mut self.idle);
        self.total = 0;
        out
    }
}

} // verus!
