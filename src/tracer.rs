//! The throughput tracer: counts the transactions of committed blocks
//! since the first one it saw.

use vstd::prelude::*;

verus! {

/// Nanoseconds in a second.
pub const NANOS_PER_SEC: u128 = 1_000_000_000;

/// The tracer's state: when counting began, and the transactions counted.
#[derive(Debug)]
pub struct Tracer {
    /// Start of the count, in nanoseconds since the Unix epoch.
    pub begin: u128,
    /// Transactions counted.
    pub txs: usize,
}

/// What the tracer reports after a block.
#[derive(Clone, Copy, Debug, PartialEq, Eq, Structural)]
pub struct TraceLine {
    pub height: usize,
    /// Transactions of this block.
    pub count: usize,
    /// Transactions counted in all.
    pub total: usize,
    /// Whole seconds since counting began; zero where the clock reads
    /// earlier than the start.
    pub elapsed_secs: u128,
}

impl Tracer {
    /// A tracer that has counted nothing.
    pub fn new() -> (r: Tracer)
        ensures
            r.begin == 0,
            r.txs == 0,
    {
        Tracer { begin: 0, txs: 0 }
    }

    /// Counts a committed block of `count` transactions at `height`, seen at
    /// `now` (nanoseconds since the Unix epoch). Counting begins with the
    /// first block while nothing is counted.
    pub fn update(&mut self, height: usize, count: usize, now: u128) -> (r: TraceLine)
        requires
            old(self).txs + count <= usize::MAX,
        ensures
            final(self).begin == if old(self).txs == 0 { now } else { old(self).begin },
            final(self).txs == old(self).txs + count,
            r.height == height,
            r.count == count,
            r.total == final(self).txs,
            r.elapsed_secs == if now >= final(self).begin {
                ((now - final(self).begin) / (NANOS_PER_SEC as int)) as u128
            } else {
                0
            },
    {
        if self.txs == 0 {
            self.begin = now;
        }
        self.txs = self.txs + count;
        let elapsed_secs = if now >= self.begin {
            (now - self.begin) / NANOS_PER_SEC
        } else {
            0
        };
        TraceLine { height, count, total: self.txs, elapsed_secs }
    }
}

} // verus!
