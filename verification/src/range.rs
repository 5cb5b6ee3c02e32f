//! Inclusive block intervals.

use vstd::prelude::*;

verus! {

/// Why the bounds or the settings of a scan were refused.
#[derive(Clone, Copy, Debug, PartialEq, Eq, Structural)]
pub enum RangeBoundaryError {
    /// The interval would end before it starts.
    CeilingBelowGenesis,
    /// A window must hold at least one block.
    ZeroWindowWidth,
    /// The safety buffer reaches further back than the chain is long.
    BufferExceedsLatest,
    /// The contract address is not 20 bytes in hexadecimal.
    MalformedAddress,
}

/// An inclusive interval of block numbers, `start ..= end`.
#[derive(Clone, Copy, Debug, PartialEq, Eq, Structural)]
pub struct BlockRange {
    /// The first block of the interval.
    pub start: u64,
    /// The last block of the interval.
    pub end: u64,
}

impl BlockRange {
    /// The interval is not empty: it ends no earlier than it starts.
    pub open spec fn wf(&self) -> bool {
        self.start <= self.end
    }

    /// The number of blocks in the interval.
    pub open spec fn blocks(&self) -> int {
        if self.start <= self.end {
            self.end - self.start + 1
        } else {
            0
        }
    }

    /// Whether `block` lies inside the interval.
    pub open spec fn holds(&self, block: int) -> bool {
        self.start <= block <= self.end
    }

    /// Builds `start ..= end`, or refuses when `end < start`.
    pub fn new(start: u64, end: u64) -> (r: Result<BlockRange, RangeBoundaryError>)
        ensures
            start <= end ==> r == Ok::<BlockRange, RangeBoundaryError>(BlockRange { start, end }),
            start > end ==> r == Err::<BlockRange, RangeBoundaryError>(
                RangeBoundaryError::CeilingBelowGenesis,
            ),
    {
        if start <= end {
            Ok(BlockRange { start, end })
        } else {
            Err(RangeBoundaryError::CeilingBelowGenesis)
        }
    }

    /// The number of blocks in the interval; wider than `u64` because the
    /// interval over every block number holds `2^64` of them.
    pub fn width(&self) -> (w: u128)
        ensures
            w == self.blocks(),
    {
        if self.start <= self.end {
            (self.end - self.start) as u128 + 1
        } else {
            0
        }
    }

    /// Whether `block` lies inside the interval.
    pub fn contains(&self, block: u64) -> (b: bool)
        ensures
            b == self.holds(block as int),
    {
        self.start <= block && block <= self.end
    }
}

} // verus!
