//! Splitting a block interval into consecutive windows of bounded width.

use crate::range::{BlockRange, RangeBoundaryError};
use vstd::arithmetic::div_mod::{
    lemma_div_plus_one, lemma_fundamental_div_mod, lemma_fundamental_div_mod_converse,
    lemma_mod_pos_bound,
};
use vstd::arithmetic::mul::{
    lemma_mul_inequality, lemma_mul_is_commutative, lemma_mul_is_distributive_add_other_way,
};
use vstd::prelude::*;

verus! {

/// How many windows of `width` blocks it takes to cover `genesis ..= ceiling`:
/// the number of blocks divided by `width`, rounded up; none when the range
/// is empty.
pub open spec fn window_count(genesis: int, ceiling: int, width: int) -> int {
    if genesis > ceiling {
        0
    } else {
        (ceiling - genesis + width) / width
    }
}

/// The first block of window `i`.
pub open spec fn window_lo(genesis: int, width: int, i: int) -> int {
    genesis + i * width
}

/// The last block of window `i`: a full window's last block, clamped to
/// `ceiling`.
pub open spec fn window_hi(genesis: int, ceiling: int, width: int, i: int) -> int {
    let full = genesis + i * width + width - 1;
    if full < ceiling {
        full
    } else {
        ceiling
    }
}

/// Window `i` as an interval.
pub open spec fn window_range(genesis: int, ceiling: int, width: int, i: int) -> BlockRange {
    BlockRange {
        start: window_lo(genesis, width, i) as u64,
        end: window_hi(genesis, ceiling, width, i) as u64,
    }
}

/// The window that holds `block`.
pub open spec fn window_index_of(genesis: int, width: int, block: int) -> int {
    (block - genesis) / width
}

proof fn lemma_window_arith(span: int, width: int, i: int)
    requires
        0 <= span,
        1 <= width,
        0 <= i <= span / width,
    ensures
        (span + width) / width == span / width + 1,
        0 <= span / width,
        i * width <= span,
        i < span / width ==> i * width + width <= span,
        i == span / width ==> span < i * width + width,
        0 <= i * width,
        span / width <= span,
{
    let q = span / width;
    lemma_div_plus_one(span, width);
    lemma_fundamental_div_mod(span, width);
    lemma_mod_pos_bound(span, width);
    lemma_mul_is_commutative(width, q);
    lemma_mul_inequality(i, q, width);
    lemma_mul_inequality(0, i, width);
    lemma_mul_is_distributive_add_other_way(width, i, 1);
    if i < q {
        lemma_mul_inequality(i + 1, q, width);
    }
    lemma_mul_inequality(1, width, q);
    lemma_mul_is_commutative(1, q);
}

/// There are no more windows than blocks.
pub proof fn lemma_window_count_bound(genesis: int, ceiling: int, width: int)
    requires
        genesis <= ceiling,
        1 <= width,
    ensures
        1 <= window_count(genesis, ceiling, width) <= ceiling - genesis + 1,
{
    lemma_window_arith(ceiling - genesis, width, 0);
}

/// The windows tile the range. For every `genesis <= ceiling` and every
/// positive `width`: there is at least one window; the first starts at
/// `genesis` and the last ends at `ceiling`; no window is empty or wider than
/// `width`; every window but the last is exactly `width` blocks wide, and the
/// next one starts on the block after it, so that consecutive windows neither
/// overlap nor leave a gap.
pub proof fn lemma_windows_tile_range(genesis: int, ceiling: int, width: int)
    requires
        genesis <= ceiling,
        1 <= width,
    ensures
        window_count(genesis, ceiling, width) >= 1,
        window_lo(genesis, width, 0) == genesis,
        window_hi(genesis, ceiling, width, window_count(genesis, ceiling, width) - 1) == ceiling,
        forall|i: int|
            0 <= i < window_count(genesis, ceiling, width) ==> {
                &&& window_lo(genesis, width, i) <= #[trigger] window_hi(
                    genesis,
                    ceiling,
                    width,
                    i,
                )
                &&& window_hi(genesis, ceiling, width, i) - window_lo(genesis, width, i) + 1
                    <= width
            },
        forall|i: int|
            0 <= i < window_count(genesis, ceiling, width) - 1 ==> {
                &&& #[trigger] window_hi(genesis, ceiling, width, i) + 1 == window_lo(
                    genesis,
                    width,
                    i + 1,
                )
                &&& window_hi(genesis, ceiling, width, i) - window_lo(genesis, width, i) + 1
                    == width
            },
{
    let span = ceiling - genesis;
    let n = window_count(genesis, ceiling, width);
    lemma_window_arith(span, width, 0);
    lemma_window_arith(span, width, n - 1);
    assert forall|i: int| 0 <= i < n implies {
        &&& window_lo(genesis, width, i) <= #[trigger] window_hi(genesis, ceiling, width, i)
        &&& window_hi(genesis, ceiling, width, i) - window_lo(genesis, width, i) + 1 <= width
    } by {
        lemma_window_arith(span, width, i);
    }
    assert forall|i: int| 0 <= i < n - 1 implies {
        &&& #[trigger] window_hi(genesis, ceiling, width, i) + 1 == window_lo(
            genesis,
            width,
            i + 1,
        )
        &&& window_hi(genesis, ceiling, width, i) - window_lo(genesis, width, i) + 1 == width
    } by {
        lemma_window_arith(span, width, i);
        lemma_mul_is_distributive_add_other_way(width, i, 1);
    }
}

/// The windows cover exactly the range, each block once. A block lies in
/// window `i` if and only if it lies in `genesis ..= ceiling` and `i` is the
/// quotient of its distance from `genesis` by `width`.
pub proof fn lemma_block_in_one_window(
    genesis: int,
    ceiling: int,
    width: int,
    block: int,
    i: int,
)
    requires
        genesis <= ceiling,
        1 <= width,
    ensures
        (0 <= i < window_count(genesis, ceiling, width) && window_lo(genesis, width, i) <= block
            <= window_hi(genesis, ceiling, width, i)) <==> (genesis <= block <= ceiling && i
            == window_index_of(genesis, width, block)),
{
    let span = ceiling - genesis;
    let n = window_count(genesis, ceiling, width);
    lemma_window_arith(span, width, 0);
    if 0 <= i < n && window_lo(genesis, width, i) <= block <= window_hi(
        genesis,
        ceiling,
        width,
        i,
    ) {
        lemma_window_arith(span, width, i);
        lemma_fundamental_div_mod_converse(block - genesis, width, i, block - genesis - i * width);
    }
    if genesis <= block <= ceiling && i == window_index_of(genesis, width, block) {
        let d = block - genesis;
        lemma_fundamental_div_mod(d, width);
        lemma_mod_pos_bound(d, width);
        lemma_mul_is_commutative(width, i);
        vstd::arithmetic::div_mod::lemma_div_is_ordered(d, span, width);
        vstd::arithmetic::div_mod::lemma_div_pos_is_pos(d, width);
        lemma_window_arith(span, width, i);
    }
}

/// A restartable walk over the windows of one block range.
///
/// The windows are produced one at a time, earliest first; nothing is stored
/// but the position of the next one.
#[derive(Clone, Copy, Debug, PartialEq, Eq, Structural)]
pub struct Partitioner {
    genesis: u64,
    ceiling: u64,
    max_width: u64,
    position: u128,
}

impl Partitioner {
    /// The first block to cover.
    pub closed spec fn genesis(&self) -> u64 {
        self.genesis
    }

    /// The last block to cover.
    pub closed spec fn ceiling(&self) -> u64 {
        self.ceiling
    }

    /// The greatest number of blocks in one window.
    pub closed spec fn max_width(&self) -> u64 {
        self.max_width
    }

    /// The index of the window that `next_window` hands out next.
    pub closed spec fn position(&self) -> int {
        self.position as int
    }

    /// The number of windows in the whole walk.
    pub open spec fn count(&self) -> int {
        window_count(self.genesis() as int, self.ceiling() as int, self.max_width() as int)
    }

    #[verifier::type_invariant]
    spec fn well_formed(&self) -> bool {
        &&& self.max_width >= 1
        &&& self.position <= window_count(
            self.genesis as int,
            self.ceiling as int,
            self.max_width as int,
        )
    }

    /// Window `i` of this walk.
    pub open spec fn window(&self, i: int) -> BlockRange {
        window_range(self.genesis() as int, self.ceiling() as int, self.max_width() as int, i)
    }

    /// A walk over `genesis ..= ceiling` in windows of at most `max_width`
    /// blocks, placed before the first window. An empty range gives a walk
    /// without windows; a width of zero is refused.
    pub fn new(genesis: u64, ceiling: u64, max_width: u64) -> (r: Result<
        Partitioner,
        RangeBoundaryError,
    >)
        ensures
            max_width == 0 ==> r == Err::<Partitioner, RangeBoundaryError>(
                RangeBoundaryError::ZeroWindowWidth,
            ),
            max_width >= 1 ==> (r matches Ok(p) && p.genesis() == genesis && p.ceiling() == ceiling
                && p.max_width() == max_width && p.position() == 0),
    {
        if max_width == 0 {
            return Err(RangeBoundaryError::ZeroWindowWidth);
        }
        proof {
            if genesis <= ceiling {
                lemma_window_arith(ceiling - genesis, max_width as int, 0);
            }
        }
        Ok(Partitioner { genesis, ceiling, max_width, position: 0 })
    }

    /// The number of windows in the whole walk; wider than `u64` because the
    /// range over every block number, cut into single blocks, has `2^64`.
    pub fn window_count(&self) -> (n: u128)
        ensures
            n == self.count(),
            n <= 0x1_0000_0000_0000_0000,
    {
        proof {
            use_type_invariant(self);
        }
        if self.genesis > self.ceiling {
            0
        } else {
            let span: u64 = self.ceiling - self.genesis;
            proof {
                lemma_window_arith(span as int, self.max_width as int, 0);
            }
            (span / self.max_width) as u128 + 1
        }
    }

    /// The number of windows that `next_window` has yet to hand out.
    pub fn remaining(&self) -> (n: u128)
        ensures
            n == self.count() - self.position(),
    {
        proof {
            use_type_invariant(self);
        }
        self.window_count() - self.position
    }

    /// Window `index` of the walk, wherever the walk stands; `None` from the
    /// number of windows on.
    pub fn window_at(&self, index: u64) -> (w: Option<BlockRange>)
        ensures
            index < self.count() ==> w == Some(self.window(index as int)) && self.window(
                index as int,
            ).wf(),
            index >= self.count() ==> w is None,
    {
        proof {
            use_type_invariant(self);
        }
        if self.genesis > self.ceiling {
            return None;
        }
        let span: u64 = self.ceiling - self.genesis;
        let last: u64 = span / self.max_width;
        proof {
            lemma_window_arith(span as int, self.max_width as int, 0);
        }
        if index > last {
            return None;
        }
        proof {
            lemma_window_arith(span as int, self.max_width as int, index as int);
        }
        let offset: u64 = index * self.max_width;
        let lo: u64 = self.genesis + offset;
        let hi: u64 = if self.ceiling - lo >= self.max_width {
            lo + (self.max_width - 1)
        } else {
            self.ceiling
        };
        Some(BlockRange { start: lo, end: hi })
    }

    /// Hands out the next window and moves past it; `None`, and no move, when
    /// every window has been handed out.
    pub fn next_window(&mut self) -> (w: Option<BlockRange>)
        ensures
            final(self).genesis() == old(self).genesis(),
            final(self).ceiling() == old(self).ceiling(),
            final(self).max_width() == old(self).max_width(),
            0 <= old(self).position() <= old(self).count(),
            old(self).position() < old(self).count() ==> w == Some(
                old(self).window(old(self).position()),
            ) && old(self).window(old(self).position()).wf() && final(self).position() == old(
                self,
            ).position() + 1,
            old(self).position() == old(self).count() ==> w is None && *final(self) == *old(self),
    {
        proof {
            use_type_invariant(&*self);
        }
        let count: u128 = self.window_count();
        if self.position >= count {
            return None;
        }
        let w = self.window_at(self.position as u64);
        self.position = self.position + 1;
        w
    }

    /// Puts the walk back before its first window.
    pub fn restart(&mut self)
        ensures
            final(self).genesis() == old(self).genesis(),
            final(self).ceiling() == old(self).ceiling(),
            final(self).max_width() == old(self).max_width(),
            final(self).position() == 0,
    {
        proof {
            use_type_invariant(&*self);
            if self.genesis <= self.ceiling {
                lemma_window_arith(self.ceiling - self.genesis, self.max_width as int, 0);
            }
        }
        self.position = 0;
    }
}

} // verus!
