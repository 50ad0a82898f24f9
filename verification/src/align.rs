//! Page alignment of buffer capacities.
//!
//! A device grants memory in whole pages: the capacity requested for an
//! allocation is the element size rounded up to the next multiple of
//! [`PAGE_SIZE`].

use vstd::arithmetic::div_mod::lemma_fundamental_div_mod;
use vstd::arithmetic::div_mod::lemma_mod_multiples_basic;
use vstd::arithmetic::div_mod::lemma_mod_multiples_vanish;
use vstd::arithmetic::div_mod::lemma_mod_pos_bound;
use vstd::arithmetic::div_mod::lemma_small_mod;
use vstd::prelude::*;

verus! {

/// Granularity of device buffer allocations, in bytes: every allocated
/// capacity is a multiple of this platform page size.
pub const PAGE_SIZE: usize = 4096;

/// The page-aligned rounding of `size`: `size` itself when it already sits on
/// a page boundary, otherwise `size` padded up to the next page boundary.
pub open spec fn page_rounded(size: nat) -> nat {
    let rem = size % (PAGE_SIZE as nat);
    if rem == 0 {
        size
    } else {
        (size + PAGE_SIZE - rem) as nat
    }
}

/// The rounded capacity is a multiple of the page size, never smaller than
/// the requested size, and adds less than one full page of padding.
pub proof fn lemma_page_rounded_properties(size: nat)
    ensures
        page_rounded(size) % (PAGE_SIZE as nat) == 0,
        page_rounded(size) >= size,
        page_rounded(size) < size + PAGE_SIZE,
{
    let p = PAGE_SIZE as int;
    let rem = (size as int) % p;
    lemma_mod_pos_bound(size as int, p);
    lemma_fundamental_div_mod(size as int, p);
    if rem != 0 {
        let q = (size as int) / p;
        assert(page_rounded(size) == p * (q + 1)) by {
            assert(p * (q + 1) == p * q + p) by (nonlinear_arith);
        };
        lemma_mod_multiples_basic(q + 1, p);
    }
}

/// Among all page-multiple capacities large enough to hold `size` bytes,
/// the page-aligned rounding is the least.
pub proof fn lemma_page_rounded_is_least(size: nat, cap: nat)
    requires
        cap % (PAGE_SIZE as nat) == 0,
        cap >= size,
    ensures
        cap >= page_rounded(size),
{
    let p = PAGE_SIZE as int;
    let rem = (size as int) % p;
    lemma_mod_pos_bound(size as int, p);
    lemma_fundamental_div_mod(size as int, p);
    if rem != 0 && cap < page_rounded(size) {
        let q = (size as int) / p;
        let gap = cap as int - p * q;
        assert(0 < gap < p) by {
            assert(p * q + p == page_rounded(size)) by (nonlinear_arith)
                requires
                    size == p * q + rem,
                    0 < rem < p,
                    page_rounded(size) == size + p - rem,
            ;
        };
        lemma_mod_multiples_vanish(-q, cap as int, p);
        assert(gap % p == cap as int % p) by {
            assert(p * (-q) + cap as int == cap as int - p * q) by (nonlinear_arith);
        };
        lemma_small_mod(gap as nat, p as nat);
        assert(false);
    }
}

/// The page-aligned capacity for a requested byte size, or `None` when the
/// rounded capacity does not fit in `usize`.
pub fn checked_page_rounded(size: usize) -> (r: Option<usize>)
    ensures
        match r {
            Some(cap) => cap as nat == page_rounded(size as nat),
            None => page_rounded(size as nat) > usize::MAX,
        },
{
    let rem: usize = size % PAGE_SIZE;
    if rem == 0 {
        Some(size)
    } else if size <= usize::MAX - (PAGE_SIZE - rem) {
        Some(size + (PAGE_SIZE - rem))
    } else {
        None
    }
}

} // verus!
