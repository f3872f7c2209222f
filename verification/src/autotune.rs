//! Autotune keys: the stable identities the compute substrate looks up
//! previously benchmarked kernel variants under.
//!
//! A key is derived from the logical operation and the tensor's element
//! count alone — never from data values and never from the device — and the
//! count is anchored to the nearest power of two, so that nearby sizes share
//! one benchmarked variant instead of retuning per size.

use vstd::prelude::*;
use vstd::arithmetic::power2::{lemma_pow2_adds, lemma_pow2_strictly_increases, pow2};
use crate::kernel::StaticKernelSource;

verus! {

/// The value is a power of two.
pub open spec fn spec_pow2_value(n: int) -> bool {
    exists|e: nat| n == pow2(e)
}

/// Rounds an element count up to the nearest power of two. The bound on
/// `n` is the machine limit under which the next power of two still fits.
pub fn anchor(n: usize) -> (r: usize)
    requires
        1 <= n,
        n as int <= usize::MAX as int / 2 + 1,
    ensures
        spec_pow2_value(r as int),
        n <= r,
        r < 2 * n,
{
    let mut p: usize = 1;
    let ghost mut e: nat = 0;
    proof {
        assert(pow2(0) == 1) by {
            vstd::arithmetic::power::lemma_pow0(2);
        }
    }
    while p < n
        invariant
            1 <= p,
            p == pow2(e),
            (p as int) < 2 * (n as int),
            n as int <= usize::MAX as int / 2 + 1,
        decreases 2 * (n as int) - p,
    {
        proof {
            lemma_pow2_adds(e, 1);
            assert(pow2(1) == 2) by {
                vstd::arithmetic::power::lemma_pow1(2);
                vstd::arithmetic::power::lemma_pow0(2);
            }
            e = e + 1;
        }
        p = p * 2;
    }
    proof {
        assert(p as int == pow2(e));
    }
    p
}

/// There is exactly one power of two in `[n, 2n)`: anchoring the same
/// count twice gives the same value.
pub proof fn lemma_anchor_stable(a: int, b: int, n: int)
    requires
        n >= 1,
        spec_pow2_value(a),
        spec_pow2_value(b),
        n <= a < 2 * n,
        n <= b < 2 * n,
    ensures
        a == b,
{
    let ea = choose|e: nat| a == pow2(e);
    let eb = choose|e: nat| b == pow2(e);
    assert(pow2(1) == 2) by {
        vstd::arithmetic::power::lemma_pow1(2);
        vstd::arithmetic::power::lemma_pow0(2);
    }
    if ea < eb {
        lemma_pow2_adds(ea, 1);
        if ea + 1 < eb {
            lemma_pow2_strictly_increases((ea + 1) as nat, eb);
        }
        assert(b >= 2 * a);
        assert(false);
    } else if eb < ea {
        lemma_pow2_adds(eb, 1);
        if eb + 1 < ea {
            lemma_pow2_strictly_increases((eb + 1) as nat, ea);
        }
        assert(a >= 2 * b);
        assert(false);
    }
}

/// The identity an autotuned operation is cached under: the logical
/// operation and the anchored element count. Device-independent by
/// construction — the substrate keys its per-device caches externally.
#[derive(Clone, Copy, PartialEq, Eq, Structural, Debug, Hash)]
pub struct JitAutotuneKey {
    pub operation: StaticKernelSource,
    pub anchored_num_elems: usize,
}

impl JitAutotuneKey {
    /// Builds the key for one logical operation over `num_elems` elements.
    pub fn new(operation: StaticKernelSource, num_elems: usize) -> (k: Self)
        requires
            1 <= num_elems,
            num_elems as int <= usize::MAX as int / 2 + 1,
        ensures
            k.operation == operation,
            spec_pow2_value(k.anchored_num_elems as int),
            num_elems <= k.anchored_num_elems,
            k.anchored_num_elems < 2 * num_elems,
    {
        JitAutotuneKey { operation, anchored_num_elems: anchor(num_elems) }
    }
}

/// Autotune key stability: two keys built for the same operation and the
/// same element count are equal — the key depends on the operation's shape
/// and types alone.
pub proof fn lemma_autotune_key_stable(
    k1: JitAutotuneKey,
    k2: JitAutotuneKey,
    operation: StaticKernelSource,
    num_elems: int,
)
    requires
        num_elems >= 1,
        k1.operation == operation,
        k2.operation == operation,
        spec_pow2_value(k1.anchored_num_elems as int),
        spec_pow2_value(k2.anchored_num_elems as int),
        num_elems <= k1.anchored_num_elems < 2 * num_elems,
        num_elems <= k2.anchored_num_elems < 2 * num_elems,
    ensures
        k1 == k2,
{
    lemma_anchor_stable(
        k1.anchored_num_elems as int,
        k2.anchored_num_elems as int,
        num_elems,
    );
}

} // verus!
