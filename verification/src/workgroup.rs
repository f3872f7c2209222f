//! Workgroup geometry: turns a total element count and a per-workgroup
//! capacity into a dispatch grid that covers every element.
//!
//! The grid is minimal along its second axis: dropping one row of workgroups
//! would leave elements uncovered. Excess invocations beyond the element
//! count are expected to be guarded inside the kernel by a bounds check, so
//! the calculator only guarantees coverage, never exactness.

use vstd::prelude::*;

verus! {

/// The number of workgroups dispatched along each grid axis.
///
/// Every axis is positive: an empty tensor is dispatched as one guarded
/// workgroup rather than as an undefined zero-sized grid.
#[derive(Clone, Copy, PartialEq, Eq, Structural, Debug, Hash)]
pub struct WorkGroup {
    pub x: u32,
    pub y: u32,
    pub z: u32,
}

/// The default per-workgroup element capacity for element-wise kernels.
pub const WORKGROUP_DEFAULT: u32 = 32;

impl WorkGroup {
    /// The total number of workgroups in the grid.
    pub open spec fn spec_total(self) -> int {
        (self.x as int) * (self.y as int) * (self.z as int)
    }

    /// The grid, together with a per-workgroup capacity, covers `n` elements.
    pub open spec fn covers(self, workgroup_size: int, n: int) -> bool {
        self.spec_total() * workgroup_size >= n
    }
}

/// A well-formed dispatch grid for an element-wise kernel over `num_elems`
/// elements at the default per-workgroup capacity: every axis positive, the
/// grid covers every element, it is minimal along its second axis, and an
/// empty tensor gets exactly the guarded unit grid.
pub open spec fn spec_elemwise_dispatch_grid(g: WorkGroup, num_elems: int) -> bool {
    &&& g.x >= 1
    &&& g.y >= 1
    &&& g.z == 1
    &&& g.covers(WORKGROUP_DEFAULT as int, num_elems)
    &&& (num_elems > 0 ==> (g.x as int) * ((g.y as int) - 1) * (WORKGROUP_DEFAULT as int)
        < num_elems)
    &&& (num_elems == 0 ==> g == (WorkGroup { x: 1, y: 1, z: 1 }))
}

/// Division rounding up, computed without overflowing the dividend.
fn ceil_div_u64(a: u64, b: u64) -> (r: u64)
    requires
        b > 0,
    ensures
        (r as int) * (b as int) >= a as int,
        ((r as int) - 1) * (b as int) < a as int,
        r == 0 <==> a == 0,
{
    let q = a / b;
    let rem = a % b;
    proof {
        vstd::arithmetic::div_mod::lemma_fundamental_div_mod(a as int, b as int);
        vstd::arithmetic::div_mod::lemma_mod_bound(a as int, b as int);
        assert(a as int == (b as int) * (q as int) + (rem as int));
    }
    if rem == 0 {
        proof {
            assert((q as int) * (b as int) == (b as int) * (q as int)) by (nonlinear_arith);
            assert(((q as int) - 1) * (b as int) == (q as int) * (b as int) - (b as int))
                by (nonlinear_arith);
            assert((q as int) * (b as int) == 0 ==> q == 0) by (nonlinear_arith)
                requires
                    b > 0,
                    q >= 0,
            ;
        }
        q
    } else {
        proof {
            assert((q as int) * (b as int) == (b as int) * (q as int)) by (nonlinear_arith);
            assert(((q as int) + 1) * (b as int) == (q as int) * (b as int) + (b as int))
                by (nonlinear_arith);
            assert((q as int) < u64::MAX) by (nonlinear_arith)
                requires
                    (q as int) * (b as int) + (rem as int) <= u64::MAX,
                    b > 0,
                    rem > 0,
                    q >= 0,
            ;
        }
        q + 1
    }
}

/// The integer square root, found by binary search.
fn isqrt_u64(n: u64) -> (r: u64)
    ensures
        (r as int) * (r as int) <= n as int,
        ((r as int) + 1) * ((r as int) + 1) > n as int,
{
    let mut lo: u64 = 0;
    let mut hi: u64 = if n < 4294967295 {
        n
    } else {
        4294967295
    };
    proof {
        assert(((hi as int) + 1) * ((hi as int) + 1) > n as int) by (nonlinear_arith)
            requires
                hi == if n < 4294967295 { n as int } else { 4294967295int },
                n <= u64::MAX,
        ;
    }
    while lo < hi
        invariant
            lo <= hi,
            hi <= 4294967295,
            (lo as int) * (lo as int) <= n as int,
            ((hi as int) + 1) * ((hi as int) + 1) > n as int,
        decreases hi - lo,
    {
        let mid = lo + (hi - lo + 1) / 2;
        proof {
            assert(lo < mid <= hi);
            assert((mid as int) * (mid as int) <= 4294967295int * 4294967295int)
                by (nonlinear_arith)
                requires
                    0 <= mid <= 4294967295,
            ;
        }
        if (mid as u128) * (mid as u128) <= n as u128 {
            lo = mid;
        } else {
            hi = mid - 1;
        }
    }
    lo
}

/// The least integer whose square reaches `n`.
fn ceil_sqrt_u64(n: u64) -> (r: u64)
    ensures
        (r as int) * (r as int) >= n as int,
        n > 0 ==> ((r as int) - 1) * ((r as int) - 1) < n as int,
        n > 0 ==> r >= 1,
        r <= 4294967296,
{
    let s = isqrt_u64(n);
    proof {
        assert(s <= 4294967295) by (nonlinear_arith)
            requires
                (s as int) * (s as int) <= n as int,
                n <= u64::MAX,
                u64::MAX < (4294967296int) * (4294967296int),
                s >= 0,
        ;
    }
    if (s as u128) * (s as u128) == n as u128 {
        proof {
            assert(n > 0 ==> s >= 1) by (nonlinear_arith)
                requires
                    (s as int) * (s as int) == n as int,
                    s >= 0,
            ;
            assert(n > 0 ==> ((s as int) - 1) * ((s as int) - 1) < n as int)
                by (nonlinear_arith)
                requires
                    (s as int) * (s as int) == n as int,
                    s >= 0,
            ;
        }
        s
    } else {
        proof {
            assert((s as int) * (s as int) < n as int);
        }
        s + 1
    }
}

/// Computes the dispatch grid for an element-wise kernel over `num_elems`
/// elements, `workgroup_size` elements to a workgroup.
///
/// The grid covers every element, is minimal along its second axis, and an
/// empty tensor gets a single guarded workgroup rather than an undefined
/// zero-sized dispatch. The bound on `num_elems` is the machine limit set
/// by the 32-bit grid axes.
pub fn elemwise_workgroup(num_elems: usize, workgroup_size: u32) -> (g: WorkGroup)
    requires
        workgroup_size > 0,
        num_elems as int <= (u32::MAX as int) * (u32::MAX as int) * (workgroup_size as int),
    ensures
        g.x >= 1,
        g.y >= 1,
        g.z == 1,
        g.covers(workgroup_size as int, num_elems as int),
        num_elems > 0 ==> (g.x as int) * ((g.y as int) - 1) * (workgroup_size as int)
            < num_elems as int,
        num_elems == 0 ==> g.x == 1 && g.y == 1,
{
    let n64 = num_elems as u64;
    let ws64 = workgroup_size as u64;
    let wg = ceil_div_u64(n64, ws64);
    if wg == 0 {
        return WorkGroup { x: 1, y: 1, z: 1 };
    }
    proof {
        assert(wg as int <= (u32::MAX as int) * (u32::MAX as int)) by (nonlinear_arith)
            requires
                ((wg as int) - 1) * (ws64 as int) < n64 as int,
                n64 as int <= (u32::MAX as int) * (u32::MAX as int) * (ws64 as int),
                ws64 > 0,
        ;
    }
    let x = ceil_sqrt_u64(wg);
    proof {
        assert(x <= u32::MAX) by (nonlinear_arith)
            requires
                ((x as int) - 1) * ((x as int) - 1) < wg as int,
                wg as int <= (u32::MAX as int) * (u32::MAX as int),
                x >= 1,
        ;
    }
    let y = ceil_div_u64(wg, x);
    proof {
        assert(y <= x) by (nonlinear_arith)
            requires
                ((y as int) - 1) * (x as int) < wg as int,
                (x as int) * (x as int) >= wg as int,
                x >= 1,
                y >= 1,
        ;
    }
    let g = WorkGroup { x: x as u32, y: y as u32, z: 1 };
    proof {
        assert((x as int) * (y as int) * 1 * (workgroup_size as int) >= num_elems as int)
            by (nonlinear_arith)
            requires
                (y as int) * (x as int) >= wg as int,
                (wg as int) * (ws64 as int) >= n64 as int,
                ws64 == workgroup_size as int,
                n64 == num_elems as int,
                ws64 > 0,
        ;
        assert((x as int) * ((y as int) - 1) * (workgroup_size as int) < num_elems as int)
            by (nonlinear_arith)
            requires
                ((y as int) - 1) * (x as int) < wg as int,
                ((wg as int) - 1) * (ws64 as int) < n64 as int,
                ws64 == workgroup_size as int,
                n64 == num_elems as int,
                ws64 > 0,
                wg >= 1,
                x >= 1,
                y >= 1,
        ;
    }
    g
}

} // verus!
