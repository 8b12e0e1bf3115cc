use vstd::prelude::*;

verus! {

/// Length in bytes of a symmetric key and of the hash that binds a proof to it.
pub const KEY_LEN: usize = 32;

/// Number of cells of a puzzle (or solution) grid of dimension `n`.
pub open spec fn cells_of(n: nat) -> nat {
    n * n * n * n
}

/// A dimension is usable when the native side can receive it as a `u32` and
/// a grid of its `n^4` cells can be held in memory.
pub open spec fn dimension_fits(n: nat) -> bool {
    n <= u32::MAX && cells_of(n) <= usize::MAX
}

/// A product that already exceeds `bound` still does after another factor
/// of at least one.
proof fn lemma_product_stays_above(a: nat, n: nat, bound: nat)
    requires
        a > bound,
        n >= 1,
    ensures
        a * n > bound,
{
    assert(a * n >= a) by (nonlinear_arith)
        requires n >= 1;
}

/// The cell count `n^4` of a grid of dimension `n`, or `None` when the
/// dimension does not fit (see `dimension_fits`).
pub fn grid_cells(n: usize) -> (r: Option<usize>)
    ensures
        r matches Some(c) <==> dimension_fits(n as nat),
        r matches Some(c) ==> c as nat == cells_of(n as nat),
{
    if n > u32::MAX as usize {
        return None;
    }
    let sq = match n.checked_mul(n) {
        Some(sq) => sq,
        None => {
            proof {
                assert(n >= 1) by (nonlinear_arith)
                    requires n * n > usize::MAX;
                lemma_product_stays_above((n * n) as nat, n as nat, usize::MAX as nat);
                lemma_product_stays_above((n * n * n) as nat, n as nat, usize::MAX as nat);
            }
            return None;
        },
    };
    let cube = match sq.checked_mul(n) {
        Some(cube) => cube,
        None => {
            proof {
                lemma_product_stays_above((n * n * n) as nat, n as nat, usize::MAX as nat);
            }
            return None;
        },
    };
    cube.checked_mul(n)
}

} // verus!
