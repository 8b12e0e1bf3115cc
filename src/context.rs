use vstd::prelude::*;

use crate::dims::{cells_of, dimension_fits, grid_cells};
use crate::violation::Violation;

verus! {

/// What a context stands for: the native keypair handle (as an address) and
/// the grid dimension `n`.
pub struct ContextModel {
    pub keypair: int,
    pub n: nat,
}

/// The capability to generate proofs: a loaded native keypair handle paired
/// with the grid dimension it was loaded for.
///
/// It carries no buffer ownership and is freely copied. The library never
/// frees or mutates the native handle; its lifetime belongs to the native side.
#[derive(Clone, Copy)]
pub struct Context {
    keypair: usize,
    n: usize,
}

impl View for Context {
    type V = ContextModel;

    closed spec fn view(&self) -> ContextModel {
        ContextModel { keypair: self.keypair as int, n: self.n as nat }
    }
}

/// Whether a handle returned by the native load, for dimension `n`, makes a context.
pub open spec fn context_check(keypair: int, n: nat) -> Result<(), Violation> {
    if keypair == 0 {
        Err(Violation::NullKeypair)
    } else if !dimension_fits(n) {
        Err(Violation::DimensionTooLarge)
    } else {
        Ok(())
    }
}

impl Context {
    /// A context is well formed when its handle is not null and its
    /// dimension fits (see `dimension_fits`).
    pub open spec fn wf(&self) -> bool {
        self@.keypair != 0 && dimension_fits(self@.n)
    }

    /// Wraps the handle `keypair` (its address) that the native load returned
    /// for keys of dimension `n`.
    pub fn from_loaded(keypair: usize, n: usize) -> (r: Result<Context, Violation>)
        ensures
            r is Ok <==> context_check(keypair as int, n as nat) is Ok,
            r matches Err(e) ==> context_check(keypair as int, n as nat) == Err::<(), Violation>(e),
            r matches Ok(c) ==> c@ == (ContextModel { keypair: keypair as int, n: n as nat }),
            r matches Ok(c) ==> c.wf(),
    {
        if keypair == 0 {
            return Err(Violation::NullKeypair);
        }
        match grid_cells(n) {
            None => Err(Violation::DimensionTooLarge),
            Some(_) => Ok(Context { keypair, n }),
        }
    }

    /// The native keypair handle, as an address.
    pub fn keypair(&self) -> (r: usize)
        ensures
            r as int == self@.keypair,
    {
        self.keypair
    }

    /// The grid dimension `n`.
    pub fn n(&self) -> (r: usize)
        ensures
            r as nat == self@.n,
    {
        self.n
    }

    /// The cell count `n^4` of the context's grids.
    pub fn cells(&self) -> (r: usize)
        requires
            self.wf(),
        ensures
            r as nat == cells_of(self@.n),
    {
        match grid_cells(self.n) {
            Some(c) => c,
            None => 0,
        }
    }
}

} // verus!
