//! A checked boundary between a caller and a native zero-knowledge proving
//! library for puzzle/solution proofs over grids of `n^4` cells.
//!
//! The library decides, before every native call, whether the call may be
//! made (buffer sizes, initialization, the keypair handle), and, inside every
//! native callback, whether the delivered buffers may be viewed and whether
//! the caller's logic may still receive them. The crossings themselves are
//! made by the embedding program.
use vstd::prelude::*;

pub mod context;
pub mod dims;
pub mod facade;
pub mod trampoline;
pub mod violation;

pub use context::{Context, ContextModel};
pub use dims::{grid_cells, KEY_LEN};
pub use facade::{plan_decrypt, plan_keypair, plan_load, plan_prove, LoadCall, ProveCall};
pub use trampoline::{
    accept_keypair_delivery, accept_proof_delivery, finish_keypair, finish_proof, CallbackSlot,
    KeypairBuffers, ProofBuffers,
};
pub use violation::Violation;

verus! {

} // verus!
