use vstd::prelude::*;

use crate::context::{context_check, Context};
use crate::dims::{cells_of, dimension_fits, grid_cells, KEY_LEN};
use crate::violation::Violation;

verus! {

/// The arguments that the native key loader receives beside the two buffers:
/// their lengths as 32-bit signed integers.
#[derive(Clone, Copy, Debug, PartialEq, Eq, Structural)]
pub struct LoadCall {
    pub proving_key_len: i32,
    pub verification_key_len: i32,
}

/// The arguments that the native prover receives beside the four buffers.
#[derive(Clone, Copy, Debug, PartialEq, Eq, Structural)]
pub struct ProveCall {
    pub keypair: usize,
    pub n: u32,
}

/// Whether a keypair of dimension `n` may be generated.
pub open spec fn keypair_check(initialized: bool, n: nat) -> Result<(), Violation> {
    if !initialized {
        Err(Violation::NotInitialized)
    } else if !dimension_fits(n) {
        Err(Violation::DimensionTooLarge)
    } else {
        Ok(())
    }
}

/// Whether keys of the given lengths, for dimension `n`, may be handed to the
/// native loader. Their content is the native side's business.
pub open spec fn load_check(initialized: bool, n: nat, pk_len: nat, vk_len: nat) -> Result<(), Violation> {
    if !initialized {
        Err(Violation::NotInitialized)
    } else if !dimension_fits(n) {
        Err(Violation::DimensionTooLarge)
    } else if pk_len > i32::MAX || vk_len > i32::MAX {
        Err(Violation::KeyMaterialTooLong)
    } else {
        Ok(())
    }
}

/// Whether buffers of the given lengths may be handed to the native prover
/// for a context of dimension `n`.
pub open spec fn prove_check(
    initialized: bool,
    n: nat,
    puzzle_len: nat,
    solution_len: nat,
    key_len: nat,
    h_of_key_len: nat,
) -> Result<(), Violation> {
    if !initialized {
        Err(Violation::NotInitialized)
    } else if puzzle_len != cells_of(n) {
        Err(Violation::PuzzleLength)
    } else if solution_len != cells_of(n) {
        Err(Violation::SolutionLength)
    } else if key_len != KEY_LEN {
        Err(Violation::KeyLength)
    } else if h_of_key_len != KEY_LEN {
        Err(Violation::HashOfKeyLength)
    } else {
        Ok(())
    }
}

/// Whether buffers of the given lengths may be handed to the native decryption
/// for a context of dimension `n`.
pub open spec fn decrypt_check(initialized: bool, n: nat, enc_len: nat, key_len: nat) -> Result<(), Violation> {
    if !initialized {
        Err(Violation::NotInitialized)
    } else if enc_len != cells_of(n) {
        Err(Violation::EncryptedSolutionLength)
    } else if key_len != KEY_LEN {
        Err(Violation::KeyLength)
    } else {
        Ok(())
    }
}

/// Decides whether keypair generation for dimension `n` may cross into the
/// native library.
pub fn plan_keypair(initialized: bool, n: u32) -> (r: Result<(), Violation>)
    ensures
        r == keypair_check(initialized, n as nat),
{
    if !initialized {
        return Err(Violation::NotInitialized);
    }
    match grid_cells(n as usize) {
        None => Err(Violation::DimensionTooLarge),
        Some(_) => Ok(()),
    }
}

/// Decides whether the proving key `pk` and verification key `vk`, for
/// dimension `n`, may be handed to the native loader, and with which lengths.
pub fn plan_load(initialized: bool, pk: &[u8], vk: &[u8], n: usize) -> (r: Result<LoadCall, Violation>)
    ensures
        r is Ok <==> load_check(initialized, n as nat, pk@.len(), vk@.len()) is Ok,
        r matches Err(e) ==> load_check(initialized, n as nat, pk@.len(), vk@.len()) == Err::<(), Violation>(e),
        r matches Ok(c) ==> c.proving_key_len as nat == pk@.len() && c.verification_key_len as nat
            == vk@.len(),
{
    if !initialized {
        return Err(Violation::NotInitialized);
    }
    if grid_cells(n).is_none() {
        return Err(Violation::DimensionTooLarge);
    }
    let max_len: usize = i32::MAX as usize;
    if pk.len() > max_len || vk.len() > max_len {
        return Err(Violation::KeyMaterialTooLong);
    }
    Ok(LoadCall { proving_key_len: pk.len() as i32, verification_key_len: vk.len() as i32 })
}

/// Decides whether a proof over `puzzle` and `solution`, bound to `key` by
/// `h_of_key`, may be requested from the native prover under `ctx`.
pub fn plan_prove(
    initialized: bool,
    ctx: &Context,
    puzzle: &[u8],
    solution: &[u8],
    key: &[u8],
    h_of_key: &[u8],
) -> (r: Result<ProveCall, Violation>)
    requires
        ctx.wf(),
    ensures
        r is Ok <==> prove_check(
            initialized,
            ctx@.n,
            puzzle@.len(),
            solution@.len(),
            key@.len(),
            h_of_key@.len(),
        ) is Ok,
        r matches Err(e) ==> prove_check(
            initialized,
            ctx@.n,
            puzzle@.len(),
            solution@.len(),
            key@.len(),
            h_of_key@.len(),
        ) == Err::<(), Violation>(e),
        r matches Ok(c) ==> c.keypair as int == ctx@.keypair && c.n as nat == ctx@.n,
{
    if !initialized {
        return Err(Violation::NotInitialized);
    }
    let cells = ctx.cells();
    if puzzle.len() != cells {
        return Err(Violation::PuzzleLength);
    }
    if solution.len() != cells {
        return Err(Violation::SolutionLength);
    }
    if key.len() != KEY_LEN {
        return Err(Violation::KeyLength);
    }
    if h_of_key.len() != KEY_LEN {
        return Err(Violation::HashOfKeyLength);
    }
    Ok(ProveCall { keypair: ctx.keypair(), n: ctx.n() as u32 })
}

/// Decides whether `enc_solution` may be decrypted in place with `key` under
/// `ctx`; on success gives the dimension to hand to the native side.
pub fn plan_decrypt(initialized: bool, ctx: &Context, enc_solution: &[u8], key: &[u8]) -> (r: Result<u32, Violation>)
    requires
        ctx.wf(),
    ensures
        r is Ok <==> decrypt_check(initialized, ctx@.n, enc_solution@.len(), key@.len()) is Ok,
        r matches Err(e) ==> decrypt_check(initialized, ctx@.n, enc_solution@.len(), key@.len())
            == Err::<(), Violation>(e),
        r matches Ok(n) ==> n as nat == ctx@.n,
{
    if !initialized {
        return Err(Violation::NotInitialized);
    }
    let cells = ctx.cells();
    if enc_solution.len() != cells {
        return Err(Violation::EncryptedSolutionLength);
    }
    if key.len() != KEY_LEN {
        return Err(Violation::KeyLength);
    }
    Ok(ctx.n() as u32)
}

/// Once keys have been loaded and a context built for dimension `n`, a proof
/// request with grids of `n^4` cells and 32-byte key and hash never breaks a
/// length contract, and neither does decrypting an `n^4`-cell buffer with
/// that key.
pub proof fn law_well_sized_requests_accepted(
    initialized: bool,
    keypair: int,
    n: nat,
    pk_len: nat,
    vk_len: nat,
)
    requires
        load_check(initialized, n, pk_len, vk_len) is Ok,
        context_check(keypair, n) is Ok,
    ensures
        prove_check(initialized, n, cells_of(n), cells_of(n), KEY_LEN as nat, KEY_LEN as nat) is Ok,
        decrypt_check(initialized, n, cells_of(n), KEY_LEN as nat) is Ok,
{
}

/// A proof request whose puzzle or solution does not hold `n^4` cells, or
/// whose key or hash is not 32 bytes, is refused, so nothing crosses into
/// the native prover; likewise for a decryption with a wrongly sized buffer
/// or key. A dimension whose `n^4` cells cannot be counted in a `usize`
/// (or that exceeds a `u32`) is refused already at key generation, key
/// loading and context building, so no proof or decryption request is ever
/// measured against a wrapped cell count.
pub proof fn law_malformed_requests_refused(
    initialized: bool,
    keypair: int,
    n: nat,
    pk_len: nat,
    vk_len: nat,
    puzzle_len: nat,
    solution_len: nat,
    key_len: nat,
    h_of_key_len: nat,
    enc_len: nat,
)
    ensures
        puzzle_len != cells_of(n) || solution_len != cells_of(n) || key_len != KEY_LEN
            || h_of_key_len != KEY_LEN ==> prove_check(
            initialized,
            n,
            puzzle_len,
            solution_len,
            key_len,
            h_of_key_len,
        ) is Err,
        enc_len != cells_of(n) || key_len != KEY_LEN ==> decrypt_check(
            initialized,
            n,
            enc_len,
            key_len,
        ) is Err,
        !dimension_fits(n) ==> keypair_check(initialized, n) is Err && load_check(
            initialized,
            n,
            pk_len,
            vk_len,
        ) is Err && context_check(keypair, n) is Err,
{
}

/// Before initialization every operation is refused with `NotInitialized`.
pub proof fn law_uninitialized_refused(
    n: nat,
    pk_len: nat,
    vk_len: nat,
    puzzle_len: nat,
    solution_len: nat,
    key_len: nat,
    h_of_key_len: nat,
)
    ensures
        keypair_check(false, n) == Err::<(), Violation>(Violation::NotInitialized),
        load_check(false, n, pk_len, vk_len) == Err::<(), Violation>(Violation::NotInitialized),
        prove_check(false, n, puzzle_len, solution_len, key_len, h_of_key_len) == Err::<
            (),
            Violation,
        >(Violation::NotInitialized),
        decrypt_check(false, n, puzzle_len, key_len) == Err::<(), Violation>(
            Violation::NotInitialized,
        ),
{
}

} // verus!
