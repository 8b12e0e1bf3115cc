use vstd::prelude::*;

use crate::context::Context;
use crate::dims::cells_of;
use crate::violation::Violation;

verus! {

/// Holds the one delivery that the caller's logic may receive during the
/// current native call, once it has come. A slot lives no longer than that call.
pub struct CallbackSlot<T> {
    delivered: Option<T>,
}

impl<T> View for CallbackSlot<T> {
    type V = Option<T>;

    closed spec fn view(&self) -> Option<T> {
        self.delivered
    }
}

/// The lengths of the two buffers a keypair callback delivers.
#[derive(Clone, Copy, Debug, PartialEq, Eq, Structural)]
pub struct KeypairBuffers {
    pub proving_key_len: usize,
    pub verification_key_len: usize,
}

/// The lengths of the two buffers a proof callback delivers.
#[derive(Clone, Copy, Debug, PartialEq, Eq, Structural)]
pub struct ProofBuffers {
    pub encrypted_solution_len: usize,
    pub proof_len: usize,
}

/// A delivery reaches the caller's logic only if none has before in the same
/// native call; otherwise it stands or falls with its buffers.
pub open spec fn delivery_outcome(fired: bool, buffers: Result<(), Violation>) -> Result<(), Violation> {
    if fired {
        Err(Violation::RepeatedCallback)
    } else {
        buffers
    }
}

/// Whether the buffers of a keypair callback can be viewed: both addresses
/// non-null, both lengths non-negative.
pub open spec fn keypair_buffers_check(pk_addr: int, pk_len: int, vk_addr: int, vk_len: int) -> Result<
    (),
    Violation,
> {
    if pk_addr == 0 || vk_addr == 0 {
        Err(Violation::NullBuffer)
    } else if pk_len < 0 || vk_len < 0 {
        Err(Violation::NegativeLength)
    } else {
        Ok(())
    }
}

/// Whether the buffers of a proof callback can be viewed under a context of
/// dimension `ctx_n`: the reported dimension is the context's, both addresses
/// are non-null and the proof length is non-negative.
pub open spec fn proof_buffers_check(
    ctx_n: nat,
    n: nat,
    enc_addr: int,
    proof_addr: int,
    proof_len: int,
) -> Result<(), Violation> {
    if n != ctx_n {
        Err(Violation::DimensionMismatch)
    } else if enc_addr == 0 || proof_addr == 0 {
        Err(Violation::NullBuffer)
    } else if proof_len < 0 {
        Err(Violation::NegativeLength)
    } else {
        Ok(())
    }
}

/// How many of a run of deliveries, whose buffers checked as `checks`, reach
/// the caller's logic, starting from a slot that has `fired` or not.
pub open spec fn accepted_count(fired: bool, checks: Seq<Result<(), Violation>>) -> nat
    decreases checks.len(),
{
    if checks.len() == 0 {
        0
    } else {
        let first = delivery_outcome(fired, checks[0]);
        let rest = accepted_count(fired || first is Ok, checks.drop_first());
        if first is Ok {
            1 + rest
        } else {
            rest
        }
    }
}

/// Whether the slot has fired after that run of deliveries.
pub open spec fn fired_after(fired: bool, checks: Seq<Result<(), Violation>>) -> bool
    decreases checks.len(),
{
    if checks.len() == 0 {
        fired
    } else {
        fired_after(fired || delivery_outcome(fired, checks[0]) is Ok, checks.drop_first())
    }
}

/// Whether a finished proof generation that reported `success` got what it
/// was owed: a successful proof comes through the callback, and is not empty.
pub open spec fn proof_finish_check(delivered: Option<ProofBuffers>, success: bool) -> Result<(), Violation> {
    if !success {
        Ok(())
    } else {
        match delivered {
            None => Err(Violation::MissingCallback),
            Some(b) => if b.proof_len == 0 {
                Err(Violation::EmptyProof)
            } else {
                Ok(())
            },
        }
    }
}

impl<T: Copy> CallbackSlot<T> {
    /// A slot for one native call, with nothing delivered yet.
    pub fn new() -> (r: CallbackSlot<T>)
        ensures
            r@ is None,
    {
        CallbackSlot { delivered: None }
    }

    /// Whether the caller's logic has received its delivery.
    pub fn has_fired(&self) -> (r: bool)
        ensures
            r == self@ is Some,
    {
        self.delivered.is_some()
    }

    /// What the caller's logic received, if anything.
    pub fn delivered(&self) -> (r: Option<T>)
        ensures
            r == self@,
    {
        self.delivered
    }

    /// Receives a delivery whose buffers checked as `buffers`: it reaches the
    /// caller's logic only if nothing has before, and is then kept.
    pub fn receive(&mut self, buffers: Result<T, Violation>) -> (r: Result<T, Violation>)
        ensures
            r == (if old(self)@ is Some {
                Err(Violation::RepeatedCallback)
            } else {
                buffers
            }),
            final(self)@ == (match r {
                Ok(b) => Some(b),
                Err(_) => old(self)@,
            }),
            final(self)@ is Some == (old(self)@ is Some || r is Ok),
    {
        if self.delivered.is_some() {
            return Err(Violation::RepeatedCallback);
        }
        if let Ok(b) = buffers {
            self.delivered = Some(b);
        }
        buffers
    }
}

/// Checks a keypair callback's raw buffers (addresses and signed lengths) and
/// records the delivery in `slot`; on success gives the two lengths to view.
pub fn accept_keypair_delivery(
    slot: &mut CallbackSlot<KeypairBuffers>,
    pk_addr: usize,
    pk_len: i32,
    vk_addr: usize,
    vk_len: i32,
) -> (r: Result<KeypairBuffers, Violation>)
    ensures
        r is Ok <==> delivery_outcome(
            old(slot)@ is Some,
            keypair_buffers_check(pk_addr as int, pk_len as int, vk_addr as int, vk_len as int),
        ) is Ok,
        r matches Err(e) ==> delivery_outcome(
            old(slot)@ is Some,
            keypair_buffers_check(pk_addr as int, pk_len as int, vk_addr as int, vk_len as int),
        ) == Err::<(), Violation>(e),
        r matches Ok(b) ==> b.proving_key_len as int == pk_len as int && b.verification_key_len as int
            == vk_len as int,
        final(slot)@ == (match r {
            Ok(b) => Some(b),
            Err(_) => old(slot)@,
        }),
{
    let buffers = if pk_addr == 0 || vk_addr == 0 {
        Err(Violation::NullBuffer)
    } else if pk_len < 0 || vk_len < 0 {
        Err(Violation::NegativeLength)
    } else {
        Ok(KeypairBuffers { proving_key_len: pk_len as usize, verification_key_len: vk_len as usize })
    };
    slot.receive(buffers)
}

/// Checks a proof callback's raw buffers under `ctx` (the dimension it
/// reports, the two addresses, the proof's signed length) and records the
/// delivery in `slot`; on success gives the lengths to view, the encrypted
/// solution's being exactly `n^4`.
pub fn accept_proof_delivery(
    slot: &mut CallbackSlot<ProofBuffers>,
    ctx: &Context,
    n: u32,
    enc_addr: usize,
    proof_addr: usize,
    proof_len: i32,
) -> (r: Result<ProofBuffers, Violation>)
    requires
        ctx.wf(),
    ensures
        r is Ok <==> delivery_outcome(
            old(slot)@ is Some,
            proof_buffers_check(ctx@.n, n as nat, enc_addr as int, proof_addr as int, proof_len as int),
        ) is Ok,
        r matches Err(e) ==> delivery_outcome(
            old(slot)@ is Some,
            proof_buffers_check(ctx@.n, n as nat, enc_addr as int, proof_addr as int, proof_len as int),
        ) == Err::<(), Violation>(e),
        r matches Ok(b) ==> b.encrypted_solution_len as nat == cells_of(n as nat) && b.proof_len as int
            == proof_len as int,
        final(slot)@ == (match r {
            Ok(b) => Some(b),
            Err(_) => old(slot)@,
        }),
{
    let buffers = if n as usize != ctx.n() {
        Err(Violation::DimensionMismatch)
    } else if enc_addr == 0 || proof_addr == 0 {
        Err(Violation::NullBuffer)
    } else if proof_len < 0 {
        Err(Violation::NegativeLength)
    } else {
        Ok(ProofBuffers { encrypted_solution_len: ctx.cells(), proof_len: proof_len as usize })
    };
    slot.receive(buffers)
}

/// Closes a keypair generation: tells whether the native side delivered a
/// keypair. One that fails before producing a result fires no callback; the
/// generation then returns without the caller's logic having run.
pub fn finish_keypair(slot: &CallbackSlot<KeypairBuffers>) -> (r: bool)
    ensures
        r == slot@ is Some,
{
    slot.has_fired()
}

/// Closes a proof generation whose native result was `success`; on success
/// hands that result back to the caller.
pub fn finish_proof(slot: &CallbackSlot<ProofBuffers>, success: bool) -> (r: Result<bool, Violation>)
    ensures
        r is Ok <==> proof_finish_check(slot@, success) is Ok,
        r matches Err(e) ==> proof_finish_check(slot@, success) == Err::<(), Violation>(e),
        r matches Ok(b) ==> b == success,
{
    if !success {
        return Ok(false);
    }
    match slot.delivered() {
        None => Err(Violation::MissingCallback),
        Some(b) => if b.proof_len == 0 {
            Err(Violation::EmptyProof)
        } else {
            Ok(true)
        },
    }
}

/// A proof generation that reports success closes without a violation
/// only if its one callback delivered a non-empty proof.
pub proof fn law_successful_proof_delivers_proof(delivered: Option<ProofBuffers>)
    ensures
        proof_finish_check(delivered, true) is Ok <==> (delivered matches Some(b) && b.proof_len > 0),
{
}

/// Within one native call, however many deliveries the native side attempts
/// and whatever their buffers, at most one reaches the caller's logic; the
/// slot ends fired exactly when one did.
pub proof fn law_callback_fires_at_most_once(checks: Seq<Result<(), Violation>>)
    ensures
        accepted_count(false, checks) <= 1,
        fired_after(false, checks) <==> accepted_count(false, checks) == 1,
    decreases checks.len(),
{
    if checks.len() > 0 {
        let first = delivery_outcome(false, checks[0]);
        if first is Ok {
            lemma_fired_slot_accepts_none(checks.drop_first());
        } else {
            law_callback_fires_at_most_once(checks.drop_first());
        }
    }
}

/// Once the slot has fired, no further delivery reaches the caller's logic.
pub proof fn lemma_fired_slot_accepts_none(checks: Seq<Result<(), Violation>>)
    ensures
        accepted_count(true, checks) == 0,
        fired_after(true, checks),
    decreases checks.len(),
{
    if checks.len() > 0 {
        lemma_fired_slot_accepts_none(checks.drop_first());
    }
}

} // verus!
