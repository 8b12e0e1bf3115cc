use snark_ffi::{
    accept_keypair_delivery, accept_proof_delivery, finish_keypair, finish_proof, grid_cells,
    plan_decrypt, plan_keypair, plan_load, plan_prove, CallbackSlot, Context, KeypairBuffers,
    LoadCall, ProofBuffers, ProveCall, Violation, KEY_LEN,
};

fn ctx(n: usize) -> Context {
    Context::from_loaded(0x1000, n).unwrap()
}

#[test]
fn grid_cells_is_fourth_power() {
    assert_eq!(grid_cells(0), Some(0));
    assert_eq!(grid_cells(1), Some(1));
    assert_eq!(grid_cells(2), Some(16));
    assert_eq!(grid_cells(3), Some(81));
    assert_eq!(grid_cells(9), Some(6561));
    assert_eq!(grid_cells(255), Some(4_228_250_625));
    assert_eq!(grid_cells(256), Some(4_294_967_296));
    assert_eq!(grid_cells(65_535), Some(18_445_618_199_572_250_625));
    assert_eq!(grid_cells(65_536), None);
    assert_eq!(grid_cells(u32::MAX as usize + 1), None);
    assert_eq!(grid_cells(usize::MAX), None);
}

#[test]
fn context_from_loaded_keeps_handle_and_dimension() {
    let c = Context::from_loaded(0xdead_beef, 9).unwrap();
    assert_eq!(c.keypair(), 0xdead_beef);
    assert_eq!(c.n(), 9);
    assert_eq!(c.cells(), 6561);
    let copy = c;
    assert_eq!(copy.keypair(), c.keypair());
}

#[test]
fn context_from_loaded_rejects_null_handle() {
    assert!(matches!(Context::from_loaded(0, 2), Err(Violation::NullKeypair)));
}

#[test]
fn context_from_loaded_rejects_oversized_dimension() {
    assert!(matches!(Context::from_loaded(8, 65_536), Err(Violation::DimensionTooLarge)));
    assert_eq!(Context::from_loaded(8, 256).unwrap().cells(), 4_294_967_296);
    assert_eq!(Context::from_loaded(8, 65_535).unwrap().n(), 65_535);
}

#[test]
fn plan_keypair_requires_initialization_and_fitting_dimension() {
    assert_eq!(plan_keypair(true, 2), Ok(()));
    assert_eq!(plan_keypair(false, 2), Err(Violation::NotInitialized));
    assert_eq!(plan_keypair(true, 256), Ok(()));
    assert_eq!(plan_keypair(true, 65_535), Ok(()));
    assert_eq!(plan_keypair(true, 65_536), Err(Violation::DimensionTooLarge));
}

#[test]
fn plan_load_passes_lengths() {
    let pk = vec![7u8; 300];
    let vk = vec![9u8; 45];
    assert_eq!(
        plan_load(true, &pk, &vk, 2),
        Ok(LoadCall { proving_key_len: 300, verification_key_len: 45 })
    );
    assert_eq!(
        plan_load(true, &[], &[], 2),
        Ok(LoadCall { proving_key_len: 0, verification_key_len: 0 })
    );
    assert_eq!(plan_load(false, &pk, &vk, 2), Err(Violation::NotInitialized));
    assert_eq!(
        plan_load(true, &pk, &vk, 256),
        Ok(LoadCall { proving_key_len: 300, verification_key_len: 45 })
    );
    assert_eq!(plan_load(true, &pk, &vk, 70_000), Err(Violation::DimensionTooLarge));
}

#[test]
fn prove_scenario_two_by_two_zero_buffers() {
    let c = ctx(2);
    let puzzle = vec![0u8; 16];
    let solution = vec![0u8; 16];
    let key = vec![0u8; 32];
    let h_of_key = vec![0u8; 32];
    assert_eq!(
        plan_prove(true, &c, &puzzle, &solution, &key, &h_of_key),
        Ok(ProveCall { keypair: 0x1000, n: 2 })
    );
}

#[test]
fn prove_before_initialize_is_a_violation() {
    let c = ctx(2);
    let grid = vec![0u8; 16];
    let key = vec![0u8; 32];
    assert_eq!(
        plan_prove(false, &c, &grid, &grid, &key, &key),
        Err(Violation::NotInitialized)
    );
    assert_eq!(plan_decrypt(false, &c, &grid, &key), Err(Violation::NotInitialized));
}

#[test]
fn well_sized_requests_accepted_for_several_dimensions() {
    for n in [0usize, 1, 3, 5] {
        let c = ctx(n);
        let cells = n * n * n * n;
        let grid = vec![1u8; cells];
        let key = vec![2u8; KEY_LEN];
        assert!(plan_load(true, &[1], &[2], n).is_ok());
        assert_eq!(
            plan_prove(true, &c, &grid, &grid, &key, &key),
            Ok(ProveCall { keypair: 0x1000, n: n as u32 })
        );
        let enc = grid.clone();
        assert_eq!(plan_decrypt(true, &c, &enc, &key), Ok(n as u32));
    }
}

#[test]
fn malformed_prove_requests_refused() {
    let c = ctx(2);
    let good = vec![0u8; 16];
    let short = vec![0u8; 15];
    let long = vec![0u8; 17];
    let key = vec![0u8; 32];
    let bad_key = vec![0u8; 31];
    assert_eq!(plan_prove(true, &c, &short, &good, &key, &key), Err(Violation::PuzzleLength));
    assert_eq!(plan_prove(true, &c, &good, &long, &key, &key), Err(Violation::SolutionLength));
    assert_eq!(plan_prove(true, &c, &good, &good, &bad_key, &key), Err(Violation::KeyLength));
    assert_eq!(
        plan_prove(true, &c, &good, &good, &key, &bad_key),
        Err(Violation::HashOfKeyLength)
    );
    assert_eq!(plan_prove(true, &c, &short, &long, &bad_key, &bad_key), Err(Violation::PuzzleLength));
}

#[test]
fn malformed_decrypt_requests_refused() {
    let c = ctx(2);
    let good = vec![0u8; 16];
    let long = vec![0u8; 17];
    let key = vec![0u8; 32];
    let bad_key = vec![0u8; 33];
    assert_eq!(plan_decrypt(true, &c, &long, &key), Err(Violation::EncryptedSolutionLength));
    assert_eq!(plan_decrypt(true, &c, &good, &bad_key), Err(Violation::KeyLength));
    assert_eq!(plan_decrypt(true, &c, &good, &key), Ok(2));
}

#[test]
fn keypair_callback_fires_once() {
    let mut slot = CallbackSlot::new();
    assert!(!slot.has_fired());
    assert!(!finish_keypair(&slot));
    assert_eq!(
        accept_keypair_delivery(&mut slot, 0x10, 5, 0x20, 7),
        Ok(KeypairBuffers { proving_key_len: 5, verification_key_len: 7 })
    );
    assert!(slot.has_fired());
    assert!(finish_keypair(&slot));
    assert_eq!(
        accept_keypair_delivery(&mut slot, 0x10, 5, 0x20, 7),
        Err(Violation::RepeatedCallback)
    );
    assert!(finish_keypair(&slot));
}

#[test]
fn keypair_callback_rejects_bad_buffers() {
    let mut slot = CallbackSlot::new();
    assert_eq!(accept_keypair_delivery(&mut slot, 0, 5, 0x20, 7), Err(Violation::NullBuffer));
    assert_eq!(accept_keypair_delivery(&mut slot, 0x10, 5, 0, 7), Err(Violation::NullBuffer));
    assert_eq!(
        accept_keypair_delivery(&mut slot, 0x10, -1, 0x20, 7),
        Err(Violation::NegativeLength)
    );
    assert!(!slot.has_fired());
    assert_eq!(
        accept_keypair_delivery(&mut slot, 0x10, 0, 0x20, 0),
        Ok(KeypairBuffers { proving_key_len: 0, verification_key_len: 0 })
    );
}

#[test]
fn proof_callback_derives_encrypted_length() {
    let c = ctx(3);
    let mut slot = CallbackSlot::new();
    assert_eq!(
        accept_proof_delivery(&mut slot, &c, 3, 0x100, 0x200, 288),
        Ok(ProofBuffers { encrypted_solution_len: 81, proof_len: 288 })
    );
    assert_eq!(finish_proof(&slot, true), Ok(true));
    assert_eq!(
        accept_proof_delivery(&mut slot, &c, 3, 0x100, 0x200, 288),
        Err(Violation::RepeatedCallback)
    );
}

#[test]
fn proof_callback_rejects_bad_buffers() {
    let c = ctx(3);
    let mut slot = CallbackSlot::new();
    assert_eq!(
        accept_proof_delivery(&mut slot, &c, 4, 0x100, 0x200, 8),
        Err(Violation::DimensionMismatch)
    );
    assert_eq!(accept_proof_delivery(&mut slot, &c, 3, 0, 0x200, 8), Err(Violation::NullBuffer));
    assert_eq!(accept_proof_delivery(&mut slot, &c, 3, 0x100, 0, 8), Err(Violation::NullBuffer));
    assert_eq!(
        accept_proof_delivery(&mut slot, &c, 3, 0x100, 0x200, -8),
        Err(Violation::NegativeLength)
    );
    assert!(!slot.has_fired());
}

#[test]
fn finish_proof_distinguishes_negative_outcome_from_violation() {
    let slot = CallbackSlot::new();
    assert_eq!(finish_proof(&slot, false), Ok(false));
    assert_eq!(finish_proof(&slot, true), Err(Violation::MissingCallback));
}

#[test]
fn prove_scenario_successful_result_needs_nonempty_proof() {
    let c = ctx(2);
    let mut slot = CallbackSlot::new();
    let lens = accept_proof_delivery(&mut slot, &c, 2, 0x100, 0x200, 64).unwrap();
    assert_eq!(lens, ProofBuffers { encrypted_solution_len: 16, proof_len: 64 });
    assert_eq!(slot.delivered(), Some(lens));
    assert_eq!(finish_proof(&slot, true), Ok(true));

    let mut empty = CallbackSlot::new();
    assert_eq!(
        accept_proof_delivery(&mut empty, &c, 2, 0x100, 0x200, 0),
        Ok(ProofBuffers { encrypted_solution_len: 16, proof_len: 0 })
    );
    assert_eq!(finish_proof(&empty, true), Err(Violation::EmptyProof));
    assert_eq!(finish_proof(&empty, false), Ok(false));
}

#[test]
fn proof_callback_views_exact_cells_for_large_dimension() {
    let c = ctx(256);
    let mut slot = CallbackSlot::new();
    assert_eq!(
        accept_proof_delivery(&mut slot, &c, 256, 0x100, 0x200, 10),
        Ok(ProofBuffers { encrypted_solution_len: 4_294_967_296, proof_len: 10 })
    );
    let mut other = CallbackSlot::new();
    assert_eq!(
        accept_proof_delivery(&mut other, &c, 0, 0x100, 0x200, 10),
        Err(Violation::DimensionMismatch)
    );
}

#[test]
fn receive_gates_on_buffers_and_slot() {
    let mut slot = CallbackSlot::new();
    assert_eq!(slot.receive(Err(Violation::NullBuffer)), Err(Violation::NullBuffer));
    assert!(!slot.has_fired());
    assert_eq!(slot.delivered(), None);
    assert_eq!(slot.receive(Ok(7u32)), Ok(7));
    assert_eq!(slot.receive(Ok(9)), Err(Violation::RepeatedCallback));
    assert!(slot.has_fired());
    assert_eq!(slot.delivered(), Some(7));
}

#[test]
fn every_violation_is_described() {
    let all = [
        Violation::NotInitialized,
        Violation::NullKeypair,
        Violation::DimensionTooLarge,
        Violation::KeyMaterialTooLong,
        Violation::PuzzleLength,
        Violation::SolutionLength,
        Violation::KeyLength,
        Violation::HashOfKeyLength,
        Violation::EncryptedSolutionLength,
        Violation::DimensionMismatch,
        Violation::NullBuffer,
        Violation::NegativeLength,
        Violation::RepeatedCallback,
        Violation::MissingCallback,
        Violation::EmptyProof,
    ];
    for (i, a) in all.iter().enumerate() {
        assert!(!a.describe().is_empty());
        for b in all.iter().skip(i + 1) {
            assert_ne!(a.describe(), b.describe());
        }
    }
}
