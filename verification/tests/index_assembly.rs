use std::sync::Arc;
use plonk_core::cs::{CircuitGate, ConstraintSystem};
use plonk_core::prover_index::ProverIndex;
use plonk_core::srs::SRS;
use plonk_core::testing::{new_index_for_test, ENDO_CONSTANT, FP_SPONGE_SEED, FQ_SPONGE_SEED};
use plonk_core::IndexError;

fn gate(i: u64) -> CircuitGate {
    CircuitGate { ql: i + 1, qr: i + 2, qo: i + 3, qm: i + 4, qc: i + 5 }
}

fn gates(n: usize) -> Vec<CircuitGate> {
    (0..n).map(|i| gate(i as u64)).collect()
}

#[test]
fn capacity_check_fails_fast() {
    // domain size 16, basis size 8, one public input: configuration error
    let cs = ConstraintSystem::create(gates(15), Vec::new(), FP_SPONGE_SEED, 1).unwrap();
    assert_eq!(cs.domain.size, 16);
    let srs = Arc::new(SRS::create(8));
    let r = ProverIndex::create(cs, FQ_SPONGE_SEED, ENDO_CONSTANT, srs);
    assert_eq!(r.err(), Some(IndexError::SetupTooSmall));
}

#[test]
fn capacity_check_passes_without_public_inputs() {
    // same small basis, but no public inputs declared
    let cs = ConstraintSystem::create(gates(15), Vec::new(), FP_SPONGE_SEED, 0).unwrap();
    let srs = Arc::new(SRS::create(8));
    let r = ProverIndex::create(cs, FQ_SPONGE_SEED, ENDO_CONSTANT, srs);
    assert!(r.is_ok());
}

#[test]
fn quotient_bound_arithmetic() {
    // domain size 8, permutation width 7: the quotient bound is 56
    let idx = new_index_for_test(gates(7), 1).unwrap();
    assert_eq!(idx.cs.domain.size, 8);
    assert_eq!(idx.max_quot_size, 56);
    assert_eq!(idx.max_poly_size, 8);
}

#[test]
fn endomorphism_constant_is_injected() {
    let idx = new_index_for_test(gates(3), 0).unwrap();
    assert_eq!(idx.cs.endo, ENDO_CONSTANT);
}

#[test]
fn index_is_reproducible() {
    let a = new_index_for_test(gates(5), 2).unwrap();
    let b = new_index_for_test(gates(5), 2).unwrap();
    assert_eq!(a.linearization.perm_scalar, b.linearization.perm_scalar);
    assert_eq!(a.powers_of_alpha.ranges, b.powers_of_alpha.ranges);
    assert_eq!(a.max_poly_size, b.max_poly_size);
    assert_eq!(a.max_quot_size, b.max_quot_size);
    assert_eq!(a.cs.qm_comm, b.cs.qm_comm);
    assert_eq!(a.cs.sigma3_comm, b.cs.sigma3_comm);
}

#[test]
fn setup_is_shared_between_indices() {
    let cs1 = ConstraintSystem::create(gates(5), Vec::new(), FP_SPONGE_SEED, 0).unwrap();
    let cs2 = ConstraintSystem::create(gates(3), Vec::new(), FP_SPONGE_SEED, 0).unwrap();
    let srs = Arc::new(SRS::create(64));
    let i1 = ProverIndex::create(cs1, FQ_SPONGE_SEED, ENDO_CONSTANT, Arc::clone(&srs)).unwrap();
    let i2 = ProverIndex::create(cs2, FQ_SPONGE_SEED, ENDO_CONSTANT, Arc::clone(&srs)).unwrap();
    assert_eq!(i1.max_poly_size, 64);
    assert_eq!(i2.max_poly_size, 64);
    assert_eq!(Arc::strong_count(&srs), 3);
}

#[test]
fn lookup_flag_follows_tables() {
    let cs = ConstraintSystem::create(gates(3), vec![9, 9, 9], FP_SPONGE_SEED, 0).unwrap();
    assert!(cs.lookup_enabled);
    let cs = ConstraintSystem::create(gates(3), Vec::new(), FP_SPONGE_SEED, 0).unwrap();
    assert!(!cs.lookup_enabled);
}
