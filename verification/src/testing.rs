//! Convenience construction of a small index.

use vstd::prelude::*;
use std::sync::Arc;
use crate::cs::{CircuitGate, ConstraintSystem};
use crate::domain::Domain;
use crate::prover_index::ProverIndex;
use crate::srs::SRS;

verus! {

/// Fixed transcript parameters and endomorphism constant of the reference
/// deployment.
pub const FP_SPONGE_SEED: u64 = 0x0f0f_0f0f_0f0f_0f01;
pub const FQ_SPONGE_SEED: u64 = 0x0a0a_0a0a_0a0a_0a02;
pub const ENDO_CONSTANT: u64 = 0x0c0c_0c0c_0c0c_0c03;

/// Build an index for a gate list: size the domain, create a setup whose
/// basis exactly holds the domain, and compile the index.
pub fn new_index_for_test(gates: Vec<CircuitGate>, public: usize) -> (r: Option<ProverIndex>)
    requires
        forall|i: int| 0 <= i < gates@.len() ==> (#[trigger] gates@[i]).wf(),
        gates@.len() + public <= crate::domain::MAX_DOMAIN_SIZE,
    ensures
        r is Some <==> Domain::spec_accepts(
            crate::cs::spec_size_from(1, (gates@.len() + public) as u64),
        ),
        r matches Some(idx) ==> {
            &&& idx.wf()
            &&& idx.cs.public == public
            &&& idx.cs.gates@ == gates@
            &&& idx.cs.domain.size == crate::cs::spec_size_from(
                1,
                (gates@.len() + public) as u64,
            )
            &&& idx.max_poly_size == idx.cs.domain.size
            &&& idx.max_quot_size == crate::prover_index::PERMUTS * idx.cs.domain.size
            &&& idx.fq_sponge_params == FQ_SPONGE_SEED
        },
{
    let cs = match ConstraintSystem::create(gates, Vec::new(), FP_SPONGE_SEED, public) {
        Some(cs) => cs,
        None => {
            return None;
        },
    };
    let srs = SRS::create(cs.domain.size);
    let srs = Arc::new(srs);
    match ProverIndex::create(cs, FQ_SPONGE_SEED, ENDO_CONSTANT, srs) {
        Ok(idx) => Some(idx),
        Err(_) => None,
    }
}

} // verus!
