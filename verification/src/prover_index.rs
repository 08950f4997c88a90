//! Index assembly.
//!
//! The index combines a finalized constraint system, the linearization and
//! its alpha blocks, a shared commitment setup, and the transcript
//! parameters into one immutable aggregate, created once per circuit and
//! read concurrently by every verification call.  Only the two capacity
//! scalars are ever persisted; everything else is recomputed through this
//! same constructor on load.

use vstd::prelude::*;
use std::sync::Arc;
use crate::alphas::Alphas;
use crate::cs::ConstraintSystem;
use crate::field::fr_wf;
use crate::linearization::{expr_linearization, spec_alpha_ranges, spec_perm_tokens,
    spec_total_alphas, Linearization, GATE_ALPHAS};
use crate::srs::SRS;
use crate::IndexError;

verus! {

/// The permutation width: how many wire columns the permutation argument
/// spans.
pub const PERMUTS: u64 = 7;

/// The index used by the prover and the verifier.
pub struct ProverIndex {
    /// The finalized constraint system, endomorphism constant injected.
    pub cs: ConstraintSystem,
    /// The symbolic linearization of the circuit.
    pub linearization: Linearization,
    /// The mapping between powers of alpha and constraint families.
    pub powers_of_alpha: Alphas,
    /// The shared, never-mutated commitment setup.
    pub srs: Arc<SRS>,
    /// Largest committable polynomial length (the setup's basis size).
    pub max_poly_size: u64,
    /// Degree bound the quotient-polynomial commitment must support.
    pub max_quot_size: u64,
    /// Transcript parameters of the random-oracle argument.
    pub fq_sponge_params: u64,
}

impl ProverIndex {
    pub open spec fn wf(self) -> bool {
        &&& self.cs.wf()
        &&& self.srs.wf()
        &&& fr_wf(self.fq_sponge_params)
        &&& self.powers_of_alpha.wf()
        &&& self.powers_of_alpha.ranges@ == spec_alpha_ranges(self.cs.lookup_enabled)
        &&& self.linearization.perm_scalar@ == spec_perm_tokens(
            self.cs.domain.size,
            crate::field::spec_fr_inv(self.cs.domain.size),
            GATE_ALPHAS,
        )
        &&& self.max_poly_size == self.srs.depth
        &&& self.max_quot_size == PERMUTS * self.cs.domain.size
        &&& (self.cs.public > 0 ==> self.max_poly_size >= self.cs.domain.size)
    }

    /// Compile the index from a finalized constraint system, transcript
    /// parameters, the late-bound endomorphism constant, and a shared
    /// commitment setup.  Fails fast with a configuration error when
    /// public inputs are declared but the setup's basis cannot hold the
    /// domain: any later commitment would silently truncate the
    /// public-input polynomial.
    pub fn create(
        cs: ConstraintSystem,
        fq_sponge_params: u64,
        endo_q: u64,
        srs: Arc<SRS>,
    ) -> (r: Result<ProverIndex, IndexError>)
        requires
            cs.wf(),
            fr_wf(fq_sponge_params),
            fr_wf(endo_q),
            srs.wf(),
        ensures
            r is Err <==> cs.public > 0 && srs.depth < cs.domain.size,
            r matches Err(e) ==> e == IndexError::SetupTooSmall,
            r matches Ok(idx) ==> {
                &&& idx.wf()
                &&& idx.cs == (ConstraintSystem { endo: endo_q, ..cs })
                &&& idx.powers_of_alpha.ranges@ == spec_alpha_ranges(cs.lookup_enabled)
                &&& idx.powers_of_alpha.next == spec_total_alphas(cs.lookup_enabled)
                &&& idx.linearization.perm_scalar@ == spec_perm_tokens(
                    cs.domain.size,
                    crate::field::spec_fr_inv(cs.domain.size),
                    GATE_ALPHAS,
                )
                &&& idx.srs == srs
                &&& idx.max_poly_size == srs.depth
                &&& idx.max_quot_size == PERMUTS * cs.domain.size
                &&& idx.fq_sponge_params == fq_sponge_params
            },
    {
        let max_poly_size = srs.depth;
        if cs.public > 0 && max_poly_size < cs.domain.size {
            return Err(IndexError::SetupTooSmall);
        }
        let mut cs = cs;
        cs.endo = endo_q;

        // pre-compute the linearization
        let (linearization, powers_of_alpha) = expr_linearization(&cs.domain, cs.lookup_enabled);

        // the degree bound of the quotient polynomial over the supported
        // constraints: one domain-sized factor per permuted wire column
        let max_quot_size = PERMUTS * cs.domain.size;

        Ok(
            ProverIndex {
                cs,
                linearization,
                powers_of_alpha,
                srs,
                max_poly_size,
                max_quot_size,
                fq_sponge_params,
            },
        )
    }
}

} // verus!
