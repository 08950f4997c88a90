//! Finalized constraint systems.
//!
//! A constraint system carries the evaluation domain, the circuit rows with
//! its five selector columns, the permutation wiring (as coset shifts and
//! committed sigma columns), the optional lookup flag, and one late-bound
//! scalar (the endomorphism constant) injected during index assembly.
//! Selector and sigma columns are committed at creation; everything is
//! immutable afterwards.

use vstd::prelude::*;
use crate::domain::Domain;
use crate::field::{fr_mul, fr_wf, spec_fr_mul, spec_fr_pow};
use crate::srs::{poly_eval, spec_poly_eval, SETUP_POINT};

verus! {

/// Coset shifts of the permutation argument's second and third wire.
pub const SHIFT_K1: u64 = 13;
pub const SHIFT_K2: u64 = 17;

/// One gate row: the five selector values of the arithmetic gate.
#[derive(Clone, Copy, Debug, PartialEq, Eq, Structural)]
pub struct CircuitGate {
    pub ql: u64,
    pub qr: u64,
    pub qo: u64,
    pub qm: u64,
    pub qc: u64,
}

impl CircuitGate {
    pub open spec fn wf(self) -> bool {
        fr_wf(self.ql) && fr_wf(self.qr) && fr_wf(self.qo) && fr_wf(self.qm) && fr_wf(self.qc)
    }
}

/// Which selector column of a gate row.
pub open spec fn spec_selector(g: CircuitGate, which: int) -> u64 {
    if which == 0 {
        g.ql
    } else if which == 1 {
        g.qr
    } else if which == 2 {
        g.qo
    } else if which == 3 {
        g.qm
    } else {
        g.qc
    }
}

/// One selector column of the circuit.
pub open spec fn spec_selector_col(gates: Seq<CircuitGate>, which: int) -> Seq<u64> {
    Seq::new(gates.len(), |i: int| spec_selector(gates[i], which))
}

/// The committed value of one selector column.
pub open spec fn spec_selector_comm(gates: Seq<CircuitGate>, which: int) -> u64 {
    spec_poly_eval(spec_selector_col(gates, which), SETUP_POINT)
}

/// One sigma column of the identity wiring: `shift * gen^i` over the domain.
pub open spec fn spec_sigma_col(size: u64, gen: u64, shift: u64) -> Seq<u64> {
    Seq::new(size as nat, |i: int| spec_fr_mul(shift, spec_fr_pow(gen, i as nat)))
}

pub open spec fn spec_sigma_comm(size: u64, gen: u64, shift: u64) -> u64 {
    spec_poly_eval(spec_sigma_col(size, gen, shift), SETUP_POINT)
}

/// The smallest domain size, doubling from `cand`, that holds `needed` rows.
pub open spec fn spec_size_from(cand: u64, needed: u64) -> u64
    decreases needed + needed - cand,
{
    if cand >= needed {
        cand
    } else if cand == 0 || cand >= 0x8000_0000_0000_0000 {
        0
    } else {
        spec_size_from((2 * cand) as u64, needed)
    }
}

pub struct ConstraintSystem {
    pub domain: Domain,
    pub public: usize,
    pub gates: Vec<CircuitGate>,
    pub lookup_enabled: bool,
    /// The late-bound endomorphism constant; zero until index assembly.
    pub endo: u64,
    pub shift_k1: u64,
    pub shift_k2: u64,
    pub ql_comm: u64,
    pub qr_comm: u64,
    pub qo_comm: u64,
    pub qm_comm: u64,
    pub qc_comm: u64,
    pub sigma1_comm: u64,
    pub sigma2_comm: u64,
    pub sigma3_comm: u64,
    pub fp_sponge_params: u64,
}

impl ConstraintSystem {
    pub open spec fn wf(self) -> bool {
        &&& self.domain.wf()
        &&& fr_wf(self.endo)
        &&& fr_wf(self.shift_k1)
        &&& fr_wf(self.shift_k2)
        &&& fr_wf(self.ql_comm)
        &&& fr_wf(self.qr_comm)
        &&& fr_wf(self.qo_comm)
        &&& fr_wf(self.qm_comm)
        &&& fr_wf(self.qc_comm)
        &&& fr_wf(self.sigma1_comm)
        &&& fr_wf(self.sigma2_comm)
        &&& fr_wf(self.sigma3_comm)
        &&& fr_wf(self.fp_sponge_params)
    }

    /// Build a finalized constraint system: size the domain to the gates
    /// and public rows, derive the domain generator, and commit the
    /// selector and sigma columns.  Fails when the rows cannot fit any
    /// supported domain.
    pub fn create(
        gates: Vec<CircuitGate>,
        lookup_tables: Vec<u64>,
        fp_sponge_params: u64,
        public: usize,
    ) -> (r: Option<ConstraintSystem>)
        requires
            forall|i: int| 0 <= i < gates@.len() ==> (#[trigger] gates@[i]).wf(),
            fr_wf(fp_sponge_params),
            gates@.len() + public <= crate::domain::MAX_DOMAIN_SIZE,
        ensures
            r is Some <==> Domain::spec_accepts(
                spec_size_from(1, (gates@.len() + public) as u64),
            ),
            r matches Some(cs) ==> {
                &&& cs.wf()
                &&& cs.domain.size == spec_size_from(1, (gates@.len() + public) as u64)
                &&& cs.domain.group_gen == Domain::spec_gen_of(cs.domain.size)
                &&& cs.public == public
                &&& cs.gates@ == gates@
                &&& cs.lookup_enabled == (lookup_tables@.len() > 0)
                &&& cs.endo == 0
                &&& cs.shift_k1 == SHIFT_K1
                &&& cs.shift_k2 == SHIFT_K2
                &&& cs.ql_comm == spec_selector_comm(gates@, 0)
                &&& cs.qr_comm == spec_selector_comm(gates@, 1)
                &&& cs.qo_comm == spec_selector_comm(gates@, 2)
                &&& cs.qm_comm == spec_selector_comm(gates@, 3)
                &&& cs.qc_comm == spec_selector_comm(gates@, 4)
                &&& cs.sigma1_comm == spec_sigma_comm(cs.domain.size, cs.domain.group_gen, 1)
                &&& cs.sigma2_comm == spec_sigma_comm(
                    cs.domain.size,
                    cs.domain.group_gen,
                    SHIFT_K1,
                )
                &&& cs.sigma3_comm == spec_sigma_comm(
                    cs.domain.size,
                    cs.domain.group_gen,
                    SHIFT_K2,
                )
                &&& cs.fp_sponge_params == fp_sponge_params
            },
    {
        let needed: u64 = gates.len() as u64 + public as u64;
        let mut size: u64 = 1;
        while size < needed
            invariant
                1 <= size,
                needed <= crate::domain::MAX_DOMAIN_SIZE,
                size <= 2 * crate::domain::MAX_DOMAIN_SIZE,
                spec_size_from(size, needed) == spec_size_from(1, needed),
            decreases 2 * needed - size,
        {
            size = 2 * size;
        }
        let domain = match Domain::generate(size) {
            Some(d) => d,
            None => {
                return None;
            },
        };
        let ql_comm = poly_eval(&selector_column(&gates, 0), SETUP_POINT);
        let qr_comm = poly_eval(&selector_column(&gates, 1), SETUP_POINT);
        let qo_comm = poly_eval(&selector_column(&gates, 2), SETUP_POINT);
        let qm_comm = poly_eval(&selector_column(&gates, 3), SETUP_POINT);
        let qc_comm = poly_eval(&selector_column(&gates, 4), SETUP_POINT);
        let sigma1_comm = poly_eval(&sigma_column(&domain, 1), SETUP_POINT);
        let sigma2_comm = poly_eval(&sigma_column(&domain, SHIFT_K1), SETUP_POINT);
        let sigma3_comm = poly_eval(&sigma_column(&domain, SHIFT_K2), SETUP_POINT);
        Some(
            ConstraintSystem {
                domain,
                public,
                gates,
                lookup_enabled: lookup_tables.len() > 0,
                endo: 0,
                shift_k1: SHIFT_K1,
                shift_k2: SHIFT_K2,
                ql_comm,
                qr_comm,
                qo_comm,
                qm_comm,
                qc_comm,
                sigma1_comm,
                sigma2_comm,
                sigma3_comm,
                fp_sponge_params,
            },
        )
    }
}

/// Extract one selector column from the circuit rows.
fn selector_column(gates: &Vec<CircuitGate>, which: u8) -> (r: Vec<u64>)
    requires
        forall|i: int| 0 <= i < gates@.len() ==> (#[trigger] gates@[i]).wf(),
        which < 5,
    ensures
        r@ == spec_selector_col(gates@, which as int),
        forall|i: int| 0 <= i < r@.len() ==> fr_wf(#[trigger] r@[i]),
{
    let mut col: Vec<u64> = Vec::new();
    let mut i: usize = 0;
    while i < gates.len()
        invariant
            forall|j: int| 0 <= j < gates@.len() ==> (#[trigger] gates@[j]).wf(),
            which < 5,
            i <= gates@.len(),
            col@ =~= spec_selector_col(gates@.take(i as int), which as int),
            forall|j: int| 0 <= j < col@.len() ==> fr_wf(#[trigger] col@[j]),
        decreases gates@.len() - i,
    {
        let g = gates[i];
        let v = if which == 0 {
            g.ql
        } else if which == 1 {
            g.qr
        } else if which == 2 {
            g.qo
        } else if which == 3 {
            g.qm
        } else {
            g.qc
        };
        col.push(v);
        proof {
            assert(gates@.take(i as int + 1)[i as int] == gates@[i as int]);
            assert(col@ =~= spec_selector_col(gates@.take(i as int + 1), which as int));
        }
        i = i + 1;
    }
    proof {
        assert(gates@.take(i as int) =~= gates@);
    }
    col
}

/// Build one sigma column of the identity wiring over the domain.
fn sigma_column(domain: &Domain, shift: u64) -> (r: Vec<u64>)
    requires
        domain.wf(),
        fr_wf(shift),
    ensures
        r@ == spec_sigma_col(domain.size, domain.group_gen, shift),
        forall|i: int| 0 <= i < r@.len() ==> fr_wf(#[trigger] r@[i]),
{
    let mut col: Vec<u64> = Vec::new();
    let mut power: u64 = 1;
    let mut i: u64 = 0;
    while i < domain.size
        invariant
            domain.wf(),
            fr_wf(shift),
            fr_wf(power),
            i <= domain.size,
            power == spec_fr_pow(domain.group_gen, i as nat),
            col@ =~= spec_sigma_col(i, domain.group_gen, shift),
            forall|j: int| 0 <= j < col@.len() ==> fr_wf(#[trigger] col@[j]),
        decreases domain.size - i,
    {
        col.push(fr_mul(shift, power));
        proof {
            crate::field::lemma_fr_mul_comm(power, domain.group_gen);
            assert(col@ =~= spec_sigma_col((i + 1) as u64, domain.group_gen, shift));
        }
        power = fr_mul(power, domain.group_gen);
        i = i + 1;
    }
    col
}

} // verus!
