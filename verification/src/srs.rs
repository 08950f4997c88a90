//! The commitment setup and the batched opening check.
//!
//! The commitment group is modeled by the additive group of the scalar
//! field: a commitment is one field element, scalar multiplication of a
//! commitment is field multiplication, and the commitment to a polynomial
//! is its evaluation at the setup's reference point.  The model keeps
//! exactly the structure the protocol relies on — commitments combine
//! homomorphically under scalar weights, and a claimed evaluation at a
//! point is checked through a quotient witness — while every step stays
//! inside verifiable arithmetic.
//!
//! The setup is immutable after creation and is shared read-only (behind a
//! reference-counted handle) by every index built from it.

use vstd::prelude::*;
use crate::field::{
    fr_add, fr_div, fr_mul, fr_sub, fr_wf, spec_fr_add, spec_fr_div, spec_fr_inv, spec_fr_mul,
    spec_fr_sub,
};
use crate::sponge::{spec_squeeze, Sponge};

verus! {

/// The fixed reference point of the model setup.
pub const SETUP_POINT: u64 = 0x1234_5678_9abc_def1;

/// The commitment setup: the size of the commitment basis (the largest
/// polynomial length that can be committed) and the reference point.
#[derive(Clone, Copy, Debug)]
pub struct SRS {
    pub depth: u64,
    pub tau: u64,
}

impl SRS {
    pub open spec fn wf(self) -> bool {
        fr_wf(self.tau)
    }

    /// Create a setup able to commit to polynomials of length up to `depth`.
    pub fn create(depth: u64) -> (s: SRS)
        ensures
            s.depth == depth,
            s.tau == SETUP_POINT,
            s.wf(),
    {
        SRS { depth, tau: SETUP_POINT }
    }

    /// Commit to a polynomial given by its coefficients, low degree first.
    /// Fails when the basis is too small for the polynomial.
    pub fn commit(&self, coeffs: &Vec<u64>) -> (r: Option<u64>)
        requires
            self.wf(),
            forall|i: int| 0 <= i < coeffs@.len() ==> fr_wf(#[trigger] coeffs@[i]),
        ensures
            r is Some <==> coeffs@.len() <= self.depth,
            r matches Some(c) ==> c == spec_poly_eval(coeffs@, self.tau) && fr_wf(c),
    {
        if coeffs.len() as u64 > self.depth {
            return None;
        }
        Some(poly_eval(coeffs, self.tau))
    }

    /// Produce the opening witness for a (combined) commitment, a claimed
    /// (combined) evaluation and an evaluation point: the quotient by
    /// `tau - point` in the model group.
    pub fn open(&self, comm: u64, eval: u64, point: u64) -> (w: u64)
        requires
            self.wf(),
            fr_wf(comm),
            fr_wf(eval),
            fr_wf(point),
        ensures
            w == spec_open(*self, comm, eval, point),
            fr_wf(w),
    {
        fr_div(fr_sub(comm, eval), fr_sub(self.tau, point))
    }

    /// The batched opening check: combine each entry's claimed openings
    /// with powers of its combination challenge, weight the entries'
    /// residuals with challenges squeezed from a transcript seeded by the
    /// caller's randomness, and accept exactly when the single combined
    /// residual vanishes.
    pub fn verify(&self, batch: &Vec<BatchEntry>, seed: u64) -> (r: bool)
        requires
            self.wf(),
            fr_wf(seed),
            forall|i: int| 0 <= i < batch@.len() ==> (#[trigger] batch@[i]).wf(),
        ensures
            r <==> spec_batch_acc(*self, batch@, seed) == 0,
    {
        let mut sponge = Sponge::new(seed);
        let mut acc: u64 = 0;
        let mut i: usize = 0;
        proof {
            assert(batch@.skip(0) =~= batch@);
        }
        while i < batch.len()
            invariant
                self.wf(),
                sponge.wf(),
                fr_wf(acc),
                i <= batch@.len(),
                forall|j: int| 0 <= j < batch@.len() ==> (#[trigger] batch@[j]).wf(),
                spec_batch_acc_from(*self, batch@.skip(i as int), sponge.state, acc)
                    == spec_batch_acc(*self, batch@, seed),
            decreases batch@.len() - i,
        {
            proof {
                assert(batch@.skip(i as int)[0] == batch@[i as int]);
                assert(batch@.skip(i as int).drop_first() =~= batch@.skip(i as int + 1));
            }
            let weight = sponge.challenge();
            let d = entry_residual(self, &batch[i]);
            acc = fr_add(acc, fr_mul(weight, d));
            i = i + 1;
        }
        proof {
            assert(batch@.skip(i as int) =~= Seq::<BatchEntry>::empty());
        }
        acc == 0
    }
}

/// One batched opening obligation: an evaluation point, a combination
/// challenge, the `(commitment, claimed evaluation)` pairs checked jointly,
/// and the opening witness.
#[derive(Clone, Debug)]
pub struct BatchEntry {
    pub point: u64,
    pub combiner: u64,
    pub items: Vec<(u64, u64)>,
    pub opening: u64,
}

impl BatchEntry {
    pub open spec fn wf(self) -> bool {
        &&& fr_wf(self.point)
        &&& fr_wf(self.combiner)
        &&& fr_wf(self.opening)
        &&& forall|i: int|
            0 <= i < self.items@.len() ==> fr_wf((#[trigger] self.items@[i]).0) && fr_wf(
                self.items@[i].1,
            )
    }
}

pub open spec fn spec_poly_eval(coeffs: Seq<u64>, x: u64) -> u64
    decreases coeffs.len(),
{
    if coeffs.len() == 0 {
        0
    } else {
        spec_fr_add(coeffs[0], spec_fr_mul(x, spec_poly_eval(coeffs.drop_first(), x)))
    }
}

/// Evaluate a polynomial (coefficients low degree first) by Horner's rule.
pub fn poly_eval(coeffs: &Vec<u64>, x: u64) -> (r: u64)
    requires
        fr_wf(x),
        forall|i: int| 0 <= i < coeffs@.len() ==> fr_wf(#[trigger] coeffs@[i]),
    ensures
        r == spec_poly_eval(coeffs@, x),
        fr_wf(r),
{
    let mut acc: u64 = 0;
    let mut i: usize = coeffs.len();
    proof {
        assert(coeffs@.skip(i as int) =~= Seq::<u64>::empty());
    }
    while i > 0
        invariant
            fr_wf(x),
            fr_wf(acc),
            i <= coeffs@.len(),
            forall|j: int| 0 <= j < coeffs@.len() ==> fr_wf(#[trigger] coeffs@[j]),
            acc == spec_poly_eval(coeffs@.skip(i as int), x),
        decreases i,
    {
        proof {
            assert(coeffs@.skip(i as int - 1)[0] == coeffs@[i as int - 1]);
            assert(coeffs@.skip(i as int - 1).drop_first() =~= coeffs@.skip(i as int));
        }
        i = i - 1;
        acc = fr_add(coeffs[i], fr_mul(x, acc));
    }
    proof {
        assert(coeffs@.skip(0) =~= coeffs@);
    }
    acc
}

pub open spec fn spec_open(srs: SRS, comm: u64, eval: u64, point: u64) -> u64 {
    spec_fr_div(spec_fr_sub(comm, eval), spec_fr_sub(srs.tau, point))
}

/// The entry's commitments combined by powers of the combination
/// challenge, low index first: `sum combiner^j * c_j`.
pub open spec fn spec_combined(items: Seq<(u64, u64)>, combiner: u64) -> (u64, u64)
    decreases items.len(),
{
    if items.len() == 0 {
        (0, 0)
    } else {
        let rest = spec_combined(items.drop_first(), combiner);
        (
            spec_fr_add(items[0].0, spec_fr_mul(combiner, rest.0)),
            spec_fr_add(items[0].1, spec_fr_mul(combiner, rest.1)),
        )
    }
}

/// The residual of one obligation: combined commitment minus combined
/// claimed evaluation, minus the witness times `tau - point`; zero exactly
/// when the claimed openings are consistent with the witness.
pub open spec fn spec_residual(
    srs: SRS,
    items: Seq<(u64, u64)>,
    combiner: u64,
    point: u64,
    opening: u64,
) -> u64 {
    let ce = spec_combined(items, combiner);
    spec_fr_sub(spec_fr_sub(ce.0, ce.1), spec_fr_mul(opening, spec_fr_sub(srs.tau, point)))
}

pub open spec fn spec_entry_residual(srs: SRS, e: BatchEntry) -> u64 {
    spec_residual(srs, e.items@, e.combiner, e.point, e.opening)
}

/// The accumulated, randomly weighted residual of the whole batch, starting
/// from transcript state `state` and partial sum `acc`.
pub open spec fn spec_batch_acc_from(srs: SRS, batch: Seq<BatchEntry>, state: u64, acc: u64) -> u64
    decreases batch.len(),
{
    if batch.len() == 0 {
        acc
    } else {
        let weight = spec_squeeze(state);
        spec_batch_acc_from(
            srs,
            batch.drop_first(),
            spec_squeeze(state),
            spec_fr_add(acc, spec_fr_mul(weight, spec_entry_residual(srs, batch[0]))),
        )
    }
}

pub open spec fn spec_batch_acc(srs: SRS, batch: Seq<BatchEntry>, seed: u64) -> u64 {
    spec_batch_acc_from(srs, batch, seed, 0)
}

/// Compute one entry's residual.
pub fn entry_residual(srs: &SRS, e: &BatchEntry) -> (r: u64)
    requires
        srs.wf(),
        e.wf(),
    ensures
        r == spec_entry_residual(*srs, *e),
        fr_wf(r),
{
    let mut cacc: u64 = 0;
    let mut eacc: u64 = 0;
    let mut i: usize = e.items.len();
    proof {
        assert(e.items@.skip(i as int) =~= Seq::<(u64, u64)>::empty());
    }
    while i > 0
        invariant
            e.wf(),
            fr_wf(cacc),
            fr_wf(eacc),
            i <= e.items@.len(),
            (cacc, eacc) == spec_combined(e.items@.skip(i as int), e.combiner),
        decreases i,
    {
        proof {
            assert(e.items@.skip(i as int - 1)[0] == e.items@[i as int - 1]);
            assert(e.items@.skip(i as int - 1).drop_first() =~= e.items@.skip(i as int));
        }
        i = i - 1;
        let (c, v) = e.items[i];
        cacc = fr_add(c, fr_mul(e.combiner, cacc));
        eacc = fr_add(v, fr_mul(e.combiner, eacc));
    }
    proof {
        assert(e.items@.skip(0) =~= e.items@);
    }
    fr_sub(fr_sub(cacc, eacc), fr_mul(e.opening, fr_sub(srs.tau, e.point)))
}

/// Honest openings verify: when the inverse used by [`SRS::open`] exists,
/// the witness it returns makes the entry's residual vanish, whatever the
/// combined commitment and evaluation are.  This is the acceptance half of
/// the opening check's soundness story; rejection of altered data is a
/// probabilistic property of the random weights and is exercised by tests.
pub proof fn lemma_honest_opening(srs: SRS, comm: u64, eval: u64, point: u64)
    requires
        srs.wf(),
        fr_wf(comm),
        fr_wf(eval),
        fr_wf(point),
        spec_fr_inv(spec_fr_sub(srs.tau, point)) != 0,
    ensures
        spec_fr_sub(
            spec_fr_sub(comm, eval),
            spec_fr_mul(spec_open(srs, comm, eval, point), spec_fr_sub(srs.tau, point)),
        ) == 0,
{
    reveal(crate::field::spec_fr_sub);
    let m = crate::field::MODULUS;
    let d = spec_fr_sub(srs.tau, point);
    let s = spec_fr_sub(comm, eval);
    let inv = spec_fr_inv(d);
    let w = spec_open(srs, comm, eval, point);
    vstd::arithmetic::div_mod::lemma_mod_bound((srs.tau as int) - (point as int), m as int);
    vstd::arithmetic::div_mod::lemma_mod_bound((comm as int) - (eval as int), m as int);
    crate::field::lemma_fr_pow_wf(d, (m - 2) as nat);
    crate::field::lemma_fr_mul_assoc(s, inv, d);
    crate::field::lemma_fr_mul_one(s);
    assert(spec_fr_mul(w, d) == s);
    assert(spec_fr_sub(s, s) == 0) by {
        vstd::arithmetic::div_mod::lemma_small_mod(0nat, m as nat);
    }
}

} // verus!
