//! Batch verification of proofs against an index.
//!
//! Per proof: derive the transcript oracles in the fixed absorb/squeeze
//! order, reconstruct the claimed quotient evaluation from public data
//! alone, rebuild the quotient and linearization commitments as weighted
//! combinations, and emit two opening obligations — one at `zeta`, one at
//! the shifted point `zeta * group_gen`.  All obligations of the whole
//! batch go into one batched opening check; a batch with any bad proof
//! rejects as a whole.

use vstd::prelude::*;
use crate::domain::Domain;
use crate::expr::Environment;
use crate::field::{
    fr_add, fr_div, fr_inv, fr_mul, fr_pow, fr_sub, fr_wf, spec_fr_add, spec_fr_div, spec_fr_inv,
    spec_fr_mul, spec_fr_pow, spec_fr_sub,
};
use crate::linearization::GATE_ALPHAS;
use crate::prover_index::ProverIndex;
use crate::sponge::{spec_absorb_fr_seq, spec_squeeze, spec_stir, Sponge, TAG_GROUP};
use crate::srs::{spec_batch_acc_from, spec_residual, BatchEntry};
use crate::ProofError;

verus! {

/// The claimed evaluations carried by a proof: the three witness columns,
/// the permutation accumulator (at the shifted point), the first two sigma
/// columns, and the linearization polynomial, all at the challenge point.
#[derive(Clone, Copy, Debug)]
pub struct ProofEvaluations {
    pub a: u64,
    pub b: u64,
    pub c: u64,
    pub z: u64,
    pub sigma1: u64,
    pub sigma2: u64,
    pub r: u64,
}

impl ProofEvaluations {
    pub open spec fn wf(self) -> bool {
        &&& fr_wf(self.a)
        &&& fr_wf(self.b)
        &&& fr_wf(self.c)
        &&& fr_wf(self.z)
        &&& fr_wf(self.sigma1)
        &&& fr_wf(self.sigma2)
        &&& fr_wf(self.r)
    }
}

/// The five transcript-derived challenges of one proof.
#[derive(Clone, Copy, Debug, PartialEq, Eq, Structural)]
pub struct RandomOracles {
    pub beta: u64,
    pub gamma: u64,
    pub alpha: u64,
    pub zeta: u64,
    pub v: u64,
}

impl RandomOracles {
    pub open spec fn wf(self) -> bool {
        fr_wf(self.beta) && fr_wf(self.gamma) && fr_wf(self.alpha) && fr_wf(self.zeta) && fr_wf(
            self.v,
        )
    }
}

/// A proof: commitments to the witness columns, the permutation
/// accumulator and the quotient chunks, the claimed evaluations, the two
/// opening witnesses, and the public input values.
#[derive(Clone, Debug)]
pub struct ProverProof {
    pub a_comm: u64,
    pub b_comm: u64,
    pub c_comm: u64,
    pub z_comm: u64,
    pub tlow_comm: u64,
    pub tmid_comm: u64,
    pub thgh_comm: u64,
    pub proof1: u64,
    pub proof2: u64,
    pub evals: ProofEvaluations,
    pub public: Vec<u64>,
}

impl ProverProof {
    pub open spec fn wf(self) -> bool {
        &&& fr_wf(self.a_comm)
        &&& fr_wf(self.b_comm)
        &&& fr_wf(self.c_comm)
        &&& fr_wf(self.z_comm)
        &&& fr_wf(self.tlow_comm)
        &&& fr_wf(self.tmid_comm)
        &&& fr_wf(self.thgh_comm)
        &&& fr_wf(self.proof1)
        &&& fr_wf(self.proof2)
        &&& self.evals.wf()
        &&& forall|i: int| 0 <= i < self.public@.len() ==> fr_wf(#[trigger] self.public@[i])
    }
}

/// The transcript state machine: absorb the public inputs, absorb the
/// witness commitments, squeeze `beta` and `gamma`, absorb the accumulator
/// commitment, squeeze `alpha`, absorb the quotient chunk commitments,
/// squeeze `zeta` and `v`.
pub open spec fn spec_oracles(p: ProverProof, params: u64) -> RandomOracles {
    let s0 = spec_absorb_fr_seq(params, p.public@);
    let s1 = spec_stir(
        spec_stir(spec_stir(s0, TAG_GROUP, p.a_comm), TAG_GROUP, p.b_comm),
        TAG_GROUP,
        p.c_comm,
    );
    let beta = spec_squeeze(s1);
    let gamma = spec_squeeze(beta);
    let s2 = spec_stir(gamma, TAG_GROUP, p.z_comm);
    let alpha = spec_squeeze(s2);
    let s3 = spec_stir(
        spec_stir(spec_stir(alpha, TAG_GROUP, p.tlow_comm), TAG_GROUP, p.tmid_comm),
        TAG_GROUP,
        p.thgh_comm,
    );
    let zeta = spec_squeeze(s3);
    let v = spec_squeeze(zeta);
    RandomOracles { beta, gamma, alpha, zeta, v }
}

/// The running sum of public-input Lagrange terms:
/// `acc + sum_i public[i] * gpow_i / (zeta - gpow_i)` with `gpow` the
/// running power of the domain generator.
pub open spec fn spec_pub_from(
    public: Seq<u64>,
    gen: u64,
    zeta: u64,
    gpow: u64,
    acc: u64,
) -> u64
    decreases public.len(),
{
    if public.len() == 0 {
        acc
    } else {
        spec_pub_from(
            public.drop_first(),
            gen,
            zeta,
            spec_fr_mul(gpow, gen),
            spec_fr_add(
                acc,
                spec_fr_mul(spec_fr_mul(public[0], gpow), spec_fr_inv(spec_fr_sub(zeta, gpow))),
            ),
        )
    }
}

/// Evaluation at `zeta` of the interpolant of the public values over the
/// first rows of the domain (barycentric form):
/// `(zeta^n - 1) / n * sum_i public[i] * g^i / (zeta - g^i)`.
pub open spec fn spec_public_eval(public: Seq<u64>, d: Domain, zeta: u64, zeta_n: u64) -> u64 {
    spec_fr_mul(
        spec_fr_mul(spec_pub_from(public, d.group_gen, zeta, 1, 0), spec_fr_sub(zeta_n, 1)),
        spec_fr_inv(d.size),
    )
}

/// The first Lagrange polynomial at `zeta`: `(zeta^n - 1) / (n * (zeta - 1))`.
pub open spec fn spec_l1_eval(d: Domain, zeta: u64, zeta_n: u64) -> u64 {
    spec_fr_mul(
        spec_fr_mul(spec_fr_sub(zeta_n, 1), spec_fr_inv(d.size)),
        spec_fr_inv(spec_fr_sub(zeta, 1)),
    )
}

/// `ab = (a + beta*sigma1 + gamma) * (b + beta*sigma2 + gamma) * alpha`.
pub open spec fn spec_ab(p: ProverProof, o: RandomOracles) -> u64 {
    spec_fr_mul(
        spec_fr_mul(
            spec_fr_add(spec_fr_add(p.evals.a, spec_fr_mul(o.beta, p.evals.sigma1)), o.gamma),
            spec_fr_add(spec_fr_add(p.evals.b, spec_fr_mul(o.beta, p.evals.sigma2)), o.gamma),
        ),
        o.alpha,
    )
}

/// The reconstructed quotient evaluation:
/// `t = (r + public_eval - ab*(c + gamma)*z - L1(zeta)) / (zeta^n - 1)`.
pub open spec fn spec_t_value(p: ProverProof, idx: ProverIndex, o: RandomOracles, zeta_n: u64) -> u64 {
    spec_fr_div(
        spec_fr_sub(
            spec_fr_sub(
                spec_fr_add(
                    p.evals.r,
                    spec_public_eval(p.public@, idx.cs.domain, o.zeta, zeta_n),
                ),
                spec_fr_mul(
                    spec_fr_mul(spec_ab(p, o), spec_fr_add(p.evals.c, o.gamma)),
                    p.evals.z,
                ),
            ),
            spec_l1_eval(idx.cs.domain, o.zeta, zeta_n),
        ),
        spec_fr_sub(zeta_n, 1),
    )
}

/// The reconstructed quotient commitment: the chunk commitments combined
/// with weights `{1, zeta^n, zeta^2n}`.
pub open spec fn spec_t_comm(p: ProverProof, zeta_n: u64) -> u64 {
    spec_fr_add(
        spec_fr_add(p.tlow_comm, spec_fr_mul(zeta_n, p.tmid_comm)),
        spec_fr_mul(spec_fr_mul(zeta_n, zeta_n), p.thgh_comm),
    )
}

/// The permutation argument's scalar on the accumulator commitment:
/// `(a + beta*zeta + gamma)(b + beta*k1*zeta + gamma)(c + beta*k2*zeta + gamma)
///   * z * alpha^s + L1(zeta) * alpha^(s+1)`
/// with `s` the first exponent of the permutation family's alpha block —
/// exactly the scalar structure the linearizer fixed at index-build time.
pub open spec fn spec_perm_scalar(p: ProverProof, idx: ProverIndex, o: RandomOracles, zeta_n: u64) -> u64 {
    let s = GATE_ALPHAS;
    let f1 = spec_fr_add(spec_fr_add(p.evals.a, spec_fr_mul(o.beta, o.zeta)), o.gamma);
    let f2 = spec_fr_add(
        spec_fr_add(p.evals.b, spec_fr_mul(spec_fr_mul(o.beta, idx.cs.shift_k1), o.zeta)),
        o.gamma,
    );
    let f3 = spec_fr_add(
        spec_fr_add(p.evals.c, spec_fr_mul(spec_fr_mul(o.beta, idx.cs.shift_k2), o.zeta)),
        o.gamma,
    );
    spec_fr_add(
        spec_fr_mul(
            spec_fr_mul(spec_fr_mul(spec_fr_mul(f1, f2), f3), p.evals.z),
            spec_fr_pow(o.alpha, s as nat),
        ),
        spec_fr_mul(
            spec_l1_eval(idx.cs.domain, o.zeta, zeta_n),
            spec_fr_pow(o.alpha, (s + 1) as nat),
        ),
    )
}

/// The reconstructed linearization commitment: the index's fixed selector
/// commitments, the accumulator commitment and the third sigma commitment,
/// combined with proof-specific scalars.
pub open spec fn spec_r_comm(p: ProverProof, idx: ProverIndex, o: RandomOracles, zeta_n: u64) -> u64 {
    let ab = spec_ab(p, o);
    spec_fr_add(
        spec_fr_add(
            spec_fr_add(
                spec_fr_add(
                    spec_fr_add(
                        spec_fr_add(
                            spec_fr_mul(idx.cs.qm_comm, spec_fr_mul(p.evals.a, p.evals.b)),
                            spec_fr_mul(idx.cs.ql_comm, p.evals.a),
                        ),
                        spec_fr_mul(idx.cs.qr_comm, p.evals.b),
                    ),
                    spec_fr_mul(idx.cs.qo_comm, p.evals.c),
                ),
                idx.cs.qc_comm,
            ),
            spec_fr_mul(p.z_comm, spec_perm_scalar(p, idx, o, zeta_n)),
        ),
        spec_fr_mul(
            idx.cs.sigma3_comm,
            spec_fr_mul(spec_fr_mul(ab, o.beta), p.evals.z),
        ),
    )
}

/// The seven joint openings of the first obligation, at `zeta`.
pub open spec fn spec_entry1_items(p: ProverProof, idx: ProverIndex) -> Seq<(u64, u64)> {
    let o = spec_oracles(p, idx.fq_sponge_params);
    let zeta_n = spec_fr_pow(o.zeta, idx.cs.domain.size as nat);
    seq![
        (spec_t_comm(p, zeta_n), spec_t_value(p, idx, o, zeta_n)),
        (spec_r_comm(p, idx, o, zeta_n), p.evals.r),
        (p.a_comm, p.evals.a),
        (p.b_comm, p.evals.b),
        (p.c_comm, p.evals.c),
        (idx.cs.sigma1_comm, p.evals.sigma1),
        (idx.cs.sigma2_comm, p.evals.sigma2),
    ]
}

/// The first obligation of a proof has these fields.
pub open spec fn spec_entry1_matches(e: BatchEntry, p: ProverProof, idx: ProverIndex) -> bool {
    let o = spec_oracles(p, idx.fq_sponge_params);
    &&& e.point == o.zeta
    &&& e.combiner == o.v
    &&& e.opening == p.proof1
    &&& e.items@ == spec_entry1_items(p, idx)
}

/// The second obligation: the accumulator's shifted-point opening.
pub open spec fn spec_entry2_matches(e: BatchEntry, p: ProverProof, idx: ProverIndex) -> bool {
    let o = spec_oracles(p, idx.fq_sponge_params);
    &&& e.point == spec_fr_mul(o.zeta, idx.cs.domain.group_gen)
    &&& e.combiner == o.v
    &&& e.opening == p.proof2
    &&& e.items@ == seq![(p.z_comm, p.evals.z)]
}

/// The weighted residual accumulation the batched check performs over the
/// two obligations of every proof, in order.
pub open spec fn spec_verify_acc(
    proofs: Seq<ProverProof>,
    idx: ProverIndex,
    state: u64,
    acc: u64,
) -> u64
    decreases proofs.len(),
{
    if proofs.len() == 0 {
        acc
    } else {
        let p = proofs[0];
        let o = spec_oracles(p, idx.fq_sponge_params);
        let w1 = spec_squeeze(state);
        let acc1 = spec_fr_add(
            acc,
            spec_fr_mul(
                w1,
                spec_residual(*idx.srs, spec_entry1_items(p, idx), o.v, o.zeta, p.proof1),
            ),
        );
        let w2 = spec_squeeze(w1);
        let acc2 = spec_fr_add(
            acc1,
            spec_fr_mul(
                w2,
                spec_residual(
                    *idx.srs,
                    seq![(p.z_comm, p.evals.z)],
                    o.v,
                    spec_fr_mul(o.zeta, idx.cs.domain.group_gen),
                    p.proof2,
                ),
            ),
        );
        spec_verify_acc(proofs.drop_first(), idx, w2, acc2)
    }
}

/// Every proof carries as many public values as the index declares.
pub open spec fn spec_all_well_shaped(proofs: Seq<ProverProof>, idx: ProverIndex) -> bool {
    forall|i: int|
        0 <= i < proofs.len() ==> (#[trigger] proofs[i]).public@.len() == idx.cs.public
}

/// The verdict of batch verification: a shape error before anything
/// cryptographic, then accept exactly when the combined residual vanishes.
pub open spec fn spec_verify_result(
    proofs: Seq<ProverProof>,
    idx: ProverIndex,
    seed: u64,
) -> Result<bool, ProofError> {
    if !spec_all_well_shaped(proofs, idx) {
        Err(ProofError::Malformed)
    } else if spec_verify_acc(proofs, idx, seed, 0) == 0 {
        Ok(true)
    } else {
        Err(ProofError::OpenProof)
    }
}

/// Evaluate the public-input interpolant at `zeta`.
fn public_eval(public: &Vec<u64>, d: &Domain, zeta: u64, zeta_n: u64) -> (r: u64)
    requires
        d.wf(),
        fr_wf(zeta),
        fr_wf(zeta_n),
        forall|i: int| 0 <= i < public@.len() ==> fr_wf(#[trigger] public@[i]),
    ensures
        r == spec_public_eval(public@, *d, zeta, zeta_n),
        fr_wf(r),
{
    let mut acc: u64 = 0;
    let mut gpow: u64 = 1;
    let mut i: usize = 0;
    proof {
        assert(public@.skip(0) =~= public@);
    }
    while i < public.len()
        invariant
            d.wf(),
            fr_wf(zeta),
            fr_wf(acc),
            fr_wf(gpow),
            i <= public@.len(),
            forall|j: int| 0 <= j < public@.len() ==> fr_wf(#[trigger] public@[j]),
            spec_pub_from(public@.skip(i as int), d.group_gen, zeta, gpow, acc) == spec_pub_from(
                public@,
                d.group_gen,
                zeta,
                1,
                0,
            ),
        decreases public@.len() - i,
    {
        proof {
            assert(public@.skip(i as int)[0] == public@[i as int]);
            assert(public@.skip(i as int).drop_first() =~= public@.skip(i as int + 1));
        }
        let term = fr_mul(fr_mul(public[i], gpow), fr_inv(fr_sub(zeta, gpow)));
        acc = fr_add(acc, term);
        gpow = fr_mul(gpow, d.group_gen);
        i = i + 1;
    }
    proof {
        assert(public@.skip(i as int) =~= Seq::<u64>::empty());
    }
    fr_mul(fr_mul(acc, fr_sub(zeta_n, 1)), fr_inv(d.size))
}

impl ProverProof {
    /// Derive the five challenges from the proof's public data and the
    /// index's transcript parameters, in the fixed order.  A pure
    /// function: the same proof bytes always yield the same oracles.
    pub fn oracles(&self, index: &ProverIndex) -> (r: Result<RandomOracles, ProofError>)
        requires
            self.wf(),
            index.wf(),
        ensures
            r == Ok::<RandomOracles, ProofError>(spec_oracles(*self, index.fq_sponge_params)),
            r matches Ok(o) ==> o.wf(),
    {
        let mut oracles = RandomOracles { beta: 0, gamma: 0, alpha: 0, zeta: 0, v: 0 };
        let mut fq_sponge = Sponge::new(index.fq_sponge_params);

        // absorb the public input, witness polycommitments into the argument
        fq_sponge.absorb_fr_all(&self.public);
        fq_sponge.absorb_g(self.a_comm);
        fq_sponge.absorb_g(self.b_comm);
        fq_sponge.absorb_g(self.c_comm);
        // sample beta, gamma oracles
        oracles.beta = fq_sponge.challenge();
        oracles.gamma = fq_sponge.challenge();

        // absorb the accumulator commitment and query alpha
        fq_sponge.absorb_g(self.z_comm);
        oracles.alpha = fq_sponge.challenge();

        // absorb the quotient polycommitments and sample zeta
        fq_sponge.absorb_g(self.tlow_comm);
        fq_sponge.absorb_g(self.tmid_comm);
        fq_sponge.absorb_g(self.thgh_comm);
        oracles.zeta = fq_sponge.challenge();
        // query the opening combination challenge
        oracles.v = fq_sponge.challenge();

        Ok(oracles)
    }

    /// Reconstruct the two opening obligations of this proof from public
    /// data alone.
    pub fn batch_entries(&self, index: &ProverIndex) -> (r: (BatchEntry, BatchEntry))
        requires
            self.wf(),
            index.wf(),
        ensures
            spec_entry1_matches(r.0, *self, *index),
            spec_entry2_matches(r.1, *self, *index),
            r.0.wf(),
            r.1.wf(),
    {
        let o = self.oracles(index).unwrap();
        let n = index.cs.domain.size;
        let zeta_n = fr_pow(o.zeta, n);
        let zeta_2n = fr_mul(zeta_n, zeta_n);

        // the quotient commitment, from its chunks
        let t_comm = fr_add(
            fr_add(self.tlow_comm, fr_mul(zeta_n, self.tmid_comm)),
            fr_mul(zeta_2n, self.thgh_comm),
        );

        // the claimed quotient evaluation, from the public identity
        let pub_at_zeta = public_eval(&self.public, &index.cs.domain, o.zeta, zeta_n);
        let l1_at_zeta = fr_mul(
            fr_mul(fr_sub(zeta_n, 1), fr_inv(n)),
            fr_inv(fr_sub(o.zeta, 1)),
        );
        let ab = fr_mul(
            fr_mul(
                fr_add(fr_add(self.evals.a, fr_mul(o.beta, self.evals.sigma1)), o.gamma),
                fr_add(fr_add(self.evals.b, fr_mul(o.beta, self.evals.sigma2)), o.gamma),
            ),
            o.alpha,
        );
        let t_value = fr_div(
            fr_sub(
                fr_sub(
                    fr_add(self.evals.r, pub_at_zeta),
                    fr_mul(fr_mul(ab, fr_add(self.evals.c, o.gamma)), self.evals.z),
                ),
                l1_at_zeta,
            ),
            fr_sub(zeta_n, 1),
        );

        // the linearization commitment, with the scalar structure the
        // linearizer fixed: the permutation block starts right after the
        // gate block
        let s = GATE_ALPHAS;
        let f1 = fr_add(fr_add(self.evals.a, fr_mul(o.beta, o.zeta)), o.gamma);
        let f2 = fr_add(
            fr_add(self.evals.b, fr_mul(fr_mul(o.beta, index.cs.shift_k1), o.zeta)),
            o.gamma,
        );
        let f3 = fr_add(
            fr_add(self.evals.c, fr_mul(fr_mul(o.beta, index.cs.shift_k2), o.zeta)),
            o.gamma,
        );
        let perm_scalar = fr_add(
            fr_mul(fr_mul(fr_mul(fr_mul(f1, f2), f3), self.evals.z), fr_pow(o.alpha, s)),
            fr_mul(l1_at_zeta, fr_pow(o.alpha, s + 1)),
        );
        let r_comm = fr_add(
            fr_add(
                fr_add(
                    fr_add(
                        fr_add(
                            fr_add(
                                fr_mul(index.cs.qm_comm, fr_mul(self.evals.a, self.evals.b)),
                                fr_mul(index.cs.ql_comm, self.evals.a),
                            ),
                            fr_mul(index.cs.qr_comm, self.evals.b),
                        ),
                        fr_mul(index.cs.qo_comm, self.evals.c),
                    ),
                    index.cs.qc_comm,
                ),
                fr_mul(self.z_comm, perm_scalar),
            ),
            fr_mul(index.cs.sigma3_comm, fr_mul(fr_mul(ab, o.beta), self.evals.z)),
        );

        let mut items1: Vec<(u64, u64)> = Vec::new();
        items1.push((t_comm, t_value));
        items1.push((r_comm, self.evals.r));
        items1.push((self.a_comm, self.evals.a));
        items1.push((self.b_comm, self.evals.b));
        items1.push((self.c_comm, self.evals.c));
        items1.push((index.cs.sigma1_comm, self.evals.sigma1));
        items1.push((index.cs.sigma2_comm, self.evals.sigma2));
        proof {
            assert(items1@ =~= spec_entry1_items(*self, *index));
        }
        let entry1 = BatchEntry { point: o.zeta, combiner: o.v, items: items1, opening: self.proof1 };

        let mut items2: Vec<(u64, u64)> = Vec::new();
        items2.push((self.z_comm, self.evals.z));
        proof {
            assert(items2@ =~= seq![(self.z_comm, self.evals.z)]);
        }
        let entry2 = BatchEntry {
            point: fr_mul(o.zeta, index.cs.domain.group_gen),
            combiner: o.v,
            items: items2,
            opening: self.proof2,
        };
        (entry1, entry2)
    }

    /// Verify a batch of proofs against one index.  A proof of the wrong
    /// shape fails the whole call with a malformed-proof error before the
    /// cryptographic check; otherwise every obligation of every proof goes
    /// into one batched opening check, and its rejection is the
    /// distinguished opening-invalid outcome — never a silent acceptance
    /// of the rest.
    pub fn verify(proofs: &Vec<ProverProof>, index: &ProverIndex, batch_seed: u64) -> (r: Result<
        bool,
        ProofError,
    >)
        requires
            index.wf(),
            fr_wf(batch_seed),
            forall|i: int| 0 <= i < proofs@.len() ==> (#[trigger] proofs@[i]).wf(),
        ensures
            r == spec_verify_result(proofs@, *index, batch_seed),
    {
        let mut i: usize = 0;
        while i < proofs.len()
            invariant
                index.wf(),
                i <= proofs@.len(),
                forall|j: int|
                    0 <= j < i ==> (#[trigger] proofs@[j]).public@.len() == index.cs.public,
            decreases proofs@.len() - i,
        {
            if proofs[i].public.len() != index.cs.public {
                proof {
                    assert(!spec_all_well_shaped(proofs@, *index)) by {
                        assert(proofs@[i as int].public@.len() != index.cs.public);
                    }
                }
                return Err(ProofError::Malformed);
            }
            i = i + 1;
        }

        let mut batch: Vec<BatchEntry> = Vec::new();
        let mut k: usize = 0;
        while k < proofs.len()
            invariant
                index.wf(),
                fr_wf(batch_seed),
                k <= proofs@.len(),
                forall|j: int| 0 <= j < proofs@.len() ==> (#[trigger] proofs@[j]).wf(),
                batch@.len() == 2 * k,
                forall|j: int|
                    0 <= j < k ==> spec_entry1_matches(#[trigger] batch@[2 * j], proofs@[j], *index)
                        && spec_entry2_matches(batch@[2 * j + 1], proofs@[j], *index),
                forall|j: int| 0 <= j < batch@.len() ==> (#[trigger] batch@[j]).wf(),
            decreases proofs@.len() - k,
        {
            let ghost prev = batch@;
            let (e1, e2) = proofs[k].batch_entries(index);
            batch.push(e1);
            batch.push(e2);
            proof {
                assert forall|j: int| 0 <= j < k + 1 implies spec_entry1_matches(
                    #[trigger] batch@[2 * j],
                    proofs@[j],
                    *index,
                ) && spec_entry2_matches(batch@[2 * j + 1], proofs@[j], *index) by {
                    if j < k as int {
                        assert(batch@[2 * j] == prev[2 * j]);
                        assert(batch@[2 * j + 1] == prev[2 * j + 1]);
                    } else {
                        assert(batch@[2 * j] == e1);
                        assert(batch@[2 * j + 1] == e2);
                    }
                }
            }
            k = k + 1;
        }

        proof {
            lemma_acc_bridge(proofs@, *index, batch@, batch_seed, 0);
        }
        match index.srs.verify(&batch, batch_seed) {
            false => Err(ProofError::OpenProof),
            true => Ok(true),
        }
    }
}

/// The leaf values a proof and its oracles supply to the index's program.
pub open spec fn spec_env_of(p: ProverProof, o: RandomOracles) -> Environment {
    Environment {
        witness_a: p.evals.a,
        witness_b: p.evals.b,
        witness_c: p.evals.c,
        accumulator: p.evals.z,
        beta: o.beta,
        gamma: o.gamma,
        alpha: o.alpha,
        zeta: o.zeta,
    }
}

/// The flat program the index carries evaluates, on a proof's leaves and
/// oracles, to exactly the permutation scalar the verifier puts on the
/// accumulator commitment: the verifier reuses the scalar structure the
/// linearizer fixed at index-build time.
pub proof fn lemma_program_matches_verifier_scalar(p: ProverProof, idx: ProverIndex)
    requires
        idx.wf(),
        idx.cs.shift_k1 == crate::cs::SHIFT_K1,
        idx.cs.shift_k2 == crate::cs::SHIFT_K2,
    ensures
        ({
            let o = spec_oracles(p, idx.fq_sponge_params);
            let zeta_n = spec_fr_pow(o.zeta, idx.cs.domain.size as nat);
            crate::expr::spec_evaluate(idx.linearization.perm_scalar@, spec_env_of(p, o))
                == Some(spec_perm_scalar(p, idx, o, zeta_n))
        }),
{
    let o = spec_oracles(p, idx.fq_sponge_params);
    let env = spec_env_of(p, o);
    crate::linearization::lemma_perm_tokens_run(
        idx.cs.domain.size,
        spec_fr_inv(idx.cs.domain.size),
        GATE_ALPHAS,
        env,
    );
}

/// The batched check over the interleaved obligations of a proof sequence
/// accumulates exactly the verifier's per-proof residuals.
proof fn lemma_acc_bridge(
    proofs: Seq<ProverProof>,
    idx: ProverIndex,
    batch: Seq<BatchEntry>,
    state: u64,
    acc: u64,
)
    requires
        batch.len() == 2 * proofs.len(),
        forall|j: int|
            0 <= j < proofs.len() ==> spec_entry1_matches(#[trigger] batch[2 * j], proofs[j], idx)
                && spec_entry2_matches(batch[2 * j + 1], proofs[j], idx),
    ensures
        spec_batch_acc_from(*idx.srs, batch, state, acc) == spec_verify_acc(
            proofs,
            idx,
            state,
            acc,
        ),
    decreases proofs.len(),
{
    if proofs.len() == 0 {
    } else {
        let p = proofs[0];
        let o = spec_oracles(p, idx.fq_sponge_params);
        let e1 = batch[0];
        let e2 = batch[1];
        let j0: int = 0;
        assert(spec_entry1_matches(batch[2 * j0], proofs[j0], idx));
        assert(spec_entry2_matches(batch[2 * j0 + 1], proofs[j0], idx));
        assert(batch[2 * j0] == e1 && batch[2 * j0 + 1] == e2);
        let w1 = spec_squeeze(state);
        let acc1 = spec_fr_add(
            acc,
            spec_fr_mul(w1, crate::srs::spec_entry_residual(*idx.srs, e1)),
        );
        let w2 = spec_squeeze(w1);
        let acc2 = spec_fr_add(
            acc1,
            spec_fr_mul(w2, crate::srs::spec_entry_residual(*idx.srs, e2)),
        );
        let rest_batch = batch.drop_first().drop_first();
        assert forall|j: int| 0 <= j < proofs.drop_first().len() implies spec_entry1_matches(
            #[trigger] rest_batch[2 * j],
            proofs.drop_first()[j],
            idx,
        ) && spec_entry2_matches(rest_batch[2 * j + 1], proofs.drop_first()[j], idx) by {
            assert(rest_batch[2 * j] == batch[2 * (j + 1)]);
            assert(rest_batch[2 * j + 1] == batch[2 * (j + 1) + 1]);
            assert(proofs.drop_first()[j] == proofs[j + 1]);
        }
        lemma_acc_bridge(proofs.drop_first(), idx, rest_batch, w2, acc2);
        let mid = batch.drop_first();
        assert(mid[0] == batch[1]);
        assert(mid.drop_first() =~= rest_batch);
        // the residuals of the two leading entries are the per-proof terms
        assert(crate::srs::spec_entry_residual(*idx.srs, e1) == spec_residual(
            *idx.srs,
            spec_entry1_items(p, idx),
            o.v,
            o.zeta,
            p.proof1,
        ));
        assert(crate::srs::spec_entry_residual(*idx.srs, e2) == spec_residual(
            *idx.srs,
            seq![(p.z_comm, p.evals.z)],
            o.v,
            spec_fr_mul(o.zeta, idx.cs.domain.group_gen),
            p.proof2,
        ));
        // unfold the batched accumulation two steps and the per-proof
        // accumulation one step
        assert(spec_batch_acc_from(*idx.srs, batch, state, acc) == spec_batch_acc_from(
            *idx.srs,
            mid,
            w1,
            acc1,
        ));
        assert(spec_batch_acc_from(*idx.srs, mid, w1, acc1) == spec_batch_acc_from(
            *idx.srs,
            rest_batch,
            w2,
            acc2,
        ));
        assert(spec_verify_acc(proofs, idx, state, acc) == spec_verify_acc(
            proofs.drop_first(),
            idx,
            w2,
            acc2,
        ));
    }
}

} // verus!
