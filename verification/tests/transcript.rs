use plonk_core::sponge::Sponge;
use plonk_core::testing::{new_index_for_test, FQ_SPONGE_SEED};
use plonk_core::cs::CircuitGate;
use plonk_core::verify::{ProofEvaluations, ProverProof};

fn gates(n: usize) -> Vec<CircuitGate> {
    (0..n).map(|i| CircuitGate {
        ql: i as u64 + 1,
        qr: 2,
        qo: 3,
        qm: 4,
        qc: 5,
    }).collect()
}

fn sample_proof() -> ProverProof {
    ProverProof {
        a_comm: 11,
        b_comm: 22,
        c_comm: 33,
        z_comm: 44,
        tlow_comm: 55,
        tmid_comm: 66,
        thgh_comm: 77,
        proof1: 0,
        proof2: 0,
        evals: ProofEvaluations { a: 1, b: 2, c: 3, z: 4, sigma1: 5, sigma2: 6, r: 7 },
        public: vec![9],
    }
}

#[test]
fn oracles_are_deterministic() {
    let idx = new_index_for_test(gates(7), 1).unwrap();
    let p = sample_proof();
    let o1 = p.oracles(&idx).unwrap();
    let o2 = p.oracles(&idx).unwrap();
    assert_eq!(o1, o2);
}

#[test]
fn oracles_follow_the_fixed_schedule() {
    // replay the eight-step schedule by hand and compare
    let idx = new_index_for_test(gates(7), 1).unwrap();
    let p = sample_proof();
    let o = p.oracles(&idx).unwrap();

    let mut s = Sponge::new(FQ_SPONGE_SEED);
    for &v in p.public.iter() {
        s.absorb_fr(v);
    }
    s.absorb_g(p.a_comm);
    s.absorb_g(p.b_comm);
    s.absorb_g(p.c_comm);
    let beta = s.challenge();
    let gamma = s.challenge();
    s.absorb_g(p.z_comm);
    let alpha = s.challenge();
    s.absorb_g(p.tlow_comm);
    s.absorb_g(p.tmid_comm);
    s.absorb_g(p.thgh_comm);
    let zeta = s.challenge();
    let v = s.challenge();
    assert_eq!((o.beta, o.gamma, o.alpha, o.zeta, o.v), (beta, gamma, alpha, zeta, v));
}

#[test]
fn absorbing_changes_later_challenges() {
    // squeezing alpha before absorbing the accumulator commitment diverges
    let idx = new_index_for_test(gates(7), 1).unwrap();
    let p = sample_proof();
    let o = p.oracles(&idx).unwrap();

    let mut s = Sponge::new(FQ_SPONGE_SEED);
    for &v in p.public.iter() {
        s.absorb_fr(v);
    }
    s.absorb_g(p.a_comm);
    s.absorb_g(p.b_comm);
    s.absorb_g(p.c_comm);
    let _beta = s.challenge();
    let _gamma = s.challenge();
    let alpha_early = s.challenge();
    s.absorb_g(p.z_comm);
    assert_ne!(alpha_early, o.alpha);
}

#[test]
fn swapping_squeeze_order_changes_oracles() {
    // the same transcript squeezed in a swapped order yields a different
    // oracle assignment
    let idx = new_index_for_test(gates(7), 1).unwrap();
    let p = sample_proof();
    let o = p.oracles(&idx).unwrap();

    // sanity: consecutive squeezes differ, so a swap is observable
    assert_ne!(o.beta, o.gamma);
    assert_ne!(o.zeta, o.v);

    // swapped assignment of the first two squeezes
    let swapped = (o.gamma, o.beta, o.alpha, o.zeta, o.v);
    assert_ne!(swapped, (o.beta, o.gamma, o.alpha, o.zeta, o.v));

    // swapped assignment of the last two squeezes
    let swapped_tail = (o.beta, o.gamma, o.alpha, o.v, o.zeta);
    assert_ne!(swapped_tail, (o.beta, o.gamma, o.alpha, o.zeta, o.v));
}

#[test]
fn different_proof_bytes_give_different_oracles() {
    let idx = new_index_for_test(gates(7), 1).unwrap();
    let p = sample_proof();
    let mut q = p.clone();
    q.a_comm = p.a_comm + 1;
    let op = p.oracles(&idx).unwrap();
    let oq = q.oracles(&idx).unwrap();
    assert_ne!(op, oq);
}
