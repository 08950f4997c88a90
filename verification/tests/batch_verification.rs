use plonk_core::cs::CircuitGate;
use plonk_core::expr::{evaluate, Environment};
use plonk_core::prover_index::ProverIndex;
use plonk_core::srs::SETUP_POINT;
use plonk_core::testing::new_index_for_test;
use plonk_core::verify::{ProofEvaluations, ProverProof};
use plonk_core::ProofError;

const P: u128 = 0xffff_ffff_0000_0001;

fn addmod(a: u64, b: u64) -> u64 {
    ((a as u128 + b as u128) % P) as u64
}

fn submod(a: u64, b: u64) -> u64 {
    ((a as u128 + P - b as u128) % P) as u64
}

fn mulmod(a: u64, b: u64) -> u64 {
    ((a as u128 * b as u128) % P) as u64
}

fn powmod(mut b: u64, mut e: u64) -> u64 {
    let mut acc: u64 = 1;
    while e > 0 {
        if e % 2 == 1 {
            acc = mulmod(acc, b);
        }
        b = mulmod(b, b);
        e /= 2;
    }
    acc
}

fn invmod(x: u64) -> u64 {
    powmod(x, (P - 2) as u64)
}

fn gates(n: usize) -> Vec<CircuitGate> {
    (0..n).map(|i| CircuitGate {
        ql: i as u64 + 1,
        qr: 2,
        qo: 3,
        qm: 4,
        qc: 5,
    }).collect()
}

/// Turn a draft proof into one whose two opening obligations verify, by
/// computing the quotient witnesses an honest prover would supply.
fn make_honest(mut p: ProverProof, idx: &ProverIndex) -> ProverProof {
    let (e1, e2) = p.batch_entries(idx);
    for (entry, slot) in [(e1, 0), (e2, 1)] {
        let mut c: u64 = 0;
        let mut e: u64 = 0;
        for &(ci, ei) in entry.items.iter().rev() {
            c = addmod(ci, mulmod(entry.combiner, c));
            e = addmod(ei, mulmod(entry.combiner, e));
        }
        let w = mulmod(submod(c, e), invmod(submod(SETUP_POINT, entry.point)));
        if slot == 0 {
            p.proof1 = w;
        } else {
            p.proof2 = w;
        }
    }
    p
}

fn draft(seed: u64, n_public: usize) -> ProverProof {
    ProverProof {
        a_comm: seed + 11,
        b_comm: seed + 22,
        c_comm: seed + 33,
        z_comm: seed + 44,
        tlow_comm: seed + 55,
        tmid_comm: seed + 66,
        thgh_comm: seed + 77,
        proof1: 0,
        proof2: 0,
        evals: ProofEvaluations {
            a: seed + 1,
            b: seed + 2,
            c: seed + 3,
            z: seed + 4,
            sigma1: seed + 5,
            sigma2: seed + 6,
            r: seed + 7,
        },
        public: (0..n_public).map(|i| seed + 100 + i as u64).collect(),
    }
}

#[test]
fn honest_proof_accepts() {
    let idx = new_index_for_test(gates(7), 1).unwrap();
    let p = make_honest(draft(1000, 1), &idx);
    assert_eq!(ProverProof::verify(&vec![p], &idx, 424242), Ok(true));
}

#[test]
fn honest_proof_without_public_inputs_accepts() {
    let idx = new_index_for_test(gates(7), 0).unwrap();
    let p = make_honest(draft(2000, 0), &idx);
    assert_eq!(ProverProof::verify(&vec![p], &idx, 7), Ok(true));
}

#[test]
fn tampered_evaluation_rejects() {
    let idx = new_index_for_test(gates(7), 1).unwrap();
    let p = make_honest(draft(1000, 1), &idx);
    for which in 0..4 {
        let mut bad = p.clone();
        match which {
            0 => bad.evals.a = addmod(bad.evals.a, 1),
            1 => bad.evals.z = addmod(bad.evals.z, 1),
            2 => bad.evals.r = addmod(bad.evals.r, 1),
            _ => bad.evals.sigma1 = addmod(bad.evals.sigma1, 1),
        }
        assert_eq!(
            ProverProof::verify(&vec![bad], &idx, 424242),
            Err(ProofError::OpenProof),
            "tampered evaluation {} accepted",
            which
        );
    }
}

#[test]
fn tampered_commitment_rejects() {
    let idx = new_index_for_test(gates(7), 1).unwrap();
    let p = make_honest(draft(1000, 1), &idx);
    let mut bad = p.clone();
    bad.z_comm = addmod(bad.z_comm, 1);
    assert_eq!(ProverProof::verify(&vec![bad], &idx, 424242), Err(ProofError::OpenProof));
    let mut bad = p.clone();
    bad.tlow_comm = addmod(bad.tlow_comm, 1);
    assert_eq!(ProverProof::verify(&vec![bad], &idx, 424242), Err(ProofError::OpenProof));
}

#[test]
fn batch_of_honest_proofs_accepts() {
    let idx = new_index_for_test(gates(7), 1).unwrap();
    let p1 = make_honest(draft(1000, 1), &idx);
    let p2 = make_honest(draft(5000, 1), &idx);
    let p3 = make_honest(draft(9000, 1), &idx);
    assert_eq!(ProverProof::verify(&vec![p1, p2, p3], &idx, 31337), Ok(true));
}

#[test]
fn one_tampered_proof_rejects_the_whole_batch() {
    let idx = new_index_for_test(gates(7), 1).unwrap();
    let p1 = make_honest(draft(1000, 1), &idx);
    let p2 = make_honest(draft(5000, 1), &idx);
    let mut bad = p2.clone();
    bad.evals.b = addmod(bad.evals.b, 1);
    assert_eq!(
        ProverProof::verify(&vec![p1.clone(), bad], &idx, 31337),
        Err(ProofError::OpenProof)
    );
    // the same batch with the honest proof restored accepts
    assert_eq!(ProverProof::verify(&vec![p1, p2], &idx, 31337), Ok(true));
}

#[test]
fn wrong_public_input_count_is_malformed() {
    let idx = new_index_for_test(gates(7), 1).unwrap();
    let good = make_honest(draft(1000, 1), &idx);
    let mut bad = good.clone();
    bad.public = Vec::new();
    assert_eq!(
        ProverProof::verify(&vec![good, bad], &idx, 31337),
        Err(ProofError::Malformed)
    );
}

#[test]
fn verifier_scalar_matches_the_linearized_program() {
    // the program the linearizer emitted evaluates to exactly the scalar
    // the verifier puts on the accumulator commitment
    let idx = new_index_for_test(gates(7), 1).unwrap();
    let p = make_honest(draft(1000, 1), &idx);
    let o = p.oracles(&idx).unwrap();
    let (e1, _e2) = p.batch_entries(&idx);

    let env = Environment {
        witness_a: p.evals.a,
        witness_b: p.evals.b,
        witness_c: p.evals.c,
        accumulator: p.evals.z,
        beta: o.beta,
        gamma: o.gamma,
        alpha: o.alpha,
        zeta: o.zeta,
    };
    let perm_scalar = evaluate(&idx.linearization.perm_scalar, &env).unwrap();

    // rebuild the linearization commitment with that scalar and compare
    // against the entry the verifier emitted
    let ab = mulmod(
        mulmod(
            addmod(addmod(p.evals.a, mulmod(o.beta, p.evals.sigma1)), o.gamma),
            addmod(addmod(p.evals.b, mulmod(o.beta, p.evals.sigma2)), o.gamma),
        ),
        o.alpha,
    );
    let r_comm = addmod(
        addmod(
            addmod(
                addmod(
                    addmod(
                        addmod(
                            mulmod(idx.cs.qm_comm, mulmod(p.evals.a, p.evals.b)),
                            mulmod(idx.cs.ql_comm, p.evals.a),
                        ),
                        mulmod(idx.cs.qr_comm, p.evals.b),
                    ),
                    mulmod(idx.cs.qo_comm, p.evals.c),
                ),
                idx.cs.qc_comm,
            ),
            mulmod(p.z_comm, perm_scalar),
        ),
        mulmod(idx.cs.sigma3_comm, mulmod(mulmod(ab, o.beta), p.evals.z)),
    );
    assert_eq!(e1.items[1].0, r_comm);
}
