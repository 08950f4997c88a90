//! The constraint linearizer.
//!
//! For each constraint family in fixed order — gate constraints, then the
//! permutation argument, then the optional lookup argument — claim the
//! family's alpha block and combine its identities, weighted by the
//! corresponding powers of alpha, into one flat expression program.
//! Sub-expressions that depend only on the fixed configuration (the coset
//! shifts, the domain size and its inverse) are folded into literal tokens
//! when the program is built, so a re-evaluation only recomputes what
//! genuinely varies per proof.  The whole result is an exact function of
//! the configuration: re-linearizing yields the identical program and the
//! identical alpha ranges.

use vstd::prelude::*;
use crate::alphas::{Alphas, AlphaRange, ArgumentType};
use crate::cs::{SHIFT_K1, SHIFT_K2};
use crate::domain::Domain;
use crate::expr::{spec_evaluate, spec_run, Column, Environment, PolishToken};
use crate::field::{fr_inv, spec_fr_add, spec_fr_inv, spec_fr_mul, spec_fr_pow, spec_fr_sub};

verus! {

/// Independent sub-identities per family: the combined gate identity, the
/// permutation argument's transfer and boundary identities, and the lookup
/// argument's three identities.
pub const GATE_ALPHAS: u64 = 1;
pub const PERM_ALPHAS: u64 = 2;
pub const LOOKUP_ALPHAS: u64 = 3;

/// The symbolic linearization: the flat program of the permutation
/// argument's contribution to the linearized polynomial, re-evaluated by
/// the verifier at each challenge point.
pub struct Linearization {
    pub perm_scalar: Vec<PolishToken>,
}

/// The alpha blocks of a configuration, in registration order.
pub open spec fn spec_alpha_ranges(lookup_enabled: bool) -> Seq<AlphaRange> {
    let base = seq![
        AlphaRange { family: ArgumentType::Gate, start: 0, len: GATE_ALPHAS },
        AlphaRange { family: ArgumentType::Permutation, start: GATE_ALPHAS, len: PERM_ALPHAS },
    ];
    if lookup_enabled {
        base.push(
            AlphaRange {
                family: ArgumentType::Lookup,
                start: (GATE_ALPHAS + PERM_ALPHAS) as u64,
                len: LOOKUP_ALPHAS,
            },
        )
    } else {
        base
    }
}

pub open spec fn spec_total_alphas(lookup_enabled: bool) -> u64 {
    if lookup_enabled {
        (GATE_ALPHAS + PERM_ALPHAS + LOOKUP_ALPHAS) as u64
    } else {
        (GATE_ALPHAS + PERM_ALPHAS) as u64
    }
}

/// The token sequence of the permutation scalar for a domain of size `n`
/// whose size inverse folds to `n_inv`, with the permutation family's
/// block starting at `s`:
///
/// `(a + beta*zeta + gamma) * (b + beta*k1*zeta + gamma)
///    * (c + beta*k2*zeta + gamma) * z * alpha^s
///  + L1(zeta) * alpha^(s+1)`,
///
/// where `L1(zeta) = (zeta^n - 1) * n_inv / (zeta - 1)` is the first
/// Lagrange polynomial, its constant part folded in.
pub open spec fn spec_perm_tokens(n: u64, n_inv: u64, s: u64) -> Seq<PolishToken> {
    seq![
        PolishToken::Cell(Column::WitnessA),
        PolishToken::Beta,
        PolishToken::Zeta,
        PolishToken::Mul,
        PolishToken::Add,
        PolishToken::Gamma,
        PolishToken::Add,
        PolishToken::Cell(Column::WitnessB),
        PolishToken::Beta,
        PolishToken::Literal(SHIFT_K1),
        PolishToken::Mul,
        PolishToken::Zeta,
        PolishToken::Mul,
        PolishToken::Add,
        PolishToken::Gamma,
        PolishToken::Add,
        PolishToken::Mul,
        PolishToken::Cell(Column::WitnessC),
        PolishToken::Beta,
        PolishToken::Literal(SHIFT_K2),
        PolishToken::Mul,
        PolishToken::Zeta,
        PolishToken::Mul,
        PolishToken::Add,
        PolishToken::Gamma,
        PolishToken::Add,
        PolishToken::Mul,
        PolishToken::Cell(Column::Accumulator),
        PolishToken::Mul,
        PolishToken::Alpha,
        PolishToken::Pow(s),
        PolishToken::Mul,
        PolishToken::Zeta,
        PolishToken::Pow(n),
        PolishToken::Literal(1),
        PolishToken::Sub,
        PolishToken::Literal(n_inv),
        PolishToken::Mul,
        PolishToken::Zeta,
        PolishToken::Literal(1),
        PolishToken::Sub,
        PolishToken::Inv,
        PolishToken::Mul,
        PolishToken::Alpha,
        PolishToken::Pow((s + 1) as u64),
        PolishToken::Mul,
        PolishToken::Add,
    ]
}

/// Linearize a configuration: claim alpha blocks for every active family
/// in fixed order and emit the flat program, with the domain-constant
/// structure folded in.
#[verifier::rlimit(100)]
pub fn expr_linearization(domain: &Domain, lookup_enabled: bool) -> (r: (Linearization, Alphas))
    requires
        domain.wf(),
    ensures
        r.1.ranges@ == spec_alpha_ranges(lookup_enabled),
        r.1.next == spec_total_alphas(lookup_enabled),
        r.1.wf(),
        r.0.perm_scalar@ == spec_perm_tokens(
            domain.size,
            spec_fr_inv(domain.size),
            GATE_ALPHAS,
        ),
        forall|i: int|
            0 <= i < r.0.perm_scalar@.len() ==> crate::expr::spec_token_wf(
                #[trigger] r.0.perm_scalar@[i],
            ),
{
    let mut alphas = Alphas::new();
    alphas.register(ArgumentType::Gate, GATE_ALPHAS);
    alphas.register(ArgumentType::Permutation, PERM_ALPHAS);
    if lookup_enabled {
        alphas.register(ArgumentType::Lookup, LOOKUP_ALPHAS);
    }
    proof {
        assert(alphas.ranges@ =~= spec_alpha_ranges(lookup_enabled));
    }
    let perm_start: u64 = GATE_ALPHAS;
    let n_inv = fr_inv(domain.size);
    let mut t: Vec<PolishToken> = Vec::new();
    t.push(PolishToken::Cell(Column::WitnessA));
    t.push(PolishToken::Beta);
    t.push(PolishToken::Zeta);
    t.push(PolishToken::Mul);
    t.push(PolishToken::Add);
    t.push(PolishToken::Gamma);
    t.push(PolishToken::Add);
    t.push(PolishToken::Cell(Column::WitnessB));
    t.push(PolishToken::Beta);
    t.push(PolishToken::Literal(SHIFT_K1));
    t.push(PolishToken::Mul);
    t.push(PolishToken::Zeta);
    t.push(PolishToken::Mul);
    t.push(PolishToken::Add);
    t.push(PolishToken::Gamma);
    t.push(PolishToken::Add);
    t.push(PolishToken::Mul);
    t.push(PolishToken::Cell(Column::WitnessC));
    t.push(PolishToken::Beta);
    t.push(PolishToken::Literal(SHIFT_K2));
    t.push(PolishToken::Mul);
    t.push(PolishToken::Zeta);
    t.push(PolishToken::Mul);
    t.push(PolishToken::Add);
    t.push(PolishToken::Gamma);
    t.push(PolishToken::Add);
    t.push(PolishToken::Mul);
    t.push(PolishToken::Cell(Column::Accumulator));
    t.push(PolishToken::Mul);
    t.push(PolishToken::Alpha);
    t.push(PolishToken::Pow(perm_start));
    t.push(PolishToken::Mul);
    t.push(PolishToken::Zeta);
    t.push(PolishToken::Pow(domain.size));
    t.push(PolishToken::Literal(1));
    t.push(PolishToken::Sub);
    t.push(PolishToken::Literal(n_inv));
    t.push(PolishToken::Mul);
    t.push(PolishToken::Zeta);
    t.push(PolishToken::Literal(1));
    t.push(PolishToken::Sub);
    t.push(PolishToken::Inv);
    t.push(PolishToken::Mul);
    t.push(PolishToken::Alpha);
    t.push(PolishToken::Pow(perm_start + 1));
    t.push(PolishToken::Mul);
    t.push(PolishToken::Add);
    proof {
        assert(t@ =~= spec_perm_tokens(domain.size, spec_fr_inv(domain.size), GATE_ALPHAS));
    }
    (Linearization { perm_scalar: t }, alphas)
}


/// The value the linearizer's program computes, written out.
pub open spec fn spec_program_value(n: u64, n_inv: u64, s: u64, env: Environment) -> u64 {
    spec_fr_add(spec_fr_mul(spec_fr_mul(spec_fr_mul(spec_fr_mul(spec_fr_add(spec_fr_add(env.witness_a, spec_fr_mul(env.beta, env.zeta)), env.gamma), spec_fr_add(spec_fr_add(env.witness_b, spec_fr_mul(spec_fr_mul(env.beta, SHIFT_K1 as u64), env.zeta)), env.gamma)), spec_fr_add(spec_fr_add(env.witness_c, spec_fr_mul(spec_fr_mul(env.beta, SHIFT_K2 as u64), env.zeta)), env.gamma)), env.accumulator), spec_fr_pow(env.alpha, s as nat)), spec_fr_mul(spec_fr_mul(spec_fr_mul(spec_fr_sub(spec_fr_pow(env.zeta, n as nat), 1u64), n_inv), spec_fr_inv(spec_fr_sub(env.zeta, 1u64))), spec_fr_pow(env.alpha, ((s + 1) as u64) as nat)))
}

/// Running the linearizer's emitted token program over any leaf values
/// yields exactly one value: the written-out permutation scalar.
#[verifier::rlimit(100)]
pub proof fn lemma_perm_tokens_run(n: u64, n_inv: u64, s: u64, env: Environment)
    requires
        s < u64::MAX,
    ensures
        spec_evaluate(spec_perm_tokens(n, n_inv, s), env) == Some(
            spec_program_value(n, n_inv, s, env),
        ),
{
    let t = spec_perm_tokens(n, n_inv, s);
    assert(t.skip(0) =~= t);
    assert(t[0] == PolishToken::Cell(Column::WitnessA));
    assert(t.skip(0).drop_first() =~= t.skip(1));
    assert(spec_run(t.skip(0), env, Seq::<u64>::empty()) == spec_run(t.skip(1), env, Seq::<u64>::empty().push(env.witness_a)));
    assert(t[1] == PolishToken::Beta);
    assert(t.skip(1).drop_first() =~= t.skip(2));
    assert(spec_run(t.skip(1), env, Seq::<u64>::empty().push(env.witness_a)) == spec_run(t.skip(2), env, Seq::<u64>::empty().push(env.witness_a).push(env.beta)));
    assert(t[2] == PolishToken::Zeta);
    assert(t.skip(2).drop_first() =~= t.skip(3));
    assert(spec_run(t.skip(2), env, Seq::<u64>::empty().push(env.witness_a).push(env.beta)) == spec_run(t.skip(3), env, Seq::<u64>::empty().push(env.witness_a).push(env.beta).push(env.zeta)));
    assert(Seq::<u64>::empty().push(env.witness_a).push(env.beta).push(env.zeta).drop_last() =~= Seq::<u64>::empty().push(env.witness_a).push(env.beta));
    assert(Seq::<u64>::empty().push(env.witness_a).push(env.beta).push(env.zeta).drop_last().drop_last() =~= Seq::<u64>::empty().push(env.witness_a));
    assert(Seq::<u64>::empty().push(env.witness_a).push(env.beta).push(env.zeta).last() == env.zeta && Seq::<u64>::empty().push(env.witness_a).push(env.beta).push(env.zeta)[3 - 2] == env.beta);
    assert(t[3] == PolishToken::Mul);
    assert(t.skip(3).drop_first() =~= t.skip(4));
    assert(spec_run(t.skip(3), env, Seq::<u64>::empty().push(env.witness_a).push(env.beta).push(env.zeta)) == spec_run(t.skip(4), env, Seq::<u64>::empty().push(env.witness_a).push(spec_fr_mul(env.beta, env.zeta))));
    assert(Seq::<u64>::empty().push(env.witness_a).push(spec_fr_mul(env.beta, env.zeta)).drop_last() =~= Seq::<u64>::empty().push(env.witness_a));
    assert(Seq::<u64>::empty().push(env.witness_a).push(spec_fr_mul(env.beta, env.zeta)).drop_last().drop_last() =~= Seq::<u64>::empty());
    assert(Seq::<u64>::empty().push(env.witness_a).push(spec_fr_mul(env.beta, env.zeta)).last() == spec_fr_mul(env.beta, env.zeta) && Seq::<u64>::empty().push(env.witness_a).push(spec_fr_mul(env.beta, env.zeta))[2 - 2] == env.witness_a);
    assert(t[4] == PolishToken::Add);
    assert(t.skip(4).drop_first() =~= t.skip(5));
    assert(spec_run(t.skip(4), env, Seq::<u64>::empty().push(env.witness_a).push(spec_fr_mul(env.beta, env.zeta))) == spec_run(t.skip(5), env, Seq::<u64>::empty().push(spec_fr_add(env.witness_a, spec_fr_mul(env.beta, env.zeta)))));
    assert(t[5] == PolishToken::Gamma);
    assert(t.skip(5).drop_first() =~= t.skip(6));
    assert(spec_run(t.skip(5), env, Seq::<u64>::empty().push(spec_fr_add(env.witness_a, spec_fr_mul(env.beta, env.zeta)))) == spec_run(t.skip(6), env, Seq::<u64>::empty().push(spec_fr_add(env.witness_a, spec_fr_mul(env.beta, env.zeta))).push(env.gamma)));
    assert(Seq::<u64>::empty().push(spec_fr_add(env.witness_a, spec_fr_mul(env.beta, env.zeta))).push(env.gamma).drop_last() =~= Seq::<u64>::empty().push(spec_fr_add(env.witness_a, spec_fr_mul(env.beta, env.zeta))));
    assert(Seq::<u64>::empty().push(spec_fr_add(env.witness_a, spec_fr_mul(env.beta, env.zeta))).push(env.gamma).drop_last().drop_last() =~= Seq::<u64>::empty());
    assert(Seq::<u64>::empty().push(spec_fr_add(env.witness_a, spec_fr_mul(env.beta, env.zeta))).push(env.gamma).last() == env.gamma && Seq::<u64>::empty().push(spec_fr_add(env.witness_a, spec_fr_mul(env.beta, env.zeta))).push(env.gamma)[2 - 2] == spec_fr_add(env.witness_a, spec_fr_mul(env.beta, env.zeta)));
    assert(t[6] == PolishToken::Add);
    assert(t.skip(6).drop_first() =~= t.skip(7));
    assert(spec_run(t.skip(6), env, Seq::<u64>::empty().push(spec_fr_add(env.witness_a, spec_fr_mul(env.beta, env.zeta))).push(env.gamma)) == spec_run(t.skip(7), env, Seq::<u64>::empty().push(spec_fr_add(spec_fr_add(env.witness_a, spec_fr_mul(env.beta, env.zeta)), env.gamma))));
    assert(t[7] == PolishToken::Cell(Column::WitnessB));
    assert(t.skip(7).drop_first() =~= t.skip(8));
    assert(spec_run(t.skip(7), env, Seq::<u64>::empty().push(spec_fr_add(spec_fr_add(env.witness_a, spec_fr_mul(env.beta, env.zeta)), env.gamma))) == spec_run(t.skip(8), env, Seq::<u64>::empty().push(spec_fr_add(spec_fr_add(env.witness_a, spec_fr_mul(env.beta, env.zeta)), env.gamma)).push(env.witness_b)));
    assert(t[8] == PolishToken::Beta);
    assert(t.skip(8).drop_first() =~= t.skip(9));
    assert(spec_run(t.skip(8), env, Seq::<u64>::empty().push(spec_fr_add(spec_fr_add(env.witness_a, spec_fr_mul(env.beta, env.zeta)), env.gamma)).push(env.witness_b)) == spec_run(t.skip(9), env, Seq::<u64>::empty().push(spec_fr_add(spec_fr_add(env.witness_a, spec_fr_mul(env.beta, env.zeta)), env.gamma)).push(env.witness_b).push(env.beta)));
    assert(t[9] == PolishToken::Literal(SHIFT_K1));
    assert(t.skip(9).drop_first() =~= t.skip(10));
    assert(spec_run(t.skip(9), env, Seq::<u64>::empty().push(spec_fr_add(spec_fr_add(env.witness_a, spec_fr_mul(env.beta, env.zeta)), env.gamma)).push(env.witness_b).push(env.beta)) == spec_run(t.skip(10), env, Seq::<u64>::empty().push(spec_fr_add(spec_fr_add(env.witness_a, spec_fr_mul(env.beta, env.zeta)), env.gamma)).push(env.witness_b).push(env.beta).push(SHIFT_K1 as u64)));
    assert(Seq::<u64>::empty().push(spec_fr_add(spec_fr_add(env.witness_a, spec_fr_mul(env.beta, env.zeta)), env.gamma)).push(env.witness_b).push(env.beta).push(SHIFT_K1 as u64).drop_last() =~= Seq::<u64>::empty().push(spec_fr_add(spec_fr_add(env.witness_a, spec_fr_mul(env.beta, env.zeta)), env.gamma)).push(env.witness_b).push(env.beta));
    assert(Seq::<u64>::empty().push(spec_fr_add(spec_fr_add(env.witness_a, spec_fr_mul(env.beta, env.zeta)), env.gamma)).push(env.witness_b).push(env.beta).push(SHIFT_K1 as u64).drop_last().drop_last() =~= Seq::<u64>::empty().push(spec_fr_add(spec_fr_add(env.witness_a, spec_fr_mul(env.beta, env.zeta)), env.gamma)).push(env.witness_b));
    assert(Seq::<u64>::empty().push(spec_fr_add(spec_fr_add(env.witness_a, spec_fr_mul(env.beta, env.zeta)), env.gamma)).push(env.witness_b).push(env.beta).push(SHIFT_K1 as u64).last() == SHIFT_K1 as u64 && Seq::<u64>::empty().push(spec_fr_add(spec_fr_add(env.witness_a, spec_fr_mul(env.beta, env.zeta)), env.gamma)).push(env.witness_b).push(env.beta).push(SHIFT_K1 as u64)[4 - 2] == env.beta);
    assert(t[10] == PolishToken::Mul);
    assert(t.skip(10).drop_first() =~= t.skip(11));
    assert(spec_run(t.skip(10), env, Seq::<u64>::empty().push(spec_fr_add(spec_fr_add(env.witness_a, spec_fr_mul(env.beta, env.zeta)), env.gamma)).push(env.witness_b).push(env.beta).push(SHIFT_K1 as u64)) == spec_run(t.skip(11), env, Seq::<u64>::empty().push(spec_fr_add(spec_fr_add(env.witness_a, spec_fr_mul(env.beta, env.zeta)), env.gamma)).push(env.witness_b).push(spec_fr_mul(env.beta, SHIFT_K1 as u64))));
    assert(t[11] == PolishToken::Zeta);
    assert(t.skip(11).drop_first() =~= t.skip(12));
    assert(spec_run(t.skip(11), env, Seq::<u64>::empty().push(spec_fr_add(spec_fr_add(env.witness_a, spec_fr_mul(env.beta, env.zeta)), env.gamma)).push(env.witness_b).push(spec_fr_mul(env.beta, SHIFT_K1 as u64))) == spec_run(t.skip(12), env, Seq::<u64>::empty().push(spec_fr_add(spec_fr_add(env.witness_a, spec_fr_mul(env.beta, env.zeta)), env.gamma)).push(env.witness_b).push(spec_fr_mul(env.beta, SHIFT_K1 as u64)).push(env.zeta)));
    assert(Seq::<u64>::empty().push(spec_fr_add(spec_fr_add(env.witness_a, spec_fr_mul(env.beta, env.zeta)), env.gamma)).push(env.witness_b).push(spec_fr_mul(env.beta, SHIFT_K1 as u64)).push(env.zeta).drop_last() =~= Seq::<u64>::empty().push(spec_fr_add(spec_fr_add(env.witness_a, spec_fr_mul(env.beta, env.zeta)), env.gamma)).push(env.witness_b).push(spec_fr_mul(env.beta, SHIFT_K1 as u64)));
    assert(Seq::<u64>::empty().push(spec_fr_add(spec_fr_add(env.witness_a, spec_fr_mul(env.beta, env.zeta)), env.gamma)).push(env.witness_b).push(spec_fr_mul(env.beta, SHIFT_K1 as u64)).push(env.zeta).drop_last().drop_last() =~= Seq::<u64>::empty().push(spec_fr_add(spec_fr_add(env.witness_a, spec_fr_mul(env.beta, env.zeta)), env.gamma)).push(env.witness_b));
    assert(Seq::<u64>::empty().push(spec_fr_add(spec_fr_add(env.witness_a, spec_fr_mul(env.beta, env.zeta)), env.gamma)).push(env.witness_b).push(spec_fr_mul(env.beta, SHIFT_K1 as u64)).push(env.zeta).last() == env.zeta && Seq::<u64>::empty().push(spec_fr_add(spec_fr_add(env.witness_a, spec_fr_mul(env.beta, env.zeta)), env.gamma)).push(env.witness_b).push(spec_fr_mul(env.beta, SHIFT_K1 as u64)).push(env.zeta)[4 - 2] == spec_fr_mul(env.beta, SHIFT_K1 as u64));
    assert(t[12] == PolishToken::Mul);
    assert(t.skip(12).drop_first() =~= t.skip(13));
    assert(spec_run(t.skip(12), env, Seq::<u64>::empty().push(spec_fr_add(spec_fr_add(env.witness_a, spec_fr_mul(env.beta, env.zeta)), env.gamma)).push(env.witness_b).push(spec_fr_mul(env.beta, SHIFT_K1 as u64)).push(env.zeta)) == spec_run(t.skip(13), env, Seq::<u64>::empty().push(spec_fr_add(spec_fr_add(env.witness_a, spec_fr_mul(env.beta, env.zeta)), env.gamma)).push(env.witness_b).push(spec_fr_mul(spec_fr_mul(env.beta, SHIFT_K1 as u64), env.zeta))));
    assert(Seq::<u64>::empty().push(spec_fr_add(spec_fr_add(env.witness_a, spec_fr_mul(env.beta, env.zeta)), env.gamma)).push(env.witness_b).push(spec_fr_mul(spec_fr_mul(env.beta, SHIFT_K1 as u64), env.zeta)).drop_last() =~= Seq::<u64>::empty().push(spec_fr_add(spec_fr_add(env.witness_a, spec_fr_mul(env.beta, env.zeta)), env.gamma)).push(env.witness_b));
    assert(Seq::<u64>::empty().push(spec_fr_add(spec_fr_add(env.witness_a, spec_fr_mul(env.beta, env.zeta)), env.gamma)).push(env.witness_b).push(spec_fr_mul(spec_fr_mul(env.beta, SHIFT_K1 as u64), env.zeta)).drop_last().drop_last() =~= Seq::<u64>::empty().push(spec_fr_add(spec_fr_add(env.witness_a, spec_fr_mul(env.beta, env.zeta)), env.gamma)));
    assert(Seq::<u64>::empty().push(spec_fr_add(spec_fr_add(env.witness_a, spec_fr_mul(env.beta, env.zeta)), env.gamma)).push(env.witness_b).push(spec_fr_mul(spec_fr_mul(env.beta, SHIFT_K1 as u64), env.zeta)).last() == spec_fr_mul(spec_fr_mul(env.beta, SHIFT_K1 as u64), env.zeta) && Seq::<u64>::empty().push(spec_fr_add(spec_fr_add(env.witness_a, spec_fr_mul(env.beta, env.zeta)), env.gamma)).push(env.witness_b).push(spec_fr_mul(spec_fr_mul(env.beta, SHIFT_K1 as u64), env.zeta))[3 - 2] == env.witness_b);
    assert(t[13] == PolishToken::Add);
    assert(t.skip(13).drop_first() =~= t.skip(14));
    assert(spec_run(t.skip(13), env, Seq::<u64>::empty().push(spec_fr_add(spec_fr_add(env.witness_a, spec_fr_mul(env.beta, env.zeta)), env.gamma)).push(env.witness_b).push(spec_fr_mul(spec_fr_mul(env.beta, SHIFT_K1 as u64), env.zeta))) == spec_run(t.skip(14), env, Seq::<u64>::empty().push(spec_fr_add(spec_fr_add(env.witness_a, spec_fr_mul(env.beta, env.zeta)), env.gamma)).push(spec_fr_add(env.witness_b, spec_fr_mul(spec_fr_mul(env.beta, SHIFT_K1 as u64), env.zeta)))));
    assert(t[14] == PolishToken::Gamma);
    assert(t.skip(14).drop_first() =~= t.skip(15));
    assert(spec_run(t.skip(14), env, Seq::<u64>::empty().push(spec_fr_add(spec_fr_add(env.witness_a, spec_fr_mul(env.beta, env.zeta)), env.gamma)).push(spec_fr_add(env.witness_b, spec_fr_mul(spec_fr_mul(env.beta, SHIFT_K1 as u64), env.zeta)))) == spec_run(t.skip(15), env, Seq::<u64>::empty().push(spec_fr_add(spec_fr_add(env.witness_a, spec_fr_mul(env.beta, env.zeta)), env.gamma)).push(spec_fr_add(env.witness_b, spec_fr_mul(spec_fr_mul(env.beta, SHIFT_K1 as u64), env.zeta))).push(env.gamma)));
    assert(Seq::<u64>::empty().push(spec_fr_add(spec_fr_add(env.witness_a, spec_fr_mul(env.beta, env.zeta)), env.gamma)).push(spec_fr_add(env.witness_b, spec_fr_mul(spec_fr_mul(env.beta, SHIFT_K1 as u64), env.zeta))).push(env.gamma).drop_last() =~= Seq::<u64>::empty().push(spec_fr_add(spec_fr_add(env.witness_a, spec_fr_mul(env.beta, env.zeta)), env.gamma)).push(spec_fr_add(env.witness_b, spec_fr_mul(spec_fr_mul(env.beta, SHIFT_K1 as u64), env.zeta))));
    assert(Seq::<u64>::empty().push(spec_fr_add(spec_fr_add(env.witness_a, spec_fr_mul(env.beta, env.zeta)), env.gamma)).push(spec_fr_add(env.witness_b, spec_fr_mul(spec_fr_mul(env.beta, SHIFT_K1 as u64), env.zeta))).push(env.gamma).drop_last().drop_last() =~= Seq::<u64>::empty().push(spec_fr_add(spec_fr_add(env.witness_a, spec_fr_mul(env.beta, env.zeta)), env.gamma)));
    assert(Seq::<u64>::empty().push(spec_fr_add(spec_fr_add(env.witness_a, spec_fr_mul(env.beta, env.zeta)), env.gamma)).push(spec_fr_add(env.witness_b, spec_fr_mul(spec_fr_mul(env.beta, SHIFT_K1 as u64), env.zeta))).push(env.gamma).last() == env.gamma && Seq::<u64>::empty().push(spec_fr_add(spec_fr_add(env.witness_a, spec_fr_mul(env.beta, env.zeta)), env.gamma)).push(spec_fr_add(env.witness_b, spec_fr_mul(spec_fr_mul(env.beta, SHIFT_K1 as u64), env.zeta))).push(env.gamma)[3 - 2] == spec_fr_add(env.witness_b, spec_fr_mul(spec_fr_mul(env.beta, SHIFT_K1 as u64), env.zeta)));
    assert(t[15] == PolishToken::Add);
    assert(t.skip(15).drop_first() =~= t.skip(16));
    assert(spec_run(t.skip(15), env, Seq::<u64>::empty().push(spec_fr_add(spec_fr_add(env.witness_a, spec_fr_mul(env.beta, env.zeta)), env.gamma)).push(spec_fr_add(env.witness_b, spec_fr_mul(spec_fr_mul(env.beta, SHIFT_K1 as u64), env.zeta))).push(env.gamma)) == spec_run(t.skip(16), env, Seq::<u64>::empty().push(spec_fr_add(spec_fr_add(env.witness_a, spec_fr_mul(env.beta, env.zeta)), env.gamma)).push(spec_fr_add(spec_fr_add(env.witness_b, spec_fr_mul(spec_fr_mul(env.beta, SHIFT_K1 as u64), env.zeta)), env.gamma))));
    assert(Seq::<u64>::empty().push(spec_fr_add(spec_fr_add(env.witness_a, spec_fr_mul(env.beta, env.zeta)), env.gamma)).push(spec_fr_add(spec_fr_add(env.witness_b, spec_fr_mul(spec_fr_mul(env.beta, SHIFT_K1 as u64), env.zeta)), env.gamma)).drop_last() =~= Seq::<u64>::empty().push(spec_fr_add(spec_fr_add(env.witness_a, spec_fr_mul(env.beta, env.zeta)), env.gamma)));
    assert(Seq::<u64>::empty().push(spec_fr_add(spec_fr_add(env.witness_a, spec_fr_mul(env.beta, env.zeta)), env.gamma)).push(spec_fr_add(spec_fr_add(env.witness_b, spec_fr_mul(spec_fr_mul(env.beta, SHIFT_K1 as u64), env.zeta)), env.gamma)).drop_last().drop_last() =~= Seq::<u64>::empty());
    assert(Seq::<u64>::empty().push(spec_fr_add(spec_fr_add(env.witness_a, spec_fr_mul(env.beta, env.zeta)), env.gamma)).push(spec_fr_add(spec_fr_add(env.witness_b, spec_fr_mul(spec_fr_mul(env.beta, SHIFT_K1 as u64), env.zeta)), env.gamma)).last() == spec_fr_add(spec_fr_add(env.witness_b, spec_fr_mul(spec_fr_mul(env.beta, SHIFT_K1 as u64), env.zeta)), env.gamma) && Seq::<u64>::empty().push(spec_fr_add(spec_fr_add(env.witness_a, spec_fr_mul(env.beta, env.zeta)), env.gamma)).push(spec_fr_add(spec_fr_add(env.witness_b, spec_fr_mul(spec_fr_mul(env.beta, SHIFT_K1 as u64), env.zeta)), env.gamma))[2 - 2] == spec_fr_add(spec_fr_add(env.witness_a, spec_fr_mul(env.beta, env.zeta)), env.gamma));
    assert(t[16] == PolishToken::Mul);
    assert(t.skip(16).drop_first() =~= t.skip(17));
    assert(spec_run(t.skip(16), env, Seq::<u64>::empty().push(spec_fr_add(spec_fr_add(env.witness_a, spec_fr_mul(env.beta, env.zeta)), env.gamma)).push(spec_fr_add(spec_fr_add(env.witness_b, spec_fr_mul(spec_fr_mul(env.beta, SHIFT_K1 as u64), env.zeta)), env.gamma))) == spec_run(t.skip(17), env, Seq::<u64>::empty().push(spec_fr_mul(spec_fr_add(spec_fr_add(env.witness_a, spec_fr_mul(env.beta, env.zeta)), env.gamma), spec_fr_add(spec_fr_add(env.witness_b, spec_fr_mul(spec_fr_mul(env.beta, SHIFT_K1 as u64), env.zeta)), env.gamma)))));
    assert(t[17] == PolishToken::Cell(Column::WitnessC));
    assert(t.skip(17).drop_first() =~= t.skip(18));
    assert(spec_run(t.skip(17), env, Seq::<u64>::empty().push(spec_fr_mul(spec_fr_add(spec_fr_add(env.witness_a, spec_fr_mul(env.beta, env.zeta)), env.gamma), spec_fr_add(spec_fr_add(env.witness_b, spec_fr_mul(spec_fr_mul(env.beta, SHIFT_K1 as u64), env.zeta)), env.gamma)))) == spec_run(t.skip(18), env, Seq::<u64>::empty().push(spec_fr_mul(spec_fr_add(spec_fr_add(env.witness_a, spec_fr_mul(env.beta, env.zeta)), env.gamma), spec_fr_add(spec_fr_add(env.witness_b, spec_fr_mul(spec_fr_mul(env.beta, SHIFT_K1 as u64), env.zeta)), env.gamma))).push(env.witness_c)));
    assert(t[18] == PolishToken::Beta);
    assert(t.skip(18).drop_first() =~= t.skip(19));
    assert(spec_run(t.skip(18), env, Seq::<u64>::empty().push(spec_fr_mul(spec_fr_add(spec_fr_add(env.witness_a, spec_fr_mul(env.beta, env.zeta)), env.gamma), spec_fr_add(spec_fr_add(env.witness_b, spec_fr_mul(spec_fr_mul(env.beta, SHIFT_K1 as u64), env.zeta)), env.gamma))).push(env.witness_c)) == spec_run(t.skip(19), env, Seq::<u64>::empty().push(spec_fr_mul(spec_fr_add(spec_fr_add(env.witness_a, spec_fr_mul(env.beta, env.zeta)), env.gamma), spec_fr_add(spec_fr_add(env.witness_b, spec_fr_mul(spec_fr_mul(env.beta, SHIFT_K1 as u64), env.zeta)), env.gamma))).push(env.witness_c).push(env.beta)));
    assert(t[19] == PolishToken::Literal(SHIFT_K2));
    assert(t.skip(19).drop_first() =~= t.skip(20));
    assert(spec_run(t.skip(19), env, Seq::<u64>::empty().push(spec_fr_mul(spec_fr_add(spec_fr_add(env.witness_a, spec_fr_mul(env.beta, env.zeta)), env.gamma), spec_fr_add(spec_fr_add(env.witness_b, spec_fr_mul(spec_fr_mul(env.beta, SHIFT_K1 as u64), env.zeta)), env.gamma))).push(env.witness_c).push(env.beta)) == spec_run(t.skip(20), env, Seq::<u64>::empty().push(spec_fr_mul(spec_fr_add(spec_fr_add(env.witness_a, spec_fr_mul(env.beta, env.zeta)), env.gamma), spec_fr_add(spec_fr_add(env.witness_b, spec_fr_mul(spec_fr_mul(env.beta, SHIFT_K1 as u64), env.zeta)), env.gamma))).push(env.witness_c).push(env.beta).push(SHIFT_K2 as u64)));
    assert(Seq::<u64>::empty().push(spec_fr_mul(spec_fr_add(spec_fr_add(env.witness_a, spec_fr_mul(env.beta, env.zeta)), env.gamma), spec_fr_add(spec_fr_add(env.witness_b, spec_fr_mul(spec_fr_mul(env.beta, SHIFT_K1 as u64), env.zeta)), env.gamma))).push(env.witness_c).push(env.beta).push(SHIFT_K2 as u64).drop_last() =~= Seq::<u64>::empty().push(spec_fr_mul(spec_fr_add(spec_fr_add(env.witness_a, spec_fr_mul(env.beta, env.zeta)), env.gamma), spec_fr_add(spec_fr_add(env.witness_b, spec_fr_mul(spec_fr_mul(env.beta, SHIFT_K1 as u64), env.zeta)), env.gamma))).push(env.witness_c).push(env.beta));
    assert(Seq::<u64>::empty().push(spec_fr_mul(spec_fr_add(spec_fr_add(env.witness_a, spec_fr_mul(env.beta, env.zeta)), env.gamma), spec_fr_add(spec_fr_add(env.witness_b, spec_fr_mul(spec_fr_mul(env.beta, SHIFT_K1 as u64), env.zeta)), env.gamma))).push(env.witness_c).push(env.beta).push(SHIFT_K2 as u64).drop_last().drop_last() =~= Seq::<u64>::empty().push(spec_fr_mul(spec_fr_add(spec_fr_add(env.witness_a, spec_fr_mul(env.beta, env.zeta)), env.gamma), spec_fr_add(spec_fr_add(env.witness_b, spec_fr_mul(spec_fr_mul(env.beta, SHIFT_K1 as u64), env.zeta)), env.gamma))).push(env.witness_c));
    assert(Seq::<u64>::empty().push(spec_fr_mul(spec_fr_add(spec_fr_add(env.witness_a, spec_fr_mul(env.beta, env.zeta)), env.gamma), spec_fr_add(spec_fr_add(env.witness_b, spec_fr_mul(spec_fr_mul(env.beta, SHIFT_K1 as u64), env.zeta)), env.gamma))).push(env.witness_c).push(env.beta).push(SHIFT_K2 as u64).last() == SHIFT_K2 as u64 && Seq::<u64>::empty().push(spec_fr_mul(spec_fr_add(spec_fr_add(env.witness_a, spec_fr_mul(env.beta, env.zeta)), env.gamma), spec_fr_add(spec_fr_add(env.witness_b, spec_fr_mul(spec_fr_mul(env.beta, SHIFT_K1 as u64), env.zeta)), env.gamma))).push(env.witness_c).push(env.beta).push(SHIFT_K2 as u64)[4 - 2] == env.beta);
    assert(t[20] == PolishToken::Mul);
    assert(t.skip(20).drop_first() =~= t.skip(21));
    assert(spec_run(t.skip(20), env, Seq::<u64>::empty().push(spec_fr_mul(spec_fr_add(spec_fr_add(env.witness_a, spec_fr_mul(env.beta, env.zeta)), env.gamma), spec_fr_add(spec_fr_add(env.witness_b, spec_fr_mul(spec_fr_mul(env.beta, SHIFT_K1 as u64), env.zeta)), env.gamma))).push(env.witness_c).push(env.beta).push(SHIFT_K2 as u64)) == spec_run(t.skip(21), env, Seq::<u64>::empty().push(spec_fr_mul(spec_fr_add(spec_fr_add(env.witness_a, spec_fr_mul(env.beta, env.zeta)), env.gamma), spec_fr_add(spec_fr_add(env.witness_b, spec_fr_mul(spec_fr_mul(env.beta, SHIFT_K1 as u64), env.zeta)), env.gamma))).push(env.witness_c).push(spec_fr_mul(env.beta, SHIFT_K2 as u64))));
    assert(t[21] == PolishToken::Zeta);
    assert(t.skip(21).drop_first() =~= t.skip(22));
    assert(spec_run(t.skip(21), env, Seq::<u64>::empty().push(spec_fr_mul(spec_fr_add(spec_fr_add(env.witness_a, spec_fr_mul(env.beta, env.zeta)), env.gamma), spec_fr_add(spec_fr_add(env.witness_b, spec_fr_mul(spec_fr_mul(env.beta, SHIFT_K1 as u64), env.zeta)), env.gamma))).push(env.witness_c).push(spec_fr_mul(env.beta, SHIFT_K2 as u64))) == spec_run(t.skip(22), env, Seq::<u64>::empty().push(spec_fr_mul(spec_fr_add(spec_fr_add(env.witness_a, spec_fr_mul(env.beta, env.zeta)), env.gamma), spec_fr_add(spec_fr_add(env.witness_b, spec_fr_mul(spec_fr_mul(env.beta, SHIFT_K1 as u64), env.zeta)), env.gamma))).push(env.witness_c).push(spec_fr_mul(env.beta, SHIFT_K2 as u64)).push(env.zeta)));
    assert(Seq::<u64>::empty().push(spec_fr_mul(spec_fr_add(spec_fr_add(env.witness_a, spec_fr_mul(env.beta, env.zeta)), env.gamma), spec_fr_add(spec_fr_add(env.witness_b, spec_fr_mul(spec_fr_mul(env.beta, SHIFT_K1 as u64), env.zeta)), env.gamma))).push(env.witness_c).push(spec_fr_mul(env.beta, SHIFT_K2 as u64)).push(env.zeta).drop_last() =~= Seq::<u64>::empty().push(spec_fr_mul(spec_fr_add(spec_fr_add(env.witness_a, spec_fr_mul(env.beta, env.zeta)), env.gamma), spec_fr_add(spec_fr_add(env.witness_b, spec_fr_mul(spec_fr_mul(env.beta, SHIFT_K1 as u64), env.zeta)), env.gamma))).push(env.witness_c).push(spec_fr_mul(env.beta, SHIFT_K2 as u64)));
    assert(Seq::<u64>::empty().push(spec_fr_mul(spec_fr_add(spec_fr_add(env.witness_a, spec_fr_mul(env.beta, env.zeta)), env.gamma), spec_fr_add(spec_fr_add(env.witness_b, spec_fr_mul(spec_fr_mul(env.beta, SHIFT_K1 as u64), env.zeta)), env.gamma))).push(env.witness_c).push(spec_fr_mul(env.beta, SHIFT_K2 as u64)).push(env.zeta).drop_last().drop_last() =~= Seq::<u64>::empty().push(spec_fr_mul(spec_fr_add(spec_fr_add(env.witness_a, spec_fr_mul(env.beta, env.zeta)), env.gamma), spec_fr_add(spec_fr_add(env.witness_b, spec_fr_mul(spec_fr_mul(env.beta, SHIFT_K1 as u64), env.zeta)), env.gamma))).push(env.witness_c));
    assert(Seq::<u64>::empty().push(spec_fr_mul(spec_fr_add(spec_fr_add(env.witness_a, spec_fr_mul(env.beta, env.zeta)), env.gamma), spec_fr_add(spec_fr_add(env.witness_b, spec_fr_mul(spec_fr_mul(env.beta, SHIFT_K1 as u64), env.zeta)), env.gamma))).push(env.witness_c).push(spec_fr_mul(env.beta, SHIFT_K2 as u64)).push(env.zeta).last() == env.zeta && Seq::<u64>::empty().push(spec_fr_mul(spec_fr_add(spec_fr_add(env.witness_a, spec_fr_mul(env.beta, env.zeta)), env.gamma), spec_fr_add(spec_fr_add(env.witness_b, spec_fr_mul(spec_fr_mul(env.beta, SHIFT_K1 as u64), env.zeta)), env.gamma))).push(env.witness_c).push(spec_fr_mul(env.beta, SHIFT_K2 as u64)).push(env.zeta)[4 - 2] == spec_fr_mul(env.beta, SHIFT_K2 as u64));
    assert(t[22] == PolishToken::Mul);
    assert(t.skip(22).drop_first() =~= t.skip(23));
    assert(spec_run(t.skip(22), env, Seq::<u64>::empty().push(spec_fr_mul(spec_fr_add(spec_fr_add(env.witness_a, spec_fr_mul(env.beta, env.zeta)), env.gamma), spec_fr_add(spec_fr_add(env.witness_b, spec_fr_mul(spec_fr_mul(env.beta, SHIFT_K1 as u64), env.zeta)), env.gamma))).push(env.witness_c).push(spec_fr_mul(env.beta, SHIFT_K2 as u64)).push(env.zeta)) == spec_run(t.skip(23), env, Seq::<u64>::empty().push(spec_fr_mul(spec_fr_add(spec_fr_add(env.witness_a, spec_fr_mul(env.beta, env.zeta)), env.gamma), spec_fr_add(spec_fr_add(env.witness_b, spec_fr_mul(spec_fr_mul(env.beta, SHIFT_K1 as u64), env.zeta)), env.gamma))).push(env.witness_c).push(spec_fr_mul(spec_fr_mul(env.beta, SHIFT_K2 as u64), env.zeta))));
    assert(Seq::<u64>::empty().push(spec_fr_mul(spec_fr_add(spec_fr_add(env.witness_a, spec_fr_mul(env.beta, env.zeta)), env.gamma), spec_fr_add(spec_fr_add(env.witness_b, spec_fr_mul(spec_fr_mul(env.beta, SHIFT_K1 as u64), env.zeta)), env.gamma))).push(env.witness_c).push(spec_fr_mul(spec_fr_mul(env.beta, SHIFT_K2 as u64), env.zeta)).drop_last() =~= Seq::<u64>::empty().push(spec_fr_mul(spec_fr_add(spec_fr_add(env.witness_a, spec_fr_mul(env.beta, env.zeta)), env.gamma), spec_fr_add(spec_fr_add(env.witness_b, spec_fr_mul(spec_fr_mul(env.beta, SHIFT_K1 as u64), env.zeta)), env.gamma))).push(env.witness_c));
    assert(Seq::<u64>::empty().push(spec_fr_mul(spec_fr_add(spec_fr_add(env.witness_a, spec_fr_mul(env.beta, env.zeta)), env.gamma), spec_fr_add(spec_fr_add(env.witness_b, spec_fr_mul(spec_fr_mul(env.beta, SHIFT_K1 as u64), env.zeta)), env.gamma))).push(env.witness_c).push(spec_fr_mul(spec_fr_mul(env.beta, SHIFT_K2 as u64), env.zeta)).drop_last().drop_last() =~= Seq::<u64>::empty().push(spec_fr_mul(spec_fr_add(spec_fr_add(env.witness_a, spec_fr_mul(env.beta, env.zeta)), env.gamma), spec_fr_add(spec_fr_add(env.witness_b, spec_fr_mul(spec_fr_mul(env.beta, SHIFT_K1 as u64), env.zeta)), env.gamma))));
    assert(Seq::<u64>::empty().push(spec_fr_mul(spec_fr_add(spec_fr_add(env.witness_a, spec_fr_mul(env.beta, env.zeta)), env.gamma), spec_fr_add(spec_fr_add(env.witness_b, spec_fr_mul(spec_fr_mul(env.beta, SHIFT_K1 as u64), env.zeta)), env.gamma))).push(env.witness_c).push(spec_fr_mul(spec_fr_mul(env.beta, SHIFT_K2 as u64), env.zeta)).last() == spec_fr_mul(spec_fr_mul(env.beta, SHIFT_K2 as u64), env.zeta) && Seq::<u64>::empty().push(spec_fr_mul(spec_fr_add(spec_fr_add(env.witness_a, spec_fr_mul(env.beta, env.zeta)), env.gamma), spec_fr_add(spec_fr_add(env.witness_b, spec_fr_mul(spec_fr_mul(env.beta, SHIFT_K1 as u64), env.zeta)), env.gamma))).push(env.witness_c).push(spec_fr_mul(spec_fr_mul(env.beta, SHIFT_K2 as u64), env.zeta))[3 - 2] == env.witness_c);
    assert(t[23] == PolishToken::Add);
    assert(t.skip(23).drop_first() =~= t.skip(24));
    assert(spec_run(t.skip(23), env, Seq::<u64>::empty().push(spec_fr_mul(spec_fr_add(spec_fr_add(env.witness_a, spec_fr_mul(env.beta, env.zeta)), env.gamma), spec_fr_add(spec_fr_add(env.witness_b, spec_fr_mul(spec_fr_mul(env.beta, SHIFT_K1 as u64), env.zeta)), env.gamma))).push(env.witness_c).push(spec_fr_mul(spec_fr_mul(env.beta, SHIFT_K2 as u64), env.zeta))) == spec_run(t.skip(24), env, Seq::<u64>::empty().push(spec_fr_mul(spec_fr_add(spec_fr_add(env.witness_a, spec_fr_mul(env.beta, env.zeta)), env.gamma), spec_fr_add(spec_fr_add(env.witness_b, spec_fr_mul(spec_fr_mul(env.beta, SHIFT_K1 as u64), env.zeta)), env.gamma))).push(spec_fr_add(env.witness_c, spec_fr_mul(spec_fr_mul(env.beta, SHIFT_K2 as u64), env.zeta)))));
    assert(t[24] == PolishToken::Gamma);
    assert(t.skip(24).drop_first() =~= t.skip(25));
    assert(spec_run(t.skip(24), env, Seq::<u64>::empty().push(spec_fr_mul(spec_fr_add(spec_fr_add(env.witness_a, spec_fr_mul(env.beta, env.zeta)), env.gamma), spec_fr_add(spec_fr_add(env.witness_b, spec_fr_mul(spec_fr_mul(env.beta, SHIFT_K1 as u64), env.zeta)), env.gamma))).push(spec_fr_add(env.witness_c, spec_fr_mul(spec_fr_mul(env.beta, SHIFT_K2 as u64), env.zeta)))) == spec_run(t.skip(25), env, Seq::<u64>::empty().push(spec_fr_mul(spec_fr_add(spec_fr_add(env.witness_a, spec_fr_mul(env.beta, env.zeta)), env.gamma), spec_fr_add(spec_fr_add(env.witness_b, spec_fr_mul(spec_fr_mul(env.beta, SHIFT_K1 as u64), env.zeta)), env.gamma))).push(spec_fr_add(env.witness_c, spec_fr_mul(spec_fr_mul(env.beta, SHIFT_K2 as u64), env.zeta))).push(env.gamma)));
    assert(Seq::<u64>::empty().push(spec_fr_mul(spec_fr_add(spec_fr_add(env.witness_a, spec_fr_mul(env.beta, env.zeta)), env.gamma), spec_fr_add(spec_fr_add(env.witness_b, spec_fr_mul(spec_fr_mul(env.beta, SHIFT_K1 as u64), env.zeta)), env.gamma))).push(spec_fr_add(env.witness_c, spec_fr_mul(spec_fr_mul(env.beta, SHIFT_K2 as u64), env.zeta))).push(env.gamma).drop_last() =~= Seq::<u64>::empty().push(spec_fr_mul(spec_fr_add(spec_fr_add(env.witness_a, spec_fr_mul(env.beta, env.zeta)), env.gamma), spec_fr_add(spec_fr_add(env.witness_b, spec_fr_mul(spec_fr_mul(env.beta, SHIFT_K1 as u64), env.zeta)), env.gamma))).push(spec_fr_add(env.witness_c, spec_fr_mul(spec_fr_mul(env.beta, SHIFT_K2 as u64), env.zeta))));
    assert(Seq::<u64>::empty().push(spec_fr_mul(spec_fr_add(spec_fr_add(env.witness_a, spec_fr_mul(env.beta, env.zeta)), env.gamma), spec_fr_add(spec_fr_add(env.witness_b, spec_fr_mul(spec_fr_mul(env.beta, SHIFT_K1 as u64), env.zeta)), env.gamma))).push(spec_fr_add(env.witness_c, spec_fr_mul(spec_fr_mul(env.beta, SHIFT_K2 as u64), env.zeta))).push(env.gamma).drop_last().drop_last() =~= Seq::<u64>::empty().push(spec_fr_mul(spec_fr_add(spec_fr_add(env.witness_a, spec_fr_mul(env.beta, env.zeta)), env.gamma), spec_fr_add(spec_fr_add(env.witness_b, spec_fr_mul(spec_fr_mul(env.beta, SHIFT_K1 as u64), env.zeta)), env.gamma))));
    assert(Seq::<u64>::empty().push(spec_fr_mul(spec_fr_add(spec_fr_add(env.witness_a, spec_fr_mul(env.beta, env.zeta)), env.gamma), spec_fr_add(spec_fr_add(env.witness_b, spec_fr_mul(spec_fr_mul(env.beta, SHIFT_K1 as u64), env.zeta)), env.gamma))).push(spec_fr_add(env.witness_c, spec_fr_mul(spec_fr_mul(env.beta, SHIFT_K2 as u64), env.zeta))).push(env.gamma).last() == env.gamma && Seq::<u64>::empty().push(spec_fr_mul(spec_fr_add(spec_fr_add(env.witness_a, spec_fr_mul(env.beta, env.zeta)), env.gamma), spec_fr_add(spec_fr_add(env.witness_b, spec_fr_mul(spec_fr_mul(env.beta, SHIFT_K1 as u64), env.zeta)), env.gamma))).push(spec_fr_add(env.witness_c, spec_fr_mul(spec_fr_mul(env.beta, SHIFT_K2 as u64), env.zeta))).push(env.gamma)[3 - 2] == spec_fr_add(env.witness_c, spec_fr_mul(spec_fr_mul(env.beta, SHIFT_K2 as u64), env.zeta)));
    assert(t[25] == PolishToken::Add);
    assert(t.skip(25).drop_first() =~= t.skip(26));
    assert(spec_run(t.skip(25), env, Seq::<u64>::empty().push(spec_fr_mul(spec_fr_add(spec_fr_add(env.witness_a, spec_fr_mul(env.beta, env.zeta)), env.gamma), spec_fr_add(spec_fr_add(env.witness_b, spec_fr_mul(spec_fr_mul(env.beta, SHIFT_K1 as u64), env.zeta)), env.gamma))).push(spec_fr_add(env.witness_c, spec_fr_mul(spec_fr_mul(env.beta, SHIFT_K2 as u64), env.zeta))).push(env.gamma)) == spec_run(t.skip(26), env, Seq::<u64>::empty().push(spec_fr_mul(spec_fr_add(spec_fr_add(env.witness_a, spec_fr_mul(env.beta, env.zeta)), env.gamma), spec_fr_add(spec_fr_add(env.witness_b, spec_fr_mul(spec_fr_mul(env.beta, SHIFT_K1 as u64), env.zeta)), env.gamma))).push(spec_fr_add(spec_fr_add(env.witness_c, spec_fr_mul(spec_fr_mul(env.beta, SHIFT_K2 as u64), env.zeta)), env.gamma))));
    assert(Seq::<u64>::empty().push(spec_fr_mul(spec_fr_add(spec_fr_add(env.witness_a, spec_fr_mul(env.beta, env.zeta)), env.gamma), spec_fr_add(spec_fr_add(env.witness_b, spec_fr_mul(spec_fr_mul(env.beta, SHIFT_K1 as u64), env.zeta)), env.gamma))).push(spec_fr_add(spec_fr_add(env.witness_c, spec_fr_mul(spec_fr_mul(env.beta, SHIFT_K2 as u64), env.zeta)), env.gamma)).drop_last() =~= Seq::<u64>::empty().push(spec_fr_mul(spec_fr_add(spec_fr_add(env.witness_a, spec_fr_mul(env.beta, env.zeta)), env.gamma), spec_fr_add(spec_fr_add(env.witness_b, spec_fr_mul(spec_fr_mul(env.beta, SHIFT_K1 as u64), env.zeta)), env.gamma))));
    assert(Seq::<u64>::empty().push(spec_fr_mul(spec_fr_add(spec_fr_add(env.witness_a, spec_fr_mul(env.beta, env.zeta)), env.gamma), spec_fr_add(spec_fr_add(env.witness_b, spec_fr_mul(spec_fr_mul(env.beta, SHIFT_K1 as u64), env.zeta)), env.gamma))).push(spec_fr_add(spec_fr_add(env.witness_c, spec_fr_mul(spec_fr_mul(env.beta, SHIFT_K2 as u64), env.zeta)), env.gamma)).drop_last().drop_last() =~= Seq::<u64>::empty());
    assert(Seq::<u64>::empty().push(spec_fr_mul(spec_fr_add(spec_fr_add(env.witness_a, spec_fr_mul(env.beta, env.zeta)), env.gamma), spec_fr_add(spec_fr_add(env.witness_b, spec_fr_mul(spec_fr_mul(env.beta, SHIFT_K1 as u64), env.zeta)), env.gamma))).push(spec_fr_add(spec_fr_add(env.witness_c, spec_fr_mul(spec_fr_mul(env.beta, SHIFT_K2 as u64), env.zeta)), env.gamma)).last() == spec_fr_add(spec_fr_add(env.witness_c, spec_fr_mul(spec_fr_mul(env.beta, SHIFT_K2 as u64), env.zeta)), env.gamma) && Seq::<u64>::empty().push(spec_fr_mul(spec_fr_add(spec_fr_add(env.witness_a, spec_fr_mul(env.beta, env.zeta)), env.gamma), spec_fr_add(spec_fr_add(env.witness_b, spec_fr_mul(spec_fr_mul(env.beta, SHIFT_K1 as u64), env.zeta)), env.gamma))).push(spec_fr_add(spec_fr_add(env.witness_c, spec_fr_mul(spec_fr_mul(env.beta, SHIFT_K2 as u64), env.zeta)), env.gamma))[2 - 2] == spec_fr_mul(spec_fr_add(spec_fr_add(env.witness_a, spec_fr_mul(env.beta, env.zeta)), env.gamma), spec_fr_add(spec_fr_add(env.witness_b, spec_fr_mul(spec_fr_mul(env.beta, SHIFT_K1 as u64), env.zeta)), env.gamma)));
    assert(t[26] == PolishToken::Mul);
    assert(t.skip(26).drop_first() =~= t.skip(27));
    assert(spec_run(t.skip(26), env, Seq::<u64>::empty().push(spec_fr_mul(spec_fr_add(spec_fr_add(env.witness_a, spec_fr_mul(env.beta, env.zeta)), env.gamma), spec_fr_add(spec_fr_add(env.witness_b, spec_fr_mul(spec_fr_mul(env.beta, SHIFT_K1 as u64), env.zeta)), env.gamma))).push(spec_fr_add(spec_fr_add(env.witness_c, spec_fr_mul(spec_fr_mul(env.beta, SHIFT_K2 as u64), env.zeta)), env.gamma))) == spec_run(t.skip(27), env, Seq::<u64>::empty().push(spec_fr_mul(spec_fr_mul(spec_fr_add(spec_fr_add(env.witness_a, spec_fr_mul(env.beta, env.zeta)), env.gamma), spec_fr_add(spec_fr_add(env.witness_b, spec_fr_mul(spec_fr_mul(env.beta, SHIFT_K1 as u64), env.zeta)), env.gamma)), spec_fr_add(spec_fr_add(env.witness_c, spec_fr_mul(spec_fr_mul(env.beta, SHIFT_K2 as u64), env.zeta)), env.gamma)))));
    assert(t[27] == PolishToken::Cell(Column::Accumulator));
    assert(t.skip(27).drop_first() =~= t.skip(28));
    assert(spec_run(t.skip(27), env, Seq::<u64>::empty().push(spec_fr_mul(spec_fr_mul(spec_fr_add(spec_fr_add(env.witness_a, spec_fr_mul(env.beta, env.zeta)), env.gamma), spec_fr_add(spec_fr_add(env.witness_b, spec_fr_mul(spec_fr_mul(env.beta, SHIFT_K1 as u64), env.zeta)), env.gamma)), spec_fr_add(spec_fr_add(env.witness_c, spec_fr_mul(spec_fr_mul(env.beta, SHIFT_K2 as u64), env.zeta)), env.gamma)))) == spec_run(t.skip(28), env, Seq::<u64>::empty().push(spec_fr_mul(spec_fr_mul(spec_fr_add(spec_fr_add(env.witness_a, spec_fr_mul(env.beta, env.zeta)), env.gamma), spec_fr_add(spec_fr_add(env.witness_b, spec_fr_mul(spec_fr_mul(env.beta, SHIFT_K1 as u64), env.zeta)), env.gamma)), spec_fr_add(spec_fr_add(env.witness_c, spec_fr_mul(spec_fr_mul(env.beta, SHIFT_K2 as u64), env.zeta)), env.gamma))).push(env.accumulator)));
    assert(Seq::<u64>::empty().push(spec_fr_mul(spec_fr_mul(spec_fr_add(spec_fr_add(env.witness_a, spec_fr_mul(env.beta, env.zeta)), env.gamma), spec_fr_add(spec_fr_add(env.witness_b, spec_fr_mul(spec_fr_mul(env.beta, SHIFT_K1 as u64), env.zeta)), env.gamma)), spec_fr_add(spec_fr_add(env.witness_c, spec_fr_mul(spec_fr_mul(env.beta, SHIFT_K2 as u64), env.zeta)), env.gamma))).push(env.accumulator).drop_last() =~= Seq::<u64>::empty().push(spec_fr_mul(spec_fr_mul(spec_fr_add(spec_fr_add(env.witness_a, spec_fr_mul(env.beta, env.zeta)), env.gamma), spec_fr_add(spec_fr_add(env.witness_b, spec_fr_mul(spec_fr_mul(env.beta, SHIFT_K1 as u64), env.zeta)), env.gamma)), spec_fr_add(spec_fr_add(env.witness_c, spec_fr_mul(spec_fr_mul(env.beta, SHIFT_K2 as u64), env.zeta)), env.gamma))));
    assert(Seq::<u64>::empty().push(spec_fr_mul(spec_fr_mul(spec_fr_add(spec_fr_add(env.witness_a, spec_fr_mul(env.beta, env.zeta)), env.gamma), spec_fr_add(spec_fr_add(env.witness_b, spec_fr_mul(spec_fr_mul(env.beta, SHIFT_K1 as u64), env.zeta)), env.gamma)), spec_fr_add(spec_fr_add(env.witness_c, spec_fr_mul(spec_fr_mul(env.beta, SHIFT_K2 as u64), env.zeta)), env.gamma))).push(env.accumulator).drop_last().drop_last() =~= Seq::<u64>::empty());
    assert(Seq::<u64>::empty().push(spec_fr_mul(spec_fr_mul(spec_fr_add(spec_fr_add(env.witness_a, spec_fr_mul(env.beta, env.zeta)), env.gamma), spec_fr_add(spec_fr_add(env.witness_b, spec_fr_mul(spec_fr_mul(env.beta, SHIFT_K1 as u64), env.zeta)), env.gamma)), spec_fr_add(spec_fr_add(env.witness_c, spec_fr_mul(spec_fr_mul(env.beta, SHIFT_K2 as u64), env.zeta)), env.gamma))).push(env.accumulator).last() == env.accumulator && Seq::<u64>::empty().push(spec_fr_mul(spec_fr_mul(spec_fr_add(spec_fr_add(env.witness_a, spec_fr_mul(env.beta, env.zeta)), env.gamma), spec_fr_add(spec_fr_add(env.witness_b, spec_fr_mul(spec_fr_mul(env.beta, SHIFT_K1 as u64), env.zeta)), env.gamma)), spec_fr_add(spec_fr_add(env.witness_c, spec_fr_mul(spec_fr_mul(env.beta, SHIFT_K2 as u64), env.zeta)), env.gamma))).push(env.accumulator)[2 - 2] == spec_fr_mul(spec_fr_mul(spec_fr_add(spec_fr_add(env.witness_a, spec_fr_mul(env.beta, env.zeta)), env.gamma), spec_fr_add(spec_fr_add(env.witness_b, spec_fr_mul(spec_fr_mul(env.beta, SHIFT_K1 as u64), env.zeta)), env.gamma)), spec_fr_add(spec_fr_add(env.witness_c, spec_fr_mul(spec_fr_mul(env.beta, SHIFT_K2 as u64), env.zeta)), env.gamma)));
    assert(t[28] == PolishToken::Mul);
    assert(t.skip(28).drop_first() =~= t.skip(29));
    assert(spec_run(t.skip(28), env, Seq::<u64>::empty().push(spec_fr_mul(spec_fr_mul(spec_fr_add(spec_fr_add(env.witness_a, spec_fr_mul(env.beta, env.zeta)), env.gamma), spec_fr_add(spec_fr_add(env.witness_b, spec_fr_mul(spec_fr_mul(env.beta, SHIFT_K1 as u64), env.zeta)), env.gamma)), spec_fr_add(spec_fr_add(env.witness_c, spec_fr_mul(spec_fr_mul(env.beta, SHIFT_K2 as u64), env.zeta)), env.gamma))).push(env.accumulator)) == spec_run(t.skip(29), env, Seq::<u64>::empty().push(spec_fr_mul(spec_fr_mul(spec_fr_mul(spec_fr_add(spec_fr_add(env.witness_a, spec_fr_mul(env.beta, env.zeta)), env.gamma), spec_fr_add(spec_fr_add(env.witness_b, spec_fr_mul(spec_fr_mul(env.beta, SHIFT_K1 as u64), env.zeta)), env.gamma)), spec_fr_add(spec_fr_add(env.witness_c, spec_fr_mul(spec_fr_mul(env.beta, SHIFT_K2 as u64), env.zeta)), env.gamma)), env.accumulator))));
    assert(t[29] == PolishToken::Alpha);
    assert(t.skip(29).drop_first() =~= t.skip(30));
    assert(spec_run(t.skip(29), env, Seq::<u64>::empty().push(spec_fr_mul(spec_fr_mul(spec_fr_mul(spec_fr_add(spec_fr_add(env.witness_a, spec_fr_mul(env.beta, env.zeta)), env.gamma), spec_fr_add(spec_fr_add(env.witness_b, spec_fr_mul(spec_fr_mul(env.beta, SHIFT_K1 as u64), env.zeta)), env.gamma)), spec_fr_add(spec_fr_add(env.witness_c, spec_fr_mul(spec_fr_mul(env.beta, SHIFT_K2 as u64), env.zeta)), env.gamma)), env.accumulator))) == spec_run(t.skip(30), env, Seq::<u64>::empty().push(spec_fr_mul(spec_fr_mul(spec_fr_mul(spec_fr_add(spec_fr_add(env.witness_a, spec_fr_mul(env.beta, env.zeta)), env.gamma), spec_fr_add(spec_fr_add(env.witness_b, spec_fr_mul(spec_fr_mul(env.beta, SHIFT_K1 as u64), env.zeta)), env.gamma)), spec_fr_add(spec_fr_add(env.witness_c, spec_fr_mul(spec_fr_mul(env.beta, SHIFT_K2 as u64), env.zeta)), env.gamma)), env.accumulator)).push(env.alpha)));
    assert(Seq::<u64>::empty().push(spec_fr_mul(spec_fr_mul(spec_fr_mul(spec_fr_add(spec_fr_add(env.witness_a, spec_fr_mul(env.beta, env.zeta)), env.gamma), spec_fr_add(spec_fr_add(env.witness_b, spec_fr_mul(spec_fr_mul(env.beta, SHIFT_K1 as u64), env.zeta)), env.gamma)), spec_fr_add(spec_fr_add(env.witness_c, spec_fr_mul(spec_fr_mul(env.beta, SHIFT_K2 as u64), env.zeta)), env.gamma)), env.accumulator)).push(env.alpha).drop_last() =~= Seq::<u64>::empty().push(spec_fr_mul(spec_fr_mul(spec_fr_mul(spec_fr_add(spec_fr_add(env.witness_a, spec_fr_mul(env.beta, env.zeta)), env.gamma), spec_fr_add(spec_fr_add(env.witness_b, spec_fr_mul(spec_fr_mul(env.beta, SHIFT_K1 as u64), env.zeta)), env.gamma)), spec_fr_add(spec_fr_add(env.witness_c, spec_fr_mul(spec_fr_mul(env.beta, SHIFT_K2 as u64), env.zeta)), env.gamma)), env.accumulator)));
    assert(Seq::<u64>::empty().push(spec_fr_mul(spec_fr_mul(spec_fr_mul(spec_fr_add(spec_fr_add(env.witness_a, spec_fr_mul(env.beta, env.zeta)), env.gamma), spec_fr_add(spec_fr_add(env.witness_b, spec_fr_mul(spec_fr_mul(env.beta, SHIFT_K1 as u64), env.zeta)), env.gamma)), spec_fr_add(spec_fr_add(env.witness_c, spec_fr_mul(spec_fr_mul(env.beta, SHIFT_K2 as u64), env.zeta)), env.gamma)), env.accumulator)).push(env.alpha).last() == env.alpha);
    assert(t[30] == PolishToken::Pow(s));
    assert(t.skip(30).drop_first() =~= t.skip(31));
    assert(spec_run(t.skip(30), env, Seq::<u64>::empty().push(spec_fr_mul(spec_fr_mul(spec_fr_mul(spec_fr_add(spec_fr_add(env.witness_a, spec_fr_mul(env.beta, env.zeta)), env.gamma), spec_fr_add(spec_fr_add(env.witness_b, spec_fr_mul(spec_fr_mul(env.beta, SHIFT_K1 as u64), env.zeta)), env.gamma)), spec_fr_add(spec_fr_add(env.witness_c, spec_fr_mul(spec_fr_mul(env.beta, SHIFT_K2 as u64), env.zeta)), env.gamma)), env.accumulator)).push(env.alpha)) == spec_run(t.skip(31), env, Seq::<u64>::empty().push(spec_fr_mul(spec_fr_mul(spec_fr_mul(spec_fr_add(spec_fr_add(env.witness_a, spec_fr_mul(env.beta, env.zeta)), env.gamma), spec_fr_add(spec_fr_add(env.witness_b, spec_fr_mul(spec_fr_mul(env.beta, SHIFT_K1 as u64), env.zeta)), env.gamma)), spec_fr_add(spec_fr_add(env.witness_c, spec_fr_mul(spec_fr_mul(env.beta, SHIFT_K2 as u64), env.zeta)), env.gamma)), env.accumulator)).push(spec_fr_pow(env.alpha, s as nat))));
    assert(Seq::<u64>::empty().push(spec_fr_mul(spec_fr_mul(spec_fr_mul(spec_fr_add(spec_fr_add(env.witness_a, spec_fr_mul(env.beta, env.zeta)), env.gamma), spec_fr_add(spec_fr_add(env.witness_b, spec_fr_mul(spec_fr_mul(env.beta, SHIFT_K1 as u64), env.zeta)), env.gamma)), spec_fr_add(spec_fr_add(env.witness_c, spec_fr_mul(spec_fr_mul(env.beta, SHIFT_K2 as u64), env.zeta)), env.gamma)), env.accumulator)).push(spec_fr_pow(env.alpha, s as nat)).drop_last() =~= Seq::<u64>::empty().push(spec_fr_mul(spec_fr_mul(spec_fr_mul(spec_fr_add(spec_fr_add(env.witness_a, spec_fr_mul(env.beta, env.zeta)), env.gamma), spec_fr_add(spec_fr_add(env.witness_b, spec_fr_mul(spec_fr_mul(env.beta, SHIFT_K1 as u64), env.zeta)), env.gamma)), spec_fr_add(spec_fr_add(env.witness_c, spec_fr_mul(spec_fr_mul(env.beta, SHIFT_K2 as u64), env.zeta)), env.gamma)), env.accumulator)));
    assert(Seq::<u64>::empty().push(spec_fr_mul(spec_fr_mul(spec_fr_mul(spec_fr_add(spec_fr_add(env.witness_a, spec_fr_mul(env.beta, env.zeta)), env.gamma), spec_fr_add(spec_fr_add(env.witness_b, spec_fr_mul(spec_fr_mul(env.beta, SHIFT_K1 as u64), env.zeta)), env.gamma)), spec_fr_add(spec_fr_add(env.witness_c, spec_fr_mul(spec_fr_mul(env.beta, SHIFT_K2 as u64), env.zeta)), env.gamma)), env.accumulator)).push(spec_fr_pow(env.alpha, s as nat)).drop_last().drop_last() =~= Seq::<u64>::empty());
    assert(Seq::<u64>::empty().push(spec_fr_mul(spec_fr_mul(spec_fr_mul(spec_fr_add(spec_fr_add(env.witness_a, spec_fr_mul(env.beta, env.zeta)), env.gamma), spec_fr_add(spec_fr_add(env.witness_b, spec_fr_mul(spec_fr_mul(env.beta, SHIFT_K1 as u64), env.zeta)), env.gamma)), spec_fr_add(spec_fr_add(env.witness_c, spec_fr_mul(spec_fr_mul(env.beta, SHIFT_K2 as u64), env.zeta)), env.gamma)), env.accumulator)).push(spec_fr_pow(env.alpha, s as nat)).last() == spec_fr_pow(env.alpha, s as nat) && Seq::<u64>::empty().push(spec_fr_mul(spec_fr_mul(spec_fr_mul(spec_fr_add(spec_fr_add(env.witness_a, spec_fr_mul(env.beta, env.zeta)), env.gamma), spec_fr_add(spec_fr_add(env.witness_b, spec_fr_mul(spec_fr_mul(env.beta, SHIFT_K1 as u64), env.zeta)), env.gamma)), spec_fr_add(spec_fr_add(env.witness_c, spec_fr_mul(spec_fr_mul(env.beta, SHIFT_K2 as u64), env.zeta)), env.gamma)), env.accumulator)).push(spec_fr_pow(env.alpha, s as nat))[2 - 2] == spec_fr_mul(spec_fr_mul(spec_fr_mul(spec_fr_add(spec_fr_add(env.witness_a, spec_fr_mul(env.beta, env.zeta)), env.gamma), spec_fr_add(spec_fr_add(env.witness_b, spec_fr_mul(spec_fr_mul(env.beta, SHIFT_K1 as u64), env.zeta)), env.gamma)), spec_fr_add(spec_fr_add(env.witness_c, spec_fr_mul(spec_fr_mul(env.beta, SHIFT_K2 as u64), env.zeta)), env.gamma)), env.accumulator));
    assert(t[31] == PolishToken::Mul);
    assert(t.skip(31).drop_first() =~= t.skip(32));
    assert(spec_run(t.skip(31), env, Seq::<u64>::empty().push(spec_fr_mul(spec_fr_mul(spec_fr_mul(spec_fr_add(spec_fr_add(env.witness_a, spec_fr_mul(env.beta, env.zeta)), env.gamma), spec_fr_add(spec_fr_add(env.witness_b, spec_fr_mul(spec_fr_mul(env.beta, SHIFT_K1 as u64), env.zeta)), env.gamma)), spec_fr_add(spec_fr_add(env.witness_c, spec_fr_mul(spec_fr_mul(env.beta, SHIFT_K2 as u64), env.zeta)), env.gamma)), env.accumulator)).push(spec_fr_pow(env.alpha, s as nat))) == spec_run(t.skip(32), env, Seq::<u64>::empty().push(spec_fr_mul(spec_fr_mul(spec_fr_mul(spec_fr_mul(spec_fr_add(spec_fr_add(env.witness_a, spec_fr_mul(env.beta, env.zeta)), env.gamma), spec_fr_add(spec_fr_add(env.witness_b, spec_fr_mul(spec_fr_mul(env.beta, SHIFT_K1 as u64), env.zeta)), env.gamma)), spec_fr_add(spec_fr_add(env.witness_c, spec_fr_mul(spec_fr_mul(env.beta, SHIFT_K2 as u64), env.zeta)), env.gamma)), env.accumulator), spec_fr_pow(env.alpha, s as nat)))));
    assert(t[32] == PolishToken::Zeta);
    assert(t.skip(32).drop_first() =~= t.skip(33));
    assert(spec_run(t.skip(32), env, Seq::<u64>::empty().push(spec_fr_mul(spec_fr_mul(spec_fr_mul(spec_fr_mul(spec_fr_add(spec_fr_add(env.witness_a, spec_fr_mul(env.beta, env.zeta)), env.gamma), spec_fr_add(spec_fr_add(env.witness_b, spec_fr_mul(spec_fr_mul(env.beta, SHIFT_K1 as u64), env.zeta)), env.gamma)), spec_fr_add(spec_fr_add(env.witness_c, spec_fr_mul(spec_fr_mul(env.beta, SHIFT_K2 as u64), env.zeta)), env.gamma)), env.accumulator), spec_fr_pow(env.alpha, s as nat)))) == spec_run(t.skip(33), env, Seq::<u64>::empty().push(spec_fr_mul(spec_fr_mul(spec_fr_mul(spec_fr_mul(spec_fr_add(spec_fr_add(env.witness_a, spec_fr_mul(env.beta, env.zeta)), env.gamma), spec_fr_add(spec_fr_add(env.witness_b, spec_fr_mul(spec_fr_mul(env.beta, SHIFT_K1 as u64), env.zeta)), env.gamma)), spec_fr_add(spec_fr_add(env.witness_c, spec_fr_mul(spec_fr_mul(env.beta, SHIFT_K2 as u64), env.zeta)), env.gamma)), env.accumulator), spec_fr_pow(env.alpha, s as nat))).push(env.zeta)));
    assert(Seq::<u64>::empty().push(spec_fr_mul(spec_fr_mul(spec_fr_mul(spec_fr_mul(spec_fr_add(spec_fr_add(env.witness_a, spec_fr_mul(env.beta, env.zeta)), env.gamma), spec_fr_add(spec_fr_add(env.witness_b, spec_fr_mul(spec_fr_mul(env.beta, SHIFT_K1 as u64), env.zeta)), env.gamma)), spec_fr_add(spec_fr_add(env.witness_c, spec_fr_mul(spec_fr_mul(env.beta, SHIFT_K2 as u64), env.zeta)), env.gamma)), env.accumulator), spec_fr_pow(env.alpha, s as nat))).push(env.zeta).drop_last() =~= Seq::<u64>::empty().push(spec_fr_mul(spec_fr_mul(spec_fr_mul(spec_fr_mul(spec_fr_add(spec_fr_add(env.witness_a, spec_fr_mul(env.beta, env.zeta)), env.gamma), spec_fr_add(spec_fr_add(env.witness_b, spec_fr_mul(spec_fr_mul(env.beta, SHIFT_K1 as u64), env.zeta)), env.gamma)), spec_fr_add(spec_fr_add(env.witness_c, spec_fr_mul(spec_fr_mul(env.beta, SHIFT_K2 as u64), env.zeta)), env.gamma)), env.accumulator), spec_fr_pow(env.alpha, s as nat))));
    assert(Seq::<u64>::empty().push(spec_fr_mul(spec_fr_mul(spec_fr_mul(spec_fr_mul(spec_fr_add(spec_fr_add(env.witness_a, spec_fr_mul(env.beta, env.zeta)), env.gamma), spec_fr_add(spec_fr_add(env.witness_b, spec_fr_mul(spec_fr_mul(env.beta, SHIFT_K1 as u64), env.zeta)), env.gamma)), spec_fr_add(spec_fr_add(env.witness_c, spec_fr_mul(spec_fr_mul(env.beta, SHIFT_K2 as u64), env.zeta)), env.gamma)), env.accumulator), spec_fr_pow(env.alpha, s as nat))).push(env.zeta).last() == env.zeta);
    assert(t[33] == PolishToken::Pow(n));
    assert(t.skip(33).drop_first() =~= t.skip(34));
    assert(spec_run(t.skip(33), env, Seq::<u64>::empty().push(spec_fr_mul(spec_fr_mul(spec_fr_mul(spec_fr_mul(spec_fr_add(spec_fr_add(env.witness_a, spec_fr_mul(env.beta, env.zeta)), env.gamma), spec_fr_add(spec_fr_add(env.witness_b, spec_fr_mul(spec_fr_mul(env.beta, SHIFT_K1 as u64), env.zeta)), env.gamma)), spec_fr_add(spec_fr_add(env.witness_c, spec_fr_mul(spec_fr_mul(env.beta, SHIFT_K2 as u64), env.zeta)), env.gamma)), env.accumulator), spec_fr_pow(env.alpha, s as nat))).push(env.zeta)) == spec_run(t.skip(34), env, Seq::<u64>::empty().push(spec_fr_mul(spec_fr_mul(spec_fr_mul(spec_fr_mul(spec_fr_add(spec_fr_add(env.witness_a, spec_fr_mul(env.beta, env.zeta)), env.gamma), spec_fr_add(spec_fr_add(env.witness_b, spec_fr_mul(spec_fr_mul(env.beta, SHIFT_K1 as u64), env.zeta)), env.gamma)), spec_fr_add(spec_fr_add(env.witness_c, spec_fr_mul(spec_fr_mul(env.beta, SHIFT_K2 as u64), env.zeta)), env.gamma)), env.accumulator), spec_fr_pow(env.alpha, s as nat))).push(spec_fr_pow(env.zeta, n as nat))));
    assert(t[34] == PolishToken::Literal(1));
    assert(t.skip(34).drop_first() =~= t.skip(35));
    assert(spec_run(t.skip(34), env, Seq::<u64>::empty().push(spec_fr_mul(spec_fr_mul(spec_fr_mul(spec_fr_mul(spec_fr_add(spec_fr_add(env.witness_a, spec_fr_mul(env.beta, env.zeta)), env.gamma), spec_fr_add(spec_fr_add(env.witness_b, spec_fr_mul(spec_fr_mul(env.beta, SHIFT_K1 as u64), env.zeta)), env.gamma)), spec_fr_add(spec_fr_add(env.witness_c, spec_fr_mul(spec_fr_mul(env.beta, SHIFT_K2 as u64), env.zeta)), env.gamma)), env.accumulator), spec_fr_pow(env.alpha, s as nat))).push(spec_fr_pow(env.zeta, n as nat))) == spec_run(t.skip(35), env, Seq::<u64>::empty().push(spec_fr_mul(spec_fr_mul(spec_fr_mul(spec_fr_mul(spec_fr_add(spec_fr_add(env.witness_a, spec_fr_mul(env.beta, env.zeta)), env.gamma), spec_fr_add(spec_fr_add(env.witness_b, spec_fr_mul(spec_fr_mul(env.beta, SHIFT_K1 as u64), env.zeta)), env.gamma)), spec_fr_add(spec_fr_add(env.witness_c, spec_fr_mul(spec_fr_mul(env.beta, SHIFT_K2 as u64), env.zeta)), env.gamma)), env.accumulator), spec_fr_pow(env.alpha, s as nat))).push(spec_fr_pow(env.zeta, n as nat)).push(1u64)));
    assert(Seq::<u64>::empty().push(spec_fr_mul(spec_fr_mul(spec_fr_mul(spec_fr_mul(spec_fr_add(spec_fr_add(env.witness_a, spec_fr_mul(env.beta, env.zeta)), env.gamma), spec_fr_add(spec_fr_add(env.witness_b, spec_fr_mul(spec_fr_mul(env.beta, SHIFT_K1 as u64), env.zeta)), env.gamma)), spec_fr_add(spec_fr_add(env.witness_c, spec_fr_mul(spec_fr_mul(env.beta, SHIFT_K2 as u64), env.zeta)), env.gamma)), env.accumulator), spec_fr_pow(env.alpha, s as nat))).push(spec_fr_pow(env.zeta, n as nat)).push(1u64).drop_last() =~= Seq::<u64>::empty().push(spec_fr_mul(spec_fr_mul(spec_fr_mul(spec_fr_mul(spec_fr_add(spec_fr_add(env.witness_a, spec_fr_mul(env.beta, env.zeta)), env.gamma), spec_fr_add(spec_fr_add(env.witness_b, spec_fr_mul(spec_fr_mul(env.beta, SHIFT_K1 as u64), env.zeta)), env.gamma)), spec_fr_add(spec_fr_add(env.witness_c, spec_fr_mul(spec_fr_mul(env.beta, SHIFT_K2 as u64), env.zeta)), env.gamma)), env.accumulator), spec_fr_pow(env.alpha, s as nat))).push(spec_fr_pow(env.zeta, n as nat)));
    assert(Seq::<u64>::empty().push(spec_fr_mul(spec_fr_mul(spec_fr_mul(spec_fr_mul(spec_fr_add(spec_fr_add(env.witness_a, spec_fr_mul(env.beta, env.zeta)), env.gamma), spec_fr_add(spec_fr_add(env.witness_b, spec_fr_mul(spec_fr_mul(env.beta, SHIFT_K1 as u64), env.zeta)), env.gamma)), spec_fr_add(spec_fr_add(env.witness_c, spec_fr_mul(spec_fr_mul(env.beta, SHIFT_K2 as u64), env.zeta)), env.gamma)), env.accumulator), spec_fr_pow(env.alpha, s as nat))).push(spec_fr_pow(env.zeta, n as nat)).push(1u64).drop_last().drop_last() =~= Seq::<u64>::empty().push(spec_fr_mul(spec_fr_mul(spec_fr_mul(spec_fr_mul(spec_fr_add(spec_fr_add(env.witness_a, spec_fr_mul(env.beta, env.zeta)), env.gamma), spec_fr_add(spec_fr_add(env.witness_b, spec_fr_mul(spec_fr_mul(env.beta, SHIFT_K1 as u64), env.zeta)), env.gamma)), spec_fr_add(spec_fr_add(env.witness_c, spec_fr_mul(spec_fr_mul(env.beta, SHIFT_K2 as u64), env.zeta)), env.gamma)), env.accumulator), spec_fr_pow(env.alpha, s as nat))));
    assert(Seq::<u64>::empty().push(spec_fr_mul(spec_fr_mul(spec_fr_mul(spec_fr_mul(spec_fr_add(spec_fr_add(env.witness_a, spec_fr_mul(env.beta, env.zeta)), env.gamma), spec_fr_add(spec_fr_add(env.witness_b, spec_fr_mul(spec_fr_mul(env.beta, SHIFT_K1 as u64), env.zeta)), env.gamma)), spec_fr_add(spec_fr_add(env.witness_c, spec_fr_mul(spec_fr_mul(env.beta, SHIFT_K2 as u64), env.zeta)), env.gamma)), env.accumulator), spec_fr_pow(env.alpha, s as nat))).push(spec_fr_pow(env.zeta, n as nat)).push(1u64).last() == 1u64 && Seq::<u64>::empty().push(spec_fr_mul(spec_fr_mul(spec_fr_mul(spec_fr_mul(spec_fr_add(spec_fr_add(env.witness_a, spec_fr_mul(env.beta, env.zeta)), env.gamma), spec_fr_add(spec_fr_add(env.witness_b, spec_fr_mul(spec_fr_mul(env.beta, SHIFT_K1 as u64), env.zeta)), env.gamma)), spec_fr_add(spec_fr_add(env.witness_c, spec_fr_mul(spec_fr_mul(env.beta, SHIFT_K2 as u64), env.zeta)), env.gamma)), env.accumulator), spec_fr_pow(env.alpha, s as nat))).push(spec_fr_pow(env.zeta, n as nat)).push(1u64)[3 - 2] == spec_fr_pow(env.zeta, n as nat));
    assert(t[35] == PolishToken::Sub);
    assert(t.skip(35).drop_first() =~= t.skip(36));
    assert(spec_run(t.skip(35), env, Seq::<u64>::empty().push(spec_fr_mul(spec_fr_mul(spec_fr_mul(spec_fr_mul(spec_fr_add(spec_fr_add(env.witness_a, spec_fr_mul(env.beta, env.zeta)), env.gamma), spec_fr_add(spec_fr_add(env.witness_b, spec_fr_mul(spec_fr_mul(env.beta, SHIFT_K1 as u64), env.zeta)), env.gamma)), spec_fr_add(spec_fr_add(env.witness_c, spec_fr_mul(spec_fr_mul(env.beta, SHIFT_K2 as u64), env.zeta)), env.gamma)), env.accumulator), spec_fr_pow(env.alpha, s as nat))).push(spec_fr_pow(env.zeta, n as nat)).push(1u64)) == spec_run(t.skip(36), env, Seq::<u64>::empty().push(spec_fr_mul(spec_fr_mul(spec_fr_mul(spec_fr_mul(spec_fr_add(spec_fr_add(env.witness_a, spec_fr_mul(env.beta, env.zeta)), env.gamma), spec_fr_add(spec_fr_add(env.witness_b, spec_fr_mul(spec_fr_mul(env.beta, SHIFT_K1 as u64), env.zeta)), env.gamma)), spec_fr_add(spec_fr_add(env.witness_c, spec_fr_mul(spec_fr_mul(env.beta, SHIFT_K2 as u64), env.zeta)), env.gamma)), env.accumulator), spec_fr_pow(env.alpha, s as nat))).push(spec_fr_sub(spec_fr_pow(env.zeta, n as nat), 1u64))));
    assert(t[36] == PolishToken::Literal(n_inv));
    assert(t.skip(36).drop_first() =~= t.skip(37));
    assert(spec_run(t.skip(36), env, Seq::<u64>::empty().push(spec_fr_mul(spec_fr_mul(spec_fr_mul(spec_fr_mul(spec_fr_add(spec_fr_add(env.witness_a, spec_fr_mul(env.beta, env.zeta)), env.gamma), spec_fr_add(spec_fr_add(env.witness_b, spec_fr_mul(spec_fr_mul(env.beta, SHIFT_K1 as u64), env.zeta)), env.gamma)), spec_fr_add(spec_fr_add(env.witness_c, spec_fr_mul(spec_fr_mul(env.beta, SHIFT_K2 as u64), env.zeta)), env.gamma)), env.accumulator), spec_fr_pow(env.alpha, s as nat))).push(spec_fr_sub(spec_fr_pow(env.zeta, n as nat), 1u64))) == spec_run(t.skip(37), env, Seq::<u64>::empty().push(spec_fr_mul(spec_fr_mul(spec_fr_mul(spec_fr_mul(spec_fr_add(spec_fr_add(env.witness_a, spec_fr_mul(env.beta, env.zeta)), env.gamma), spec_fr_add(spec_fr_add(env.witness_b, spec_fr_mul(spec_fr_mul(env.beta, SHIFT_K1 as u64), env.zeta)), env.gamma)), spec_fr_add(spec_fr_add(env.witness_c, spec_fr_mul(spec_fr_mul(env.beta, SHIFT_K2 as u64), env.zeta)), env.gamma)), env.accumulator), spec_fr_pow(env.alpha, s as nat))).push(spec_fr_sub(spec_fr_pow(env.zeta, n as nat), 1u64)).push(n_inv)));
    assert(Seq::<u64>::empty().push(spec_fr_mul(spec_fr_mul(spec_fr_mul(spec_fr_mul(spec_fr_add(spec_fr_add(env.witness_a, spec_fr_mul(env.beta, env.zeta)), env.gamma), spec_fr_add(spec_fr_add(env.witness_b, spec_fr_mul(spec_fr_mul(env.beta, SHIFT_K1 as u64), env.zeta)), env.gamma)), spec_fr_add(spec_fr_add(env.witness_c, spec_fr_mul(spec_fr_mul(env.beta, SHIFT_K2 as u64), env.zeta)), env.gamma)), env.accumulator), spec_fr_pow(env.alpha, s as nat))).push(spec_fr_sub(spec_fr_pow(env.zeta, n as nat), 1u64)).push(n_inv).drop_last() =~= Seq::<u64>::empty().push(spec_fr_mul(spec_fr_mul(spec_fr_mul(spec_fr_mul(spec_fr_add(spec_fr_add(env.witness_a, spec_fr_mul(env.beta, env.zeta)), env.gamma), spec_fr_add(spec_fr_add(env.witness_b, spec_fr_mul(spec_fr_mul(env.beta, SHIFT_K1 as u64), env.zeta)), env.gamma)), spec_fr_add(spec_fr_add(env.witness_c, spec_fr_mul(spec_fr_mul(env.beta, SHIFT_K2 as u64), env.zeta)), env.gamma)), env.accumulator), spec_fr_pow(env.alpha, s as nat))).push(spec_fr_sub(spec_fr_pow(env.zeta, n as nat), 1u64)));
    assert(Seq::<u64>::empty().push(spec_fr_mul(spec_fr_mul(spec_fr_mul(spec_fr_mul(spec_fr_add(spec_fr_add(env.witness_a, spec_fr_mul(env.beta, env.zeta)), env.gamma), spec_fr_add(spec_fr_add(env.witness_b, spec_fr_mul(spec_fr_mul(env.beta, SHIFT_K1 as u64), env.zeta)), env.gamma)), spec_fr_add(spec_fr_add(env.witness_c, spec_fr_mul(spec_fr_mul(env.beta, SHIFT_K2 as u64), env.zeta)), env.gamma)), env.accumulator), spec_fr_pow(env.alpha, s as nat))).push(spec_fr_sub(spec_fr_pow(env.zeta, n as nat), 1u64)).push(n_inv).drop_last().drop_last() =~= Seq::<u64>::empty().push(spec_fr_mul(spec_fr_mul(spec_fr_mul(spec_fr_mul(spec_fr_add(spec_fr_add(env.witness_a, spec_fr_mul(env.beta, env.zeta)), env.gamma), spec_fr_add(spec_fr_add(env.witness_b, spec_fr_mul(spec_fr_mul(env.beta, SHIFT_K1 as u64), env.zeta)), env.gamma)), spec_fr_add(spec_fr_add(env.witness_c, spec_fr_mul(spec_fr_mul(env.beta, SHIFT_K2 as u64), env.zeta)), env.gamma)), env.accumulator), spec_fr_pow(env.alpha, s as nat))));
    assert(Seq::<u64>::empty().push(spec_fr_mul(spec_fr_mul(spec_fr_mul(spec_fr_mul(spec_fr_add(spec_fr_add(env.witness_a, spec_fr_mul(env.beta, env.zeta)), env.gamma), spec_fr_add(spec_fr_add(env.witness_b, spec_fr_mul(spec_fr_mul(env.beta, SHIFT_K1 as u64), env.zeta)), env.gamma)), spec_fr_add(spec_fr_add(env.witness_c, spec_fr_mul(spec_fr_mul(env.beta, SHIFT_K2 as u64), env.zeta)), env.gamma)), env.accumulator), spec_fr_pow(env.alpha, s as nat))).push(spec_fr_sub(spec_fr_pow(env.zeta, n as nat), 1u64)).push(n_inv).last() == n_inv && Seq::<u64>::empty().push(spec_fr_mul(spec_fr_mul(spec_fr_mul(spec_fr_mul(spec_fr_add(spec_fr_add(env.witness_a, spec_fr_mul(env.beta, env.zeta)), env.gamma), spec_fr_add(spec_fr_add(env.witness_b, spec_fr_mul(spec_fr_mul(env.beta, SHIFT_K1 as u64), env.zeta)), env.gamma)), spec_fr_add(spec_fr_add(env.witness_c, spec_fr_mul(spec_fr_mul(env.beta, SHIFT_K2 as u64), env.zeta)), env.gamma)), env.accumulator), spec_fr_pow(env.alpha, s as nat))).push(spec_fr_sub(spec_fr_pow(env.zeta, n as nat), 1u64)).push(n_inv)[3 - 2] == spec_fr_sub(spec_fr_pow(env.zeta, n as nat), 1u64));
    assert(t[37] == PolishToken::Mul);
    assert(t.skip(37).drop_first() =~= t.skip(38));
    assert(spec_run(t.skip(37), env, Seq::<u64>::empty().push(spec_fr_mul(spec_fr_mul(spec_fr_mul(spec_fr_mul(spec_fr_add(spec_fr_add(env.witness_a, spec_fr_mul(env.beta, env.zeta)), env.gamma), spec_fr_add(spec_fr_add(env.witness_b, spec_fr_mul(spec_fr_mul(env.beta, SHIFT_K1 as u64), env.zeta)), env.gamma)), spec_fr_add(spec_fr_add(env.witness_c, spec_fr_mul(spec_fr_mul(env.beta, SHIFT_K2 as u64), env.zeta)), env.gamma)), env.accumulator), spec_fr_pow(env.alpha, s as nat))).push(spec_fr_sub(spec_fr_pow(env.zeta, n as nat), 1u64)).push(n_inv)) == spec_run(t.skip(38), env, Seq::<u64>::empty().push(spec_fr_mul(spec_fr_mul(spec_fr_mul(spec_fr_mul(spec_fr_add(spec_fr_add(env.witness_a, spec_fr_mul(env.beta, env.zeta)), env.gamma), spec_fr_add(spec_fr_add(env.witness_b, spec_fr_mul(spec_fr_mul(env.beta, SHIFT_K1 as u64), env.zeta)), env.gamma)), spec_fr_add(spec_fr_add(env.witness_c, spec_fr_mul(spec_fr_mul(env.beta, SHIFT_K2 as u64), env.zeta)), env.gamma)), env.accumulator), spec_fr_pow(env.alpha, s as nat))).push(spec_fr_mul(spec_fr_sub(spec_fr_pow(env.zeta, n as nat), 1u64), n_inv))));
    assert(t[38] == PolishToken::Zeta);
    assert(t.skip(38).drop_first() =~= t.skip(39));
    assert(spec_run(t.skip(38), env, Seq::<u64>::empty().push(spec_fr_mul(spec_fr_mul(spec_fr_mul(spec_fr_mul(spec_fr_add(spec_fr_add(env.witness_a, spec_fr_mul(env.beta, env.zeta)), env.gamma), spec_fr_add(spec_fr_add(env.witness_b, spec_fr_mul(spec_fr_mul(env.beta, SHIFT_K1 as u64), env.zeta)), env.gamma)), spec_fr_add(spec_fr_add(env.witness_c, spec_fr_mul(spec_fr_mul(env.beta, SHIFT_K2 as u64), env.zeta)), env.gamma)), env.accumulator), spec_fr_pow(env.alpha, s as nat))).push(spec_fr_mul(spec_fr_sub(spec_fr_pow(env.zeta, n as nat), 1u64), n_inv))) == spec_run(t.skip(39), env, Seq::<u64>::empty().push(spec_fr_mul(spec_fr_mul(spec_fr_mul(spec_fr_mul(spec_fr_add(spec_fr_add(env.witness_a, spec_fr_mul(env.beta, env.zeta)), env.gamma), spec_fr_add(spec_fr_add(env.witness_b, spec_fr_mul(spec_fr_mul(env.beta, SHIFT_K1 as u64), env.zeta)), env.gamma)), spec_fr_add(spec_fr_add(env.witness_c, spec_fr_mul(spec_fr_mul(env.beta, SHIFT_K2 as u64), env.zeta)), env.gamma)), env.accumulator), spec_fr_pow(env.alpha, s as nat))).push(spec_fr_mul(spec_fr_sub(spec_fr_pow(env.zeta, n as nat), 1u64), n_inv)).push(env.zeta)));
    assert(t[39] == PolishToken::Literal(1));
    assert(t.skip(39).drop_first() =~= t.skip(40));
    assert(spec_run(t.skip(39), env, Seq::<u64>::empty().push(spec_fr_mul(spec_fr_mul(spec_fr_mul(spec_fr_mul(spec_fr_add(spec_fr_add(env.witness_a, spec_fr_mul(env.beta, env.zeta)), env.gamma), spec_fr_add(spec_fr_add(env.witness_b, spec_fr_mul(spec_fr_mul(env.beta, SHIFT_K1 as u64), env.zeta)), env.gamma)), spec_fr_add(spec_fr_add(env.witness_c, spec_fr_mul(spec_fr_mul(env.beta, SHIFT_K2 as u64), env.zeta)), env.gamma)), env.accumulator), spec_fr_pow(env.alpha, s as nat))).push(spec_fr_mul(spec_fr_sub(spec_fr_pow(env.zeta, n as nat), 1u64), n_inv)).push(env.zeta)) == spec_run(t.skip(40), env, Seq::<u64>::empty().push(spec_fr_mul(spec_fr_mul(spec_fr_mul(spec_fr_mul(spec_fr_add(spec_fr_add(env.witness_a, spec_fr_mul(env.beta, env.zeta)), env.gamma), spec_fr_add(spec_fr_add(env.witness_b, spec_fr_mul(spec_fr_mul(env.beta, SHIFT_K1 as u64), env.zeta)), env.gamma)), spec_fr_add(spec_fr_add(env.witness_c, spec_fr_mul(spec_fr_mul(env.beta, SHIFT_K2 as u64), env.zeta)), env.gamma)), env.accumulator), spec_fr_pow(env.alpha, s as nat))).push(spec_fr_mul(spec_fr_sub(spec_fr_pow(env.zeta, n as nat), 1u64), n_inv)).push(env.zeta).push(1u64)));
    assert(Seq::<u64>::empty().push(spec_fr_mul(spec_fr_mul(spec_fr_mul(spec_fr_mul(spec_fr_add(spec_fr_add(env.witness_a, spec_fr_mul(env.beta, env.zeta)), env.gamma), spec_fr_add(spec_fr_add(env.witness_b, spec_fr_mul(spec_fr_mul(env.beta, SHIFT_K1 as u64), env.zeta)), env.gamma)), spec_fr_add(spec_fr_add(env.witness_c, spec_fr_mul(spec_fr_mul(env.beta, SHIFT_K2 as u64), env.zeta)), env.gamma)), env.accumulator), spec_fr_pow(env.alpha, s as nat))).push(spec_fr_mul(spec_fr_sub(spec_fr_pow(env.zeta, n as nat), 1u64), n_inv)).push(env.zeta).push(1u64).drop_last() =~= Seq::<u64>::empty().push(spec_fr_mul(spec_fr_mul(spec_fr_mul(spec_fr_mul(spec_fr_add(spec_fr_add(env.witness_a, spec_fr_mul(env.beta, env.zeta)), env.gamma), spec_fr_add(spec_fr_add(env.witness_b, spec_fr_mul(spec_fr_mul(env.beta, SHIFT_K1 as u64), env.zeta)), env.gamma)), spec_fr_add(spec_fr_add(env.witness_c, spec_fr_mul(spec_fr_mul(env.beta, SHIFT_K2 as u64), env.zeta)), env.gamma)), env.accumulator), spec_fr_pow(env.alpha, s as nat))).push(spec_fr_mul(spec_fr_sub(spec_fr_pow(env.zeta, n as nat), 1u64), n_inv)).push(env.zeta));
    assert(Seq::<u64>::empty().push(spec_fr_mul(spec_fr_mul(spec_fr_mul(spec_fr_mul(spec_fr_add(spec_fr_add(env.witness_a, spec_fr_mul(env.beta, env.zeta)), env.gamma), spec_fr_add(spec_fr_add(env.witness_b, spec_fr_mul(spec_fr_mul(env.beta, SHIFT_K1 as u64), env.zeta)), env.gamma)), spec_fr_add(spec_fr_add(env.witness_c, spec_fr_mul(spec_fr_mul(env.beta, SHIFT_K2 as u64), env.zeta)), env.gamma)), env.accumulator), spec_fr_pow(env.alpha, s as nat))).push(spec_fr_mul(spec_fr_sub(spec_fr_pow(env.zeta, n as nat), 1u64), n_inv)).push(env.zeta).push(1u64).drop_last().drop_last() =~= Seq::<u64>::empty().push(spec_fr_mul(spec_fr_mul(spec_fr_mul(spec_fr_mul(spec_fr_add(spec_fr_add(env.witness_a, spec_fr_mul(env.beta, env.zeta)), env.gamma), spec_fr_add(spec_fr_add(env.witness_b, spec_fr_mul(spec_fr_mul(env.beta, SHIFT_K1 as u64), env.zeta)), env.gamma)), spec_fr_add(spec_fr_add(env.witness_c, spec_fr_mul(spec_fr_mul(env.beta, SHIFT_K2 as u64), env.zeta)), env.gamma)), env.accumulator), spec_fr_pow(env.alpha, s as nat))).push(spec_fr_mul(spec_fr_sub(spec_fr_pow(env.zeta, n as nat), 1u64), n_inv)));
    assert(Seq::<u64>::empty().push(spec_fr_mul(spec_fr_mul(spec_fr_mul(spec_fr_mul(spec_fr_add(spec_fr_add(env.witness_a, spec_fr_mul(env.beta, env.zeta)), env.gamma), spec_fr_add(spec_fr_add(env.witness_b, spec_fr_mul(spec_fr_mul(env.beta, SHIFT_K1 as u64), env.zeta)), env.gamma)), spec_fr_add(spec_fr_add(env.witness_c, spec_fr_mul(spec_fr_mul(env.beta, SHIFT_K2 as u64), env.zeta)), env.gamma)), env.accumulator), spec_fr_pow(env.alpha, s as nat))).push(spec_fr_mul(spec_fr_sub(spec_fr_pow(env.zeta, n as nat), 1u64), n_inv)).push(env.zeta).push(1u64).last() == 1u64 && Seq::<u64>::empty().push(spec_fr_mul(spec_fr_mul(spec_fr_mul(spec_fr_mul(spec_fr_add(spec_fr_add(env.witness_a, spec_fr_mul(env.beta, env.zeta)), env.gamma), spec_fr_add(spec_fr_add(env.witness_b, spec_fr_mul(spec_fr_mul(env.beta, SHIFT_K1 as u64), env.zeta)), env.gamma)), spec_fr_add(spec_fr_add(env.witness_c, spec_fr_mul(spec_fr_mul(env.beta, SHIFT_K2 as u64), env.zeta)), env.gamma)), env.accumulator), spec_fr_pow(env.alpha, s as nat))).push(spec_fr_mul(spec_fr_sub(spec_fr_pow(env.zeta, n as nat), 1u64), n_inv)).push(env.zeta).push(1u64)[4 - 2] == env.zeta);
    assert(t[40] == PolishToken::Sub);
    assert(t.skip(40).drop_first() =~= t.skip(41));
    assert(spec_run(t.skip(40), env, Seq::<u64>::empty().push(spec_fr_mul(spec_fr_mul(spec_fr_mul(spec_fr_mul(spec_fr_add(spec_fr_add(env.witness_a, spec_fr_mul(env.beta, env.zeta)), env.gamma), spec_fr_add(spec_fr_add(env.witness_b, spec_fr_mul(spec_fr_mul(env.beta, SHIFT_K1 as u64), env.zeta)), env.gamma)), spec_fr_add(spec_fr_add(env.witness_c, spec_fr_mul(spec_fr_mul(env.beta, SHIFT_K2 as u64), env.zeta)), env.gamma)), env.accumulator), spec_fr_pow(env.alpha, s as nat))).push(spec_fr_mul(spec_fr_sub(spec_fr_pow(env.zeta, n as nat), 1u64), n_inv)).push(env.zeta).push(1u64)) == spec_run(t.skip(41), env, Seq::<u64>::empty().push(spec_fr_mul(spec_fr_mul(spec_fr_mul(spec_fr_mul(spec_fr_add(spec_fr_add(env.witness_a, spec_fr_mul(env.beta, env.zeta)), env.gamma), spec_fr_add(spec_fr_add(env.witness_b, spec_fr_mul(spec_fr_mul(env.beta, SHIFT_K1 as u64), env.zeta)), env.gamma)), spec_fr_add(spec_fr_add(env.witness_c, spec_fr_mul(spec_fr_mul(env.beta, SHIFT_K2 as u64), env.zeta)), env.gamma)), env.accumulator), spec_fr_pow(env.alpha, s as nat))).push(spec_fr_mul(spec_fr_sub(spec_fr_pow(env.zeta, n as nat), 1u64), n_inv)).push(spec_fr_sub(env.zeta, 1u64))));
    assert(Seq::<u64>::empty().push(spec_fr_mul(spec_fr_mul(spec_fr_mul(spec_fr_mul(spec_fr_add(spec_fr_add(env.witness_a, spec_fr_mul(env.beta, env.zeta)), env.gamma), spec_fr_add(spec_fr_add(env.witness_b, spec_fr_mul(spec_fr_mul(env.beta, SHIFT_K1 as u64), env.zeta)), env.gamma)), spec_fr_add(spec_fr_add(env.witness_c, spec_fr_mul(spec_fr_mul(env.beta, SHIFT_K2 as u64), env.zeta)), env.gamma)), env.accumulator), spec_fr_pow(env.alpha, s as nat))).push(spec_fr_mul(spec_fr_sub(spec_fr_pow(env.zeta, n as nat), 1u64), n_inv)).push(spec_fr_sub(env.zeta, 1u64)).drop_last() =~= Seq::<u64>::empty().push(spec_fr_mul(spec_fr_mul(spec_fr_mul(spec_fr_mul(spec_fr_add(spec_fr_add(env.witness_a, spec_fr_mul(env.beta, env.zeta)), env.gamma), spec_fr_add(spec_fr_add(env.witness_b, spec_fr_mul(spec_fr_mul(env.beta, SHIFT_K1 as u64), env.zeta)), env.gamma)), spec_fr_add(spec_fr_add(env.witness_c, spec_fr_mul(spec_fr_mul(env.beta, SHIFT_K2 as u64), env.zeta)), env.gamma)), env.accumulator), spec_fr_pow(env.alpha, s as nat))).push(spec_fr_mul(spec_fr_sub(spec_fr_pow(env.zeta, n as nat), 1u64), n_inv)));
    assert(Seq::<u64>::empty().push(spec_fr_mul(spec_fr_mul(spec_fr_mul(spec_fr_mul(spec_fr_add(spec_fr_add(env.witness_a, spec_fr_mul(env.beta, env.zeta)), env.gamma), spec_fr_add(spec_fr_add(env.witness_b, spec_fr_mul(spec_fr_mul(env.beta, SHIFT_K1 as u64), env.zeta)), env.gamma)), spec_fr_add(spec_fr_add(env.witness_c, spec_fr_mul(spec_fr_mul(env.beta, SHIFT_K2 as u64), env.zeta)), env.gamma)), env.accumulator), spec_fr_pow(env.alpha, s as nat))).push(spec_fr_mul(spec_fr_sub(spec_fr_pow(env.zeta, n as nat), 1u64), n_inv)).push(spec_fr_sub(env.zeta, 1u64)).last() == spec_fr_sub(env.zeta, 1u64));
    assert(t[41] == PolishToken::Inv);
    assert(t.skip(41).drop_first() =~= t.skip(42));
    assert(spec_run(t.skip(41), env, Seq::<u64>::empty().push(spec_fr_mul(spec_fr_mul(spec_fr_mul(spec_fr_mul(spec_fr_add(spec_fr_add(env.witness_a, spec_fr_mul(env.beta, env.zeta)), env.gamma), spec_fr_add(spec_fr_add(env.witness_b, spec_fr_mul(spec_fr_mul(env.beta, SHIFT_K1 as u64), env.zeta)), env.gamma)), spec_fr_add(spec_fr_add(env.witness_c, spec_fr_mul(spec_fr_mul(env.beta, SHIFT_K2 as u64), env.zeta)), env.gamma)), env.accumulator), spec_fr_pow(env.alpha, s as nat))).push(spec_fr_mul(spec_fr_sub(spec_fr_pow(env.zeta, n as nat), 1u64), n_inv)).push(spec_fr_sub(env.zeta, 1u64))) == spec_run(t.skip(42), env, Seq::<u64>::empty().push(spec_fr_mul(spec_fr_mul(spec_fr_mul(spec_fr_mul(spec_fr_add(spec_fr_add(env.witness_a, spec_fr_mul(env.beta, env.zeta)), env.gamma), spec_fr_add(spec_fr_add(env.witness_b, spec_fr_mul(spec_fr_mul(env.beta, SHIFT_K1 as u64), env.zeta)), env.gamma)), spec_fr_add(spec_fr_add(env.witness_c, spec_fr_mul(spec_fr_mul(env.beta, SHIFT_K2 as u64), env.zeta)), env.gamma)), env.accumulator), spec_fr_pow(env.alpha, s as nat))).push(spec_fr_mul(spec_fr_sub(spec_fr_pow(env.zeta, n as nat), 1u64), n_inv)).push(spec_fr_inv(spec_fr_sub(env.zeta, 1u64)))));
    assert(Seq::<u64>::empty().push(spec_fr_mul(spec_fr_mul(spec_fr_mul(spec_fr_mul(spec_fr_add(spec_fr_add(env.witness_a, spec_fr_mul(env.beta, env.zeta)), env.gamma), spec_fr_add(spec_fr_add(env.witness_b, spec_fr_mul(spec_fr_mul(env.beta, SHIFT_K1 as u64), env.zeta)), env.gamma)), spec_fr_add(spec_fr_add(env.witness_c, spec_fr_mul(spec_fr_mul(env.beta, SHIFT_K2 as u64), env.zeta)), env.gamma)), env.accumulator), spec_fr_pow(env.alpha, s as nat))).push(spec_fr_mul(spec_fr_sub(spec_fr_pow(env.zeta, n as nat), 1u64), n_inv)).push(spec_fr_inv(spec_fr_sub(env.zeta, 1u64))).drop_last() =~= Seq::<u64>::empty().push(spec_fr_mul(spec_fr_mul(spec_fr_mul(spec_fr_mul(spec_fr_add(spec_fr_add(env.witness_a, spec_fr_mul(env.beta, env.zeta)), env.gamma), spec_fr_add(spec_fr_add(env.witness_b, spec_fr_mul(spec_fr_mul(env.beta, SHIFT_K1 as u64), env.zeta)), env.gamma)), spec_fr_add(spec_fr_add(env.witness_c, spec_fr_mul(spec_fr_mul(env.beta, SHIFT_K2 as u64), env.zeta)), env.gamma)), env.accumulator), spec_fr_pow(env.alpha, s as nat))).push(spec_fr_mul(spec_fr_sub(spec_fr_pow(env.zeta, n as nat), 1u64), n_inv)));
    assert(Seq::<u64>::empty().push(spec_fr_mul(spec_fr_mul(spec_fr_mul(spec_fr_mul(spec_fr_add(spec_fr_add(env.witness_a, spec_fr_mul(env.beta, env.zeta)), env.gamma), spec_fr_add(spec_fr_add(env.witness_b, spec_fr_mul(spec_fr_mul(env.beta, SHIFT_K1 as u64), env.zeta)), env.gamma)), spec_fr_add(spec_fr_add(env.witness_c, spec_fr_mul(spec_fr_mul(env.beta, SHIFT_K2 as u64), env.zeta)), env.gamma)), env.accumulator), spec_fr_pow(env.alpha, s as nat))).push(spec_fr_mul(spec_fr_sub(spec_fr_pow(env.zeta, n as nat), 1u64), n_inv)).push(spec_fr_inv(spec_fr_sub(env.zeta, 1u64))).drop_last().drop_last() =~= Seq::<u64>::empty().push(spec_fr_mul(spec_fr_mul(spec_fr_mul(spec_fr_mul(spec_fr_add(spec_fr_add(env.witness_a, spec_fr_mul(env.beta, env.zeta)), env.gamma), spec_fr_add(spec_fr_add(env.witness_b, spec_fr_mul(spec_fr_mul(env.beta, SHIFT_K1 as u64), env.zeta)), env.gamma)), spec_fr_add(spec_fr_add(env.witness_c, spec_fr_mul(spec_fr_mul(env.beta, SHIFT_K2 as u64), env.zeta)), env.gamma)), env.accumulator), spec_fr_pow(env.alpha, s as nat))));
    assert(Seq::<u64>::empty().push(spec_fr_mul(spec_fr_mul(spec_fr_mul(spec_fr_mul(spec_fr_add(spec_fr_add(env.witness_a, spec_fr_mul(env.beta, env.zeta)), env.gamma), spec_fr_add(spec_fr_add(env.witness_b, spec_fr_mul(spec_fr_mul(env.beta, SHIFT_K1 as u64), env.zeta)), env.gamma)), spec_fr_add(spec_fr_add(env.witness_c, spec_fr_mul(spec_fr_mul(env.beta, SHIFT_K2 as u64), env.zeta)), env.gamma)), env.accumulator), spec_fr_pow(env.alpha, s as nat))).push(spec_fr_mul(spec_fr_sub(spec_fr_pow(env.zeta, n as nat), 1u64), n_inv)).push(spec_fr_inv(spec_fr_sub(env.zeta, 1u64))).last() == spec_fr_inv(spec_fr_sub(env.zeta, 1u64)) && Seq::<u64>::empty().push(spec_fr_mul(spec_fr_mul(spec_fr_mul(spec_fr_mul(spec_fr_add(spec_fr_add(env.witness_a, spec_fr_mul(env.beta, env.zeta)), env.gamma), spec_fr_add(spec_fr_add(env.witness_b, spec_fr_mul(spec_fr_mul(env.beta, SHIFT_K1 as u64), env.zeta)), env.gamma)), spec_fr_add(spec_fr_add(env.witness_c, spec_fr_mul(spec_fr_mul(env.beta, SHIFT_K2 as u64), env.zeta)), env.gamma)), env.accumulator), spec_fr_pow(env.alpha, s as nat))).push(spec_fr_mul(spec_fr_sub(spec_fr_pow(env.zeta, n as nat), 1u64), n_inv)).push(spec_fr_inv(spec_fr_sub(env.zeta, 1u64)))[3 - 2] == spec_fr_mul(spec_fr_sub(spec_fr_pow(env.zeta, n as nat), 1u64), n_inv));
    assert(t[42] == PolishToken::Mul);
    assert(t.skip(42).drop_first() =~= t.skip(43));
    assert(spec_run(t.skip(42), env, Seq::<u64>::empty().push(spec_fr_mul(spec_fr_mul(spec_fr_mul(spec_fr_mul(spec_fr_add(spec_fr_add(env.witness_a, spec_fr_mul(env.beta, env.zeta)), env.gamma), spec_fr_add(spec_fr_add(env.witness_b, spec_fr_mul(spec_fr_mul(env.beta, SHIFT_K1 as u64), env.zeta)), env.gamma)), spec_fr_add(spec_fr_add(env.witness_c, spec_fr_mul(spec_fr_mul(env.beta, SHIFT_K2 as u64), env.zeta)), env.gamma)), env.accumulator), spec_fr_pow(env.alpha, s as nat))).push(spec_fr_mul(spec_fr_sub(spec_fr_pow(env.zeta, n as nat), 1u64), n_inv)).push(spec_fr_inv(spec_fr_sub(env.zeta, 1u64)))) == spec_run(t.skip(43), env, Seq::<u64>::empty().push(spec_fr_mul(spec_fr_mul(spec_fr_mul(spec_fr_mul(spec_fr_add(spec_fr_add(env.witness_a, spec_fr_mul(env.beta, env.zeta)), env.gamma), spec_fr_add(spec_fr_add(env.witness_b, spec_fr_mul(spec_fr_mul(env.beta, SHIFT_K1 as u64), env.zeta)), env.gamma)), spec_fr_add(spec_fr_add(env.witness_c, spec_fr_mul(spec_fr_mul(env.beta, SHIFT_K2 as u64), env.zeta)), env.gamma)), env.accumulator), spec_fr_pow(env.alpha, s as nat))).push(spec_fr_mul(spec_fr_mul(spec_fr_sub(spec_fr_pow(env.zeta, n as nat), 1u64), n_inv), spec_fr_inv(spec_fr_sub(env.zeta, 1u64))))));
    assert(t[43] == PolishToken::Alpha);
    assert(t.skip(43).drop_first() =~= t.skip(44));
    assert(spec_run(t.skip(43), env, Seq::<u64>::empty().push(spec_fr_mul(spec_fr_mul(spec_fr_mul(spec_fr_mul(spec_fr_add(spec_fr_add(env.witness_a, spec_fr_mul(env.beta, env.zeta)), env.gamma), spec_fr_add(spec_fr_add(env.witness_b, spec_fr_mul(spec_fr_mul(env.beta, SHIFT_K1 as u64), env.zeta)), env.gamma)), spec_fr_add(spec_fr_add(env.witness_c, spec_fr_mul(spec_fr_mul(env.beta, SHIFT_K2 as u64), env.zeta)), env.gamma)), env.accumulator), spec_fr_pow(env.alpha, s as nat))).push(spec_fr_mul(spec_fr_mul(spec_fr_sub(spec_fr_pow(env.zeta, n as nat), 1u64), n_inv), spec_fr_inv(spec_fr_sub(env.zeta, 1u64))))) == spec_run(t.skip(44), env, Seq::<u64>::empty().push(spec_fr_mul(spec_fr_mul(spec_fr_mul(spec_fr_mul(spec_fr_add(spec_fr_add(env.witness_a, spec_fr_mul(env.beta, env.zeta)), env.gamma), spec_fr_add(spec_fr_add(env.witness_b, spec_fr_mul(spec_fr_mul(env.beta, SHIFT_K1 as u64), env.zeta)), env.gamma)), spec_fr_add(spec_fr_add(env.witness_c, spec_fr_mul(spec_fr_mul(env.beta, SHIFT_K2 as u64), env.zeta)), env.gamma)), env.accumulator), spec_fr_pow(env.alpha, s as nat))).push(spec_fr_mul(spec_fr_mul(spec_fr_sub(spec_fr_pow(env.zeta, n as nat), 1u64), n_inv), spec_fr_inv(spec_fr_sub(env.zeta, 1u64)))).push(env.alpha)));
    assert(Seq::<u64>::empty().push(spec_fr_mul(spec_fr_mul(spec_fr_mul(spec_fr_mul(spec_fr_add(spec_fr_add(env.witness_a, spec_fr_mul(env.beta, env.zeta)), env.gamma), spec_fr_add(spec_fr_add(env.witness_b, spec_fr_mul(spec_fr_mul(env.beta, SHIFT_K1 as u64), env.zeta)), env.gamma)), spec_fr_add(spec_fr_add(env.witness_c, spec_fr_mul(spec_fr_mul(env.beta, SHIFT_K2 as u64), env.zeta)), env.gamma)), env.accumulator), spec_fr_pow(env.alpha, s as nat))).push(spec_fr_mul(spec_fr_mul(spec_fr_sub(spec_fr_pow(env.zeta, n as nat), 1u64), n_inv), spec_fr_inv(spec_fr_sub(env.zeta, 1u64)))).push(env.alpha).drop_last() =~= Seq::<u64>::empty().push(spec_fr_mul(spec_fr_mul(spec_fr_mul(spec_fr_mul(spec_fr_add(spec_fr_add(env.witness_a, spec_fr_mul(env.beta, env.zeta)), env.gamma), spec_fr_add(spec_fr_add(env.witness_b, spec_fr_mul(spec_fr_mul(env.beta, SHIFT_K1 as u64), env.zeta)), env.gamma)), spec_fr_add(spec_fr_add(env.witness_c, spec_fr_mul(spec_fr_mul(env.beta, SHIFT_K2 as u64), env.zeta)), env.gamma)), env.accumulator), spec_fr_pow(env.alpha, s as nat))).push(spec_fr_mul(spec_fr_mul(spec_fr_sub(spec_fr_pow(env.zeta, n as nat), 1u64), n_inv), spec_fr_inv(spec_fr_sub(env.zeta, 1u64)))));
    assert(Seq::<u64>::empty().push(spec_fr_mul(spec_fr_mul(spec_fr_mul(spec_fr_mul(spec_fr_add(spec_fr_add(env.witness_a, spec_fr_mul(env.beta, env.zeta)), env.gamma), spec_fr_add(spec_fr_add(env.witness_b, spec_fr_mul(spec_fr_mul(env.beta, SHIFT_K1 as u64), env.zeta)), env.gamma)), spec_fr_add(spec_fr_add(env.witness_c, spec_fr_mul(spec_fr_mul(env.beta, SHIFT_K2 as u64), env.zeta)), env.gamma)), env.accumulator), spec_fr_pow(env.alpha, s as nat))).push(spec_fr_mul(spec_fr_mul(spec_fr_sub(spec_fr_pow(env.zeta, n as nat), 1u64), n_inv), spec_fr_inv(spec_fr_sub(env.zeta, 1u64)))).push(env.alpha).last() == env.alpha);
    assert(t[44] == PolishToken::Pow((s + 1) as u64));
    assert(t.skip(44).drop_first() =~= t.skip(45));
    assert(spec_run(t.skip(44), env, Seq::<u64>::empty().push(spec_fr_mul(spec_fr_mul(spec_fr_mul(spec_fr_mul(spec_fr_add(spec_fr_add(env.witness_a, spec_fr_mul(env.beta, env.zeta)), env.gamma), spec_fr_add(spec_fr_add(env.witness_b, spec_fr_mul(spec_fr_mul(env.beta, SHIFT_K1 as u64), env.zeta)), env.gamma)), spec_fr_add(spec_fr_add(env.witness_c, spec_fr_mul(spec_fr_mul(env.beta, SHIFT_K2 as u64), env.zeta)), env.gamma)), env.accumulator), spec_fr_pow(env.alpha, s as nat))).push(spec_fr_mul(spec_fr_mul(spec_fr_sub(spec_fr_pow(env.zeta, n as nat), 1u64), n_inv), spec_fr_inv(spec_fr_sub(env.zeta, 1u64)))).push(env.alpha)) == spec_run(t.skip(45), env, Seq::<u64>::empty().push(spec_fr_mul(spec_fr_mul(spec_fr_mul(spec_fr_mul(spec_fr_add(spec_fr_add(env.witness_a, spec_fr_mul(env.beta, env.zeta)), env.gamma), spec_fr_add(spec_fr_add(env.witness_b, spec_fr_mul(spec_fr_mul(env.beta, SHIFT_K1 as u64), env.zeta)), env.gamma)), spec_fr_add(spec_fr_add(env.witness_c, spec_fr_mul(spec_fr_mul(env.beta, SHIFT_K2 as u64), env.zeta)), env.gamma)), env.accumulator), spec_fr_pow(env.alpha, s as nat))).push(spec_fr_mul(spec_fr_mul(spec_fr_sub(spec_fr_pow(env.zeta, n as nat), 1u64), n_inv), spec_fr_inv(spec_fr_sub(env.zeta, 1u64)))).push(spec_fr_pow(env.alpha, ((s + 1) as u64) as nat))));
    assert(Seq::<u64>::empty().push(spec_fr_mul(spec_fr_mul(spec_fr_mul(spec_fr_mul(spec_fr_add(spec_fr_add(env.witness_a, spec_fr_mul(env.beta, env.zeta)), env.gamma), spec_fr_add(spec_fr_add(env.witness_b, spec_fr_mul(spec_fr_mul(env.beta, SHIFT_K1 as u64), env.zeta)), env.gamma)), spec_fr_add(spec_fr_add(env.witness_c, spec_fr_mul(spec_fr_mul(env.beta, SHIFT_K2 as u64), env.zeta)), env.gamma)), env.accumulator), spec_fr_pow(env.alpha, s as nat))).push(spec_fr_mul(spec_fr_mul(spec_fr_sub(spec_fr_pow(env.zeta, n as nat), 1u64), n_inv), spec_fr_inv(spec_fr_sub(env.zeta, 1u64)))).push(spec_fr_pow(env.alpha, ((s + 1) as u64) as nat)).drop_last() =~= Seq::<u64>::empty().push(spec_fr_mul(spec_fr_mul(spec_fr_mul(spec_fr_mul(spec_fr_add(spec_fr_add(env.witness_a, spec_fr_mul(env.beta, env.zeta)), env.gamma), spec_fr_add(spec_fr_add(env.witness_b, spec_fr_mul(spec_fr_mul(env.beta, SHIFT_K1 as u64), env.zeta)), env.gamma)), spec_fr_add(spec_fr_add(env.witness_c, spec_fr_mul(spec_fr_mul(env.beta, SHIFT_K2 as u64), env.zeta)), env.gamma)), env.accumulator), spec_fr_pow(env.alpha, s as nat))).push(spec_fr_mul(spec_fr_mul(spec_fr_sub(spec_fr_pow(env.zeta, n as nat), 1u64), n_inv), spec_fr_inv(spec_fr_sub(env.zeta, 1u64)))));
    assert(Seq::<u64>::empty().push(spec_fr_mul(spec_fr_mul(spec_fr_mul(spec_fr_mul(spec_fr_add(spec_fr_add(env.witness_a, spec_fr_mul(env.beta, env.zeta)), env.gamma), spec_fr_add(spec_fr_add(env.witness_b, spec_fr_mul(spec_fr_mul(env.beta, SHIFT_K1 as u64), env.zeta)), env.gamma)), spec_fr_add(spec_fr_add(env.witness_c, spec_fr_mul(spec_fr_mul(env.beta, SHIFT_K2 as u64), env.zeta)), env.gamma)), env.accumulator), spec_fr_pow(env.alpha, s as nat))).push(spec_fr_mul(spec_fr_mul(spec_fr_sub(spec_fr_pow(env.zeta, n as nat), 1u64), n_inv), spec_fr_inv(spec_fr_sub(env.zeta, 1u64)))).push(spec_fr_pow(env.alpha, ((s + 1) as u64) as nat)).drop_last().drop_last() =~= Seq::<u64>::empty().push(spec_fr_mul(spec_fr_mul(spec_fr_mul(spec_fr_mul(spec_fr_add(spec_fr_add(env.witness_a, spec_fr_mul(env.beta, env.zeta)), env.gamma), spec_fr_add(spec_fr_add(env.witness_b, spec_fr_mul(spec_fr_mul(env.beta, SHIFT_K1 as u64), env.zeta)), env.gamma)), spec_fr_add(spec_fr_add(env.witness_c, spec_fr_mul(spec_fr_mul(env.beta, SHIFT_K2 as u64), env.zeta)), env.gamma)), env.accumulator), spec_fr_pow(env.alpha, s as nat))));
    assert(Seq::<u64>::empty().push(spec_fr_mul(spec_fr_mul(spec_fr_mul(spec_fr_mul(spec_fr_add(spec_fr_add(env.witness_a, spec_fr_mul(env.beta, env.zeta)), env.gamma), spec_fr_add(spec_fr_add(env.witness_b, spec_fr_mul(spec_fr_mul(env.beta, SHIFT_K1 as u64), env.zeta)), env.gamma)), spec_fr_add(spec_fr_add(env.witness_c, spec_fr_mul(spec_fr_mul(env.beta, SHIFT_K2 as u64), env.zeta)), env.gamma)), env.accumulator), spec_fr_pow(env.alpha, s as nat))).push(spec_fr_mul(spec_fr_mul(spec_fr_sub(spec_fr_pow(env.zeta, n as nat), 1u64), n_inv), spec_fr_inv(spec_fr_sub(env.zeta, 1u64)))).push(spec_fr_pow(env.alpha, ((s + 1) as u64) as nat)).last() == spec_fr_pow(env.alpha, ((s + 1) as u64) as nat) && Seq::<u64>::empty().push(spec_fr_mul(spec_fr_mul(spec_fr_mul(spec_fr_mul(spec_fr_add(spec_fr_add(env.witness_a, spec_fr_mul(env.beta, env.zeta)), env.gamma), spec_fr_add(spec_fr_add(env.witness_b, spec_fr_mul(spec_fr_mul(env.beta, SHIFT_K1 as u64), env.zeta)), env.gamma)), spec_fr_add(spec_fr_add(env.witness_c, spec_fr_mul(spec_fr_mul(env.beta, SHIFT_K2 as u64), env.zeta)), env.gamma)), env.accumulator), spec_fr_pow(env.alpha, s as nat))).push(spec_fr_mul(spec_fr_mul(spec_fr_sub(spec_fr_pow(env.zeta, n as nat), 1u64), n_inv), spec_fr_inv(spec_fr_sub(env.zeta, 1u64)))).push(spec_fr_pow(env.alpha, ((s + 1) as u64) as nat))[3 - 2] == spec_fr_mul(spec_fr_mul(spec_fr_sub(spec_fr_pow(env.zeta, n as nat), 1u64), n_inv), spec_fr_inv(spec_fr_sub(env.zeta, 1u64))));
    assert(t[45] == PolishToken::Mul);
    assert(t.skip(45).drop_first() =~= t.skip(46));
    assert(spec_run(t.skip(45), env, Seq::<u64>::empty().push(spec_fr_mul(spec_fr_mul(spec_fr_mul(spec_fr_mul(spec_fr_add(spec_fr_add(env.witness_a, spec_fr_mul(env.beta, env.zeta)), env.gamma), spec_fr_add(spec_fr_add(env.witness_b, spec_fr_mul(spec_fr_mul(env.beta, SHIFT_K1 as u64), env.zeta)), env.gamma)), spec_fr_add(spec_fr_add(env.witness_c, spec_fr_mul(spec_fr_mul(env.beta, SHIFT_K2 as u64), env.zeta)), env.gamma)), env.accumulator), spec_fr_pow(env.alpha, s as nat))).push(spec_fr_mul(spec_fr_mul(spec_fr_sub(spec_fr_pow(env.zeta, n as nat), 1u64), n_inv), spec_fr_inv(spec_fr_sub(env.zeta, 1u64)))).push(spec_fr_pow(env.alpha, ((s + 1) as u64) as nat))) == spec_run(t.skip(46), env, Seq::<u64>::empty().push(spec_fr_mul(spec_fr_mul(spec_fr_mul(spec_fr_mul(spec_fr_add(spec_fr_add(env.witness_a, spec_fr_mul(env.beta, env.zeta)), env.gamma), spec_fr_add(spec_fr_add(env.witness_b, spec_fr_mul(spec_fr_mul(env.beta, SHIFT_K1 as u64), env.zeta)), env.gamma)), spec_fr_add(spec_fr_add(env.witness_c, spec_fr_mul(spec_fr_mul(env.beta, SHIFT_K2 as u64), env.zeta)), env.gamma)), env.accumulator), spec_fr_pow(env.alpha, s as nat))).push(spec_fr_mul(spec_fr_mul(spec_fr_mul(spec_fr_sub(spec_fr_pow(env.zeta, n as nat), 1u64), n_inv), spec_fr_inv(spec_fr_sub(env.zeta, 1u64))), spec_fr_pow(env.alpha, ((s + 1) as u64) as nat)))));
    assert(Seq::<u64>::empty().push(spec_fr_mul(spec_fr_mul(spec_fr_mul(spec_fr_mul(spec_fr_add(spec_fr_add(env.witness_a, spec_fr_mul(env.beta, env.zeta)), env.gamma), spec_fr_add(spec_fr_add(env.witness_b, spec_fr_mul(spec_fr_mul(env.beta, SHIFT_K1 as u64), env.zeta)), env.gamma)), spec_fr_add(spec_fr_add(env.witness_c, spec_fr_mul(spec_fr_mul(env.beta, SHIFT_K2 as u64), env.zeta)), env.gamma)), env.accumulator), spec_fr_pow(env.alpha, s as nat))).push(spec_fr_mul(spec_fr_mul(spec_fr_mul(spec_fr_sub(spec_fr_pow(env.zeta, n as nat), 1u64), n_inv), spec_fr_inv(spec_fr_sub(env.zeta, 1u64))), spec_fr_pow(env.alpha, ((s + 1) as u64) as nat))).drop_last() =~= Seq::<u64>::empty().push(spec_fr_mul(spec_fr_mul(spec_fr_mul(spec_fr_mul(spec_fr_add(spec_fr_add(env.witness_a, spec_fr_mul(env.beta, env.zeta)), env.gamma), spec_fr_add(spec_fr_add(env.witness_b, spec_fr_mul(spec_fr_mul(env.beta, SHIFT_K1 as u64), env.zeta)), env.gamma)), spec_fr_add(spec_fr_add(env.witness_c, spec_fr_mul(spec_fr_mul(env.beta, SHIFT_K2 as u64), env.zeta)), env.gamma)), env.accumulator), spec_fr_pow(env.alpha, s as nat))));
    assert(Seq::<u64>::empty().push(spec_fr_mul(spec_fr_mul(spec_fr_mul(spec_fr_mul(spec_fr_add(spec_fr_add(env.witness_a, spec_fr_mul(env.beta, env.zeta)), env.gamma), spec_fr_add(spec_fr_add(env.witness_b, spec_fr_mul(spec_fr_mul(env.beta, SHIFT_K1 as u64), env.zeta)), env.gamma)), spec_fr_add(spec_fr_add(env.witness_c, spec_fr_mul(spec_fr_mul(env.beta, SHIFT_K2 as u64), env.zeta)), env.gamma)), env.accumulator), spec_fr_pow(env.alpha, s as nat))).push(spec_fr_mul(spec_fr_mul(spec_fr_mul(spec_fr_sub(spec_fr_pow(env.zeta, n as nat), 1u64), n_inv), spec_fr_inv(spec_fr_sub(env.zeta, 1u64))), spec_fr_pow(env.alpha, ((s + 1) as u64) as nat))).drop_last().drop_last() =~= Seq::<u64>::empty());
    assert(Seq::<u64>::empty().push(spec_fr_mul(spec_fr_mul(spec_fr_mul(spec_fr_mul(spec_fr_add(spec_fr_add(env.witness_a, spec_fr_mul(env.beta, env.zeta)), env.gamma), spec_fr_add(spec_fr_add(env.witness_b, spec_fr_mul(spec_fr_mul(env.beta, SHIFT_K1 as u64), env.zeta)), env.gamma)), spec_fr_add(spec_fr_add(env.witness_c, spec_fr_mul(spec_fr_mul(env.beta, SHIFT_K2 as u64), env.zeta)), env.gamma)), env.accumulator), spec_fr_pow(env.alpha, s as nat))).push(spec_fr_mul(spec_fr_mul(spec_fr_mul(spec_fr_sub(spec_fr_pow(env.zeta, n as nat), 1u64), n_inv), spec_fr_inv(spec_fr_sub(env.zeta, 1u64))), spec_fr_pow(env.alpha, ((s + 1) as u64) as nat))).last() == spec_fr_mul(spec_fr_mul(spec_fr_mul(spec_fr_sub(spec_fr_pow(env.zeta, n as nat), 1u64), n_inv), spec_fr_inv(spec_fr_sub(env.zeta, 1u64))), spec_fr_pow(env.alpha, ((s + 1) as u64) as nat)) && Seq::<u64>::empty().push(spec_fr_mul(spec_fr_mul(spec_fr_mul(spec_fr_mul(spec_fr_add(spec_fr_add(env.witness_a, spec_fr_mul(env.beta, env.zeta)), env.gamma), spec_fr_add(spec_fr_add(env.witness_b, spec_fr_mul(spec_fr_mul(env.beta, SHIFT_K1 as u64), env.zeta)), env.gamma)), spec_fr_add(spec_fr_add(env.witness_c, spec_fr_mul(spec_fr_mul(env.beta, SHIFT_K2 as u64), env.zeta)), env.gamma)), env.accumulator), spec_fr_pow(env.alpha, s as nat))).push(spec_fr_mul(spec_fr_mul(spec_fr_mul(spec_fr_sub(spec_fr_pow(env.zeta, n as nat), 1u64), n_inv), spec_fr_inv(spec_fr_sub(env.zeta, 1u64))), spec_fr_pow(env.alpha, ((s + 1) as u64) as nat)))[2 - 2] == spec_fr_mul(spec_fr_mul(spec_fr_mul(spec_fr_mul(spec_fr_add(spec_fr_add(env.witness_a, spec_fr_mul(env.beta, env.zeta)), env.gamma), spec_fr_add(spec_fr_add(env.witness_b, spec_fr_mul(spec_fr_mul(env.beta, SHIFT_K1 as u64), env.zeta)), env.gamma)), spec_fr_add(spec_fr_add(env.witness_c, spec_fr_mul(spec_fr_mul(env.beta, SHIFT_K2 as u64), env.zeta)), env.gamma)), env.accumulator), spec_fr_pow(env.alpha, s as nat)));
    assert(t[46] == PolishToken::Add);
    assert(t.skip(46).drop_first() =~= t.skip(47));
    assert(spec_run(t.skip(46), env, Seq::<u64>::empty().push(spec_fr_mul(spec_fr_mul(spec_fr_mul(spec_fr_mul(spec_fr_add(spec_fr_add(env.witness_a, spec_fr_mul(env.beta, env.zeta)), env.gamma), spec_fr_add(spec_fr_add(env.witness_b, spec_fr_mul(spec_fr_mul(env.beta, SHIFT_K1 as u64), env.zeta)), env.gamma)), spec_fr_add(spec_fr_add(env.witness_c, spec_fr_mul(spec_fr_mul(env.beta, SHIFT_K2 as u64), env.zeta)), env.gamma)), env.accumulator), spec_fr_pow(env.alpha, s as nat))).push(spec_fr_mul(spec_fr_mul(spec_fr_mul(spec_fr_sub(spec_fr_pow(env.zeta, n as nat), 1u64), n_inv), spec_fr_inv(spec_fr_sub(env.zeta, 1u64))), spec_fr_pow(env.alpha, ((s + 1) as u64) as nat)))) == spec_run(t.skip(47), env, Seq::<u64>::empty().push(spec_fr_add(spec_fr_mul(spec_fr_mul(spec_fr_mul(spec_fr_mul(spec_fr_add(spec_fr_add(env.witness_a, spec_fr_mul(env.beta, env.zeta)), env.gamma), spec_fr_add(spec_fr_add(env.witness_b, spec_fr_mul(spec_fr_mul(env.beta, SHIFT_K1 as u64), env.zeta)), env.gamma)), spec_fr_add(spec_fr_add(env.witness_c, spec_fr_mul(spec_fr_mul(env.beta, SHIFT_K2 as u64), env.zeta)), env.gamma)), env.accumulator), spec_fr_pow(env.alpha, s as nat)), spec_fr_mul(spec_fr_mul(spec_fr_mul(spec_fr_sub(spec_fr_pow(env.zeta, n as nat), 1u64), n_inv), spec_fr_inv(spec_fr_sub(env.zeta, 1u64))), spec_fr_pow(env.alpha, ((s + 1) as u64) as nat))))));
    assert(t.skip(47) =~= Seq::<PolishToken>::empty());
    assert(spec_run(t, env, Seq::<u64>::empty()) == Some(
        Seq::<u64>::empty().push(spec_program_value(n, n_inv, s, env)),
    ));
}

} // verus!
