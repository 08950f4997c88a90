//! Scalar-field arithmetic for the protocol core.
//!
//! The protocol is polymorphic over the underlying field in spirit; this
//! library fixes one concrete instance, the 64-bit prime field with modulus
//! `2^64 - 2^32 + 1`, so that every arithmetic step is a plain machine
//! operation with an exact specification.  Elements are `u64` values in
//! `[0, MODULUS)`.

use vstd::prelude::*;
use vstd::arithmetic::div_mod::{
    lemma_mod_add_multiples_vanish, lemma_mod_bound, lemma_mul_mod_noop_general, lemma_small_mod,
};

verus! {

/// The field modulus: 2^64 - 2^32 + 1.
pub const MODULUS: u64 = 0xffff_ffff_0000_0001;

/// A fixed multiplicative generator of the full group of units.
pub const PRIMITIVE_ROOT: u64 = 7;

/// A field element is a canonical residue.
pub open spec fn fr_wf(x: u64) -> bool {
    x < MODULUS
}

#[verifier::opaque]
pub open spec fn spec_fr_add(a: u64, b: u64) -> u64 {
    (((a as int) + (b as int)) % (MODULUS as int)) as u64
}

#[verifier::opaque]
pub open spec fn spec_fr_sub(a: u64, b: u64) -> u64 {
    (((a as int) - (b as int)) % (MODULUS as int)) as u64
}

#[verifier::opaque]
pub open spec fn spec_fr_mul(a: u64, b: u64) -> u64 {
    (((a as int) * (b as int)) % (MODULUS as int)) as u64
}

pub open spec fn spec_fr_pow(base: u64, e: nat) -> u64
    decreases e,
{
    if e == 0 {
        1
    } else {
        spec_fr_mul(base, spec_fr_pow(base, (e - 1) as nat))
    }
}

/// The candidate inverse: the Fermat power `base^(MODULUS - 2)`, kept only
/// when a concrete product check confirms it; `0` otherwise (in particular
/// for `base == 0`).
pub open spec fn spec_fr_inv(x: u64) -> u64 {
    let c = spec_fr_pow(x, (MODULUS - 2) as nat);
    if spec_fr_mul(c, x) == 1 {
        c
    } else {
        0
    }
}

pub open spec fn spec_fr_div(a: u64, b: u64) -> u64 {
    spec_fr_mul(a, spec_fr_inv(b))
}

pub proof fn lemma_fr_add_wf(a: u64, b: u64)
    ensures
        fr_wf(spec_fr_add(a, b)),
{
    reveal(spec_fr_add);
    lemma_mod_bound((a as int) + (b as int), MODULUS as int);
}

pub proof fn lemma_fr_mul_wf(a: u64, b: u64)
    ensures
        fr_wf(spec_fr_mul(a, b)),
{
    reveal(spec_fr_mul);
    lemma_mod_bound((a as int) * (b as int), MODULUS as int);
}

pub proof fn lemma_fr_pow_wf(base: u64, e: nat)
    ensures
        fr_wf(spec_fr_pow(base, e)),
    decreases e,
{
    if e == 0 {
    } else {
        lemma_fr_pow_wf(base, (e - 1) as nat);
        lemma_fr_mul_wf(base, spec_fr_pow(base, (e - 1) as nat));
    }
}

/// Field addition.
pub fn fr_add(a: u64, b: u64) -> (r: u64)
    requires
        fr_wf(a),
        fr_wf(b),
    ensures
        r == spec_fr_add(a, b),
        fr_wf(r),
{
    proof {
        reveal(spec_fr_add);
        lemma_fr_add_wf(a, b);
    }
    let s: u128 = a as u128 + b as u128;
    if s >= MODULUS as u128 {
        proof {
            lemma_mod_add_multiples_vanish((a as int) + (b as int) - (MODULUS as int),
                MODULUS as int);
            lemma_small_mod(((a as int) + (b as int) - (MODULUS as int)) as nat, MODULUS as nat);
        }
        (s - MODULUS as u128) as u64
    } else {
        proof {
            lemma_small_mod(((a as int) + (b as int)) as nat, MODULUS as nat);
        }
        s as u64
    }
}

/// Field subtraction.
pub fn fr_sub(a: u64, b: u64) -> (r: u64)
    requires
        fr_wf(a),
        fr_wf(b),
    ensures
        r == spec_fr_sub(a, b),
        fr_wf(r),
{
    if a >= b {
        proof {
            reveal(spec_fr_sub);
            lemma_small_mod((a - b) as nat, MODULUS as nat);
        }
        a - b
    } else {
        proof {
            reveal(spec_fr_sub);
            lemma_mod_add_multiples_vanish((a as int) - (b as int), MODULUS as int);
            lemma_small_mod(((a as int) - (b as int) + (MODULUS as int)) as nat, MODULUS as nat);
        }
        a + (MODULUS - b)
    }
}

/// Field negation.
pub fn fr_neg(a: u64) -> (r: u64)
    requires
        fr_wf(a),
    ensures
        r == spec_fr_sub(0, a),
        fr_wf(r),
{
    fr_sub(0, a)
}

/// Field multiplication.
pub fn fr_mul(a: u64, b: u64) -> (r: u64)
    requires
        fr_wf(a),
        fr_wf(b),
    ensures
        r == spec_fr_mul(a, b),
        fr_wf(r),
{
    proof {
        reveal(spec_fr_mul);
        lemma_fr_mul_wf(a, b);
        assert((a as int) * (b as int) <= (u64::MAX as int) * (u64::MAX as int)) by (nonlinear_arith)
            requires
                a <= u64::MAX,
                b <= u64::MAX,
        ;
    }
    let p: u128 = (a as u128) * (b as u128);
    (p % (MODULUS as u128)) as u64
}

/// Multiplying residues is the same as multiplying and then reducing.
pub proof fn lemma_fr_mul_mod_noop(x: int, y: int)
    ensures
        ((x % (MODULUS as int)) * (y % (MODULUS as int))) % (MODULUS as int) == (x * y) % (
        MODULUS as int),
{
    lemma_mul_mod_noop_general(x, y, MODULUS as int);
}

pub proof fn lemma_fr_mul_comm(a: u64, b: u64)
    ensures
        spec_fr_mul(a, b) == spec_fr_mul(b, a),
{
    reveal(spec_fr_mul);
    assert((a as int) * (b as int) == (b as int) * (a as int)) by (nonlinear_arith);
}

pub proof fn lemma_fr_mul_assoc(a: u64, b: u64, c: u64)
    requires
        fr_wf(a),
        fr_wf(b),
        fr_wf(c),
    ensures
        spec_fr_mul(spec_fr_mul(a, b), c) == spec_fr_mul(a, spec_fr_mul(b, c)),
{
    reveal(spec_fr_mul);
    let m = MODULUS as int;
    let ab = (a as int) * (b as int);
    let bc = (b as int) * (c as int);
    lemma_fr_mul_wf(a, b);
    lemma_fr_mul_wf(b, c);
    lemma_small_mod(c as nat, MODULUS as nat);
    lemma_small_mod(a as nat, MODULUS as nat);
    lemma_fr_mul_mod_noop(ab, c as int);
    lemma_fr_mul_mod_noop(a as int, bc);
    assert(((a as int) * (b as int)) * (c as int) == (a as int) * ((b as int) * (c as int)))
        by (nonlinear_arith);
}

pub proof fn lemma_fr_mul_one(a: u64)
    requires
        fr_wf(a),
    ensures
        spec_fr_mul(a, 1) == a,
        spec_fr_mul(1, a) == a,
{
    reveal(spec_fr_mul);
    lemma_small_mod(a as nat, MODULUS as nat);
    lemma_fr_mul_comm(a, 1);
}

/// `base^(e1 + e2) == base^e1 * base^e2` in the field.
pub proof fn lemma_fr_pow_adds(base: u64, e1: nat, e2: nat)
    requires
        fr_wf(base),
    ensures
        spec_fr_pow(base, e1 + e2) == spec_fr_mul(spec_fr_pow(base, e1), spec_fr_pow(base, e2)),
    decreases e1,
{
    lemma_fr_pow_wf(base, e2);
    if e1 == 0 {
        lemma_fr_mul_one(spec_fr_pow(base, e2));
    } else {
        lemma_fr_pow_adds(base, (e1 - 1) as nat, e2);
        lemma_fr_pow_wf(base, (e1 - 1) as nat);
        lemma_fr_mul_assoc(base, spec_fr_pow(base, (e1 - 1) as nat), spec_fr_pow(base, e2));
        assert(e1 + e2 - 1 == (e1 - 1) as nat + e2);
    }
}

/// Squaring the base halves the exponent.
pub proof fn lemma_fr_pow_square(base: u64, e: nat)
    requires
        fr_wf(base),
    ensures
        spec_fr_pow(spec_fr_mul(base, base), e) == spec_fr_pow(base, 2 * e),
    decreases e,
{
    lemma_fr_mul_wf(base, base);
    if e == 0 {
    } else {
        lemma_fr_pow_square(base, (e - 1) as nat);
        lemma_fr_pow_adds(base, 1, (2 * e - 2) as nat);
        lemma_fr_pow_adds(base, 1, 0);
        lemma_fr_mul_one(base);
        lemma_fr_pow_wf(base, (2 * e - 2) as nat);
        lemma_fr_mul_assoc(base, base, spec_fr_pow(base, (2 * e - 2) as nat));
        assert(spec_fr_pow(base, 2 * e) == spec_fr_mul(base, spec_fr_pow(base, (2 * e - 1) as nat)));
    }
}

/// Field exponentiation by square and multiply.
pub fn fr_pow(base: u64, e: u64) -> (r: u64)
    requires
        fr_wf(base),
    ensures
        r == spec_fr_pow(base, e as nat),
        fr_wf(r),
{
    let mut acc: u64 = 1;
    let mut b: u64 = base;
    let mut k: u64 = e;
    proof {
        lemma_fr_pow_wf(base, e as nat);
        lemma_fr_mul_one(spec_fr_pow(base, e as nat));
        lemma_fr_mul_comm(spec_fr_pow(base, e as nat), 1);
    }
    while k > 0
        invariant
            fr_wf(acc),
            fr_wf(b),
            spec_fr_mul(acc, spec_fr_pow(b, k as nat)) == spec_fr_pow(base, e as nat),
        decreases k,
    {
        proof {
            lemma_fr_pow_wf(b, (k / 2) as nat);
            lemma_fr_pow_wf(b, (k - 1) as nat);
            lemma_fr_pow_square(b, (k / 2) as nat);
        }
        if k % 2 == 1 {
            proof {
                // acc * b^k == acc * (b * b^(k-1)) == (acc * b) * b^(k-1)
                lemma_fr_mul_assoc(acc, b, spec_fr_pow(b, (k - 1) as nat));
                // b^(k-1) == (b*b)^(k/2) since k - 1 == 2 * (k / 2)
                assert((k - 1) as nat == 2 * ((k / 2) as nat));
            }
            acc = fr_mul(acc, b);
        } else {
            proof {
                assert(k as nat == 2 * ((k / 2) as nat));
            }
        }
        b = fr_mul(b, b);
        k = k / 2;
    }
    proof {
        lemma_fr_mul_one(acc);
    }
    acc
}

/// Field inverse, checked at run time: the Fermat-power candidate is
/// returned only when its product with the argument is `1`, so a nonzero
/// result is always a true inverse; `0` is returned otherwise.
pub fn fr_inv(x: u64) -> (r: u64)
    requires
        fr_wf(x),
    ensures
        r == spec_fr_inv(x),
        fr_wf(r),
        r != 0 ==> spec_fr_mul(r, x) == 1,
{
    let c = fr_pow(x, MODULUS - 2);
    let check = fr_mul(c, x);
    if check == 1 {
        c
    } else {
        0
    }
}

/// Field division: `a * b^(-1)`, with the checked inverse (so division by
/// zero yields `0`).
pub fn fr_div(a: u64, b: u64) -> (r: u64)
    requires
        fr_wf(a),
        fr_wf(b),
    ensures
        r == spec_fr_div(a, b),
        fr_wf(r),
{
    let i = fr_inv(b);
    fr_mul(a, i)
}

} // verus!
