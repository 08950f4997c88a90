//! The random-oracle sponge behind the Fiat-Shamir transcript.
//!
//! The protocol only needs a duplex sponge over the scalar field with
//! domain separation between absorbing field elements, absorbing group
//! elements, and squeezing.  This module supplies a small concrete one: the
//! state is a single field element, stirred by a fixed-round power map.  It
//! is a transparent model instrument, not a hardened hash; every step has an
//! exact functional contract, so two transcripts that absorb the same data
//! in the same order provably squeeze the same challenges.

use vstd::prelude::*;
use crate::field::{fr_add, fr_mul, fr_wf, spec_fr_add, spec_fr_mul};

verus! {

/// Round constants of the stirring permutation.
pub const ROUND_0: u64 = 0x7311_c281_2425_cfa0;
pub const ROUND_1: u64 = 0x6432_86e3_03db_4be5;
pub const ROUND_2: u64 = 0x1f83_d9ab_fb41_bd6b;
pub const ROUND_3: u64 = 0x5be0_cd19_137e_2179;
pub const ROUND_4: u64 = 0x243f_6a88_85a3_08d3;

/// Domain-separation tags: absorbing a field element, absorbing a group
/// element, and squeezing are three distinct transcript events.
pub const TAG_FIELD: u64 = 1;
pub const TAG_GROUP: u64 = 2;
pub const TAG_SQUEEZE: u64 = 3;

pub open spec fn spec_sbox(x: u64) -> u64 {
    let x2 = spec_fr_mul(x, x);
    let x4 = spec_fr_mul(x2, x2);
    let x6 = spec_fr_mul(x4, x2);
    spec_fr_mul(x6, x)
}

pub open spec fn spec_round(x: u64, c: u64) -> u64 {
    spec_fr_add(spec_sbox(x), c % crate::field::MODULUS)
}

#[verifier::opaque]
pub open spec fn spec_permute(x: u64) -> u64 {
    spec_round(
        spec_round(spec_round(spec_round(spec_round(x, ROUND_0), ROUND_1), ROUND_2), ROUND_3),
        ROUND_4,
    )
}

/// One absorb or squeeze event folded into the state: the tag, then the
/// datum, then the permutation.
pub open spec fn spec_stir(state: u64, tag: u64, v: u64) -> u64 {
    spec_permute(spec_fr_add(spec_fr_add(state, tag % crate::field::MODULUS), v))
}

/// A whole sequence of field elements absorbed in order.
pub open spec fn spec_absorb_fr_seq(state: u64, vs: Seq<u64>) -> u64
    decreases vs.len(),
{
    if vs.len() == 0 {
        state
    } else {
        spec_absorb_fr_seq(spec_stir(state, TAG_FIELD, vs[0]), vs.drop_first())
    }
}

/// The state after a squeeze, and the squeezed challenge (they coincide).
pub open spec fn spec_squeeze(state: u64) -> u64 {
    spec_stir(state, TAG_SQUEEZE, 0)
}

/// The transcript sponge.  Each verification call owns its own instance;
/// nothing here is shared.
pub struct Sponge {
    pub state: u64,
}

impl Sponge {
    pub open spec fn wf(self) -> bool {
        fr_wf(self.state)
    }

    /// A fresh transcript seeded with the deployment's transcript parameters.
    pub fn new(params: u64) -> (s: Sponge)
        requires
            fr_wf(params),
        ensures
            s.state == params,
            s.wf(),
    {
        Sponge { state: params }
    }

    fn stir(&mut self, tag: u64, v: u64) -> (r: ())
        requires
            old(self).wf(),
            fr_wf(v),
            tag < crate::field::MODULUS,
        ensures
            final(self).state == spec_stir(old(self).state, tag, v),
            final(self).wf(),
    {
        proof {
            reveal(spec_permute);
            vstd::arithmetic::div_mod::lemma_small_mod(tag as nat, crate::field::MODULUS as nat);
        }
        let mut x = fr_add(fr_add(self.state, tag), v);
        x = Self::round(x, ROUND_0);
        x = Self::round(x, ROUND_1);
        x = Self::round(x, ROUND_2);
        x = Self::round(x, ROUND_3);
        x = Self::round(x, ROUND_4);
        self.state = x;
    }

    fn round(x: u64, c: u64) -> (r: u64)
        requires
            fr_wf(x),
        ensures
            r == spec_round(x, c),
            fr_wf(r),
    {
        let x2 = fr_mul(x, x);
        let x4 = fr_mul(x2, x2);
        let x6 = fr_mul(x4, x2);
        let x7 = fr_mul(x6, x);
        proof {
            vstd::arithmetic::div_mod::lemma_mod_bound(c as int, crate::field::MODULUS as int);
        }
        fr_add(x7, c % crate::field::MODULUS)
    }

    /// Absorb one field element.
    pub fn absorb_fr(&mut self, v: u64)
        requires
            old(self).wf(),
            fr_wf(v),
        ensures
            final(self).state == spec_stir(old(self).state, TAG_FIELD, v),
            final(self).wf(),
    {
        self.stir(TAG_FIELD, v);
    }

    /// Absorb one commitment (a group element of the model group).
    pub fn absorb_g(&mut self, v: u64)
        requires
            old(self).wf(),
            fr_wf(v),
        ensures
            final(self).state == spec_stir(old(self).state, TAG_GROUP, v),
            final(self).wf(),
    {
        self.stir(TAG_GROUP, v);
    }

    /// Squeeze one challenge.
    pub fn challenge(&mut self) -> (r: u64)
        requires
            old(self).wf(),
        ensures
            final(self).state == spec_squeeze(old(self).state),
            r == spec_squeeze(old(self).state),
            final(self).wf(),
            fr_wf(r),
    {
        self.stir(TAG_SQUEEZE, 0);
        self.state
    }

    /// Absorb a whole slice of field elements in order.
    #[verifier::rlimit(50)]
    pub fn absorb_fr_all(&mut self, vs: &Vec<u64>)
        requires
            old(self).wf(),
            forall|i: int| 0 <= i < vs@.len() ==> fr_wf(#[trigger] vs@[i]),
        ensures
            final(self).state == spec_absorb_fr_seq(old(self).state, vs@),
            final(self).wf(),
    {
        let ghost orig = self.state;
        proof {
            assert(vs@.skip(0) =~= vs@);
        }
        let mut i: usize = 0;
        while i < vs.len()
            invariant
                self.wf(),
                i <= vs@.len(),
                forall|j: int| 0 <= j < vs@.len() ==> fr_wf(#[trigger] vs@[j]),
                spec_absorb_fr_seq(self.state, vs@.skip(i as int)) == spec_absorb_fr_seq(
                    orig,
                    vs@,
                ),
            decreases vs@.len() - i,
        {
            proof {
                assert(vs@.skip(i as int)[0] == vs@[i as int]);
                assert(vs@.skip(i as int).drop_first() =~= vs@.skip(i as int + 1));
            }
            self.absorb_fr(vs[i]);
            i = i + 1;
        }
        proof {
            assert(vs@.skip(i as int) =~= Seq::<u64>::empty());
        }
    }
}

} // verus!
