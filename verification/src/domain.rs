//! Multiplicative evaluation domains.
//!
//! A domain is a cyclic multiplicative subgroup of the field, given by its
//! size and a generator.  The generator is derived deterministically from
//! the fixed primitive root, and its order is checked at construction, so a
//! well-formed domain provably satisfies `group_gen^size == 1`.

use vstd::prelude::*;
use crate::field::{fr_pow, fr_wf, spec_fr_pow, MODULUS, PRIMITIVE_ROOT};

verus! {

/// The largest supported domain size (the two-adicity of the field).
pub const MAX_DOMAIN_SIZE: u64 = 0x1_0000_0000;

#[derive(Clone, Copy, Debug)]
pub struct Domain {
    pub size: u64,
    pub group_gen: u64,
}

impl Domain {
    pub open spec fn wf(self) -> bool {
        0 < self.size && self.size <= MAX_DOMAIN_SIZE && fr_wf(self.group_gen) && spec_fr_pow(
            self.group_gen,
            self.size as nat,
        ) == 1
    }

    /// The derived generator for a candidate size.
    pub open spec fn spec_gen_of(size: u64) -> u64 {
        spec_fr_pow(PRIMITIVE_ROOT, (((MODULUS - 1) as u64) / size) as nat)
    }

    /// Whether a size is accepted: positive, within the two-adic range,
    /// dividing the group order, and with the derived generator of the
    /// right order.
    pub open spec fn spec_accepts(size: u64) -> bool {
        &&& 0 < size
        &&& size <= MAX_DOMAIN_SIZE
        &&& ((MODULUS - 1) as u64) % size == 0
        &&& spec_fr_pow(Self::spec_gen_of(size), size as nat) == 1
    }

    /// Build the domain of a given size.  The generator is the fixed
    /// primitive root raised to the cofactor; its order is confirmed by a
    /// run-time check, so the returned domain is well formed by
    /// construction.
    pub fn generate(size: u64) -> (r: Option<Domain>)
        ensures
            r matches Some(d) ==> d.wf() && d.size == size && d.group_gen == Self::spec_gen_of(
                size,
            ),
            r is Some <==> Self::spec_accepts(size),
    {
        if size == 0 || size > MAX_DOMAIN_SIZE {
            return None;
        }
        if (MODULUS - 1) % size != 0 {
            return None;
        }
        let group_gen = fr_pow(PRIMITIVE_ROOT, (MODULUS - 1) / size);
        let order_check = fr_pow(group_gen, size);
        if order_check != 1 {
            return None;
        }
        Some(Domain { size, group_gen })
    }
}

} // verus!
