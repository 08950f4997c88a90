//! The power-of-alpha allocator.
//!
//! Each constraint family receives the next unused contiguous half-open
//! block of exponents of the random challenge alpha, sized to its number of
//! independent sub-identities.  Prover and verifier derive the same blocks
//! independently, so the allocation must be a pure function of the
//! registration order; the contracts here pin the whole mapping down, and
//! [`lemma_alpha_partition`] states the load-bearing invariant: the blocks
//! tile `[0, total)` with no gap and no overlap.

use vstd::prelude::*;

verus! {

/// A constraint family: one contiguous alpha block per family.
#[derive(Clone, Copy, Debug, PartialEq, Eq, Structural)]
pub enum ArgumentType {
    /// The row constraints of the circuit.
    Gate,
    /// The permutation (copy-constraint) argument.
    Permutation,
    /// The optional lookup argument.
    Lookup,
}

/// One allocated block: the family, the first exponent, and the block length.
#[derive(Clone, Copy, Debug, PartialEq, Eq, Structural)]
pub struct AlphaRange {
    pub family: ArgumentType,
    pub start: u64,
    pub len: u64,
}

/// The allocator: the ordered blocks handed out so far, and the next free
/// exponent.
pub struct Alphas {
    pub ranges: Vec<AlphaRange>,
    pub next: u64,
}

/// The blocks are contiguous from `from`: each starts where the previous
/// one ended.
pub open spec fn spec_chained(rs: Seq<AlphaRange>, from: u64) -> bool
    decreases rs.len(),
{
    if rs.len() == 0 {
        true
    } else {
        rs[0].start == from && rs[0].start + rs[0].len <= u64::MAX && spec_chained(
            rs.drop_first(),
            (rs[0].start + rs[0].len) as u64,
        )
    }
}

/// The exponent one past the last allocated block.
pub open spec fn spec_end(rs: Seq<AlphaRange>, from: u64) -> u64
    decreases rs.len(),
{
    if rs.len() == 0 {
        from
    } else {
        spec_end(rs.drop_first(), (rs[0].start + rs[0].len) as u64)
    }
}

impl Alphas {
    pub open spec fn wf(self) -> bool {
        spec_chained(self.ranges@, 0) && self.next == spec_end(self.ranges@, 0)
    }

    /// An empty allocation.
    pub fn new() -> (a: Alphas)
        ensures
            a.ranges@ =~= Seq::<AlphaRange>::empty(),
            a.next == 0,
            a.wf(),
    {
        Alphas { ranges: Vec::new(), next: 0 }
    }

    /// Total number of exponents handed out.
    pub fn total(&self) -> (t: u64)
        ensures
            t == self.next,
    {
        self.next
    }

    /// Claim the next contiguous block of `count` exponents for `family`.
    pub fn register(&mut self, family: ArgumentType, count: u64)
        requires
            old(self).wf(),
            old(self).next + count <= u64::MAX,
        ensures
            final(self).ranges@ =~= old(self).ranges@.push(
                AlphaRange { family, start: old(self).next, len: count },
            ),
            final(self).next == old(self).next + count,
            final(self).wf(),
    {
        let r = AlphaRange { family, start: self.next, len: count };
        self.ranges.push(r);
        self.next = self.next + count;
        proof {
            lemma_chained_push(old(self).ranges@, 0, r);
            lemma_end_push(old(self).ranges@, 0, r);
        }
    }

    /// The block allocated to `family`, if any: the first registered match.
    pub fn range_of(&self, family: ArgumentType) -> (r: Option<AlphaRange>)
        ensures
            r == spec_range_of(self.ranges@, family),
    {
        proof {
            assert(self.ranges@.skip(0) =~= self.ranges@);
        }
        let mut i: usize = 0;
        while i < self.ranges.len()
            invariant
                i <= self.ranges@.len(),
                spec_range_of(self.ranges@.skip(i as int), family) == spec_range_of(
                    self.ranges@,
                    family,
                ),
            decreases self.ranges@.len() - i,
        {
            proof {
                assert(self.ranges@.skip(i as int)[0] == self.ranges@[i as int]);
                assert(self.ranges@.skip(i as int).drop_first() =~= self.ranges@.skip(i as int + 1));
            }
            if matches_family(self.ranges[i].family, family) {
                return Some(self.ranges[i]);
            }
            i = i + 1;
        }
        proof {
            assert(self.ranges@.skip(i as int) =~= Seq::<AlphaRange>::empty());
        }
        None
    }
}

/// Whether two family tags are the same family.
pub fn matches_family(a: ArgumentType, b: ArgumentType) -> (r: bool)
    ensures
        r == (a == b),
{
    match (a, b) {
        (ArgumentType::Gate, ArgumentType::Gate) => true,
        (ArgumentType::Permutation, ArgumentType::Permutation) => true,
        (ArgumentType::Lookup, ArgumentType::Lookup) => true,
        _ => false,
    }
}

pub open spec fn spec_range_of(rs: Seq<AlphaRange>, family: ArgumentType) -> Option<AlphaRange>
    decreases rs.len(),
{
    if rs.len() == 0 {
        None
    } else if rs[0].family == family {
        Some(rs[0])
    } else {
        spec_range_of(rs.drop_first(), family)
    }
}

proof fn lemma_chained_push(rs: Seq<AlphaRange>, from: u64, r: AlphaRange)
    requires
        spec_chained(rs, from),
        r.start == spec_end(rs, from),
        r.start + r.len <= u64::MAX,
    ensures
        spec_chained(rs.push(r), from),
    decreases rs.len(),
{
    if rs.len() == 0 {
        assert(rs.push(r)[0] == r);
        assert(rs.push(r).drop_first() =~= Seq::<AlphaRange>::empty());
        assert(spec_chained(Seq::<AlphaRange>::empty(), (r.start + r.len) as u64));
        assert(spec_chained(rs.push(r), from));
    } else {
        lemma_chained_push(rs.drop_first(), (rs[0].start + rs[0].len) as u64, r);
        assert(rs.push(r)[0] == rs[0]);
        assert(rs.push(r).drop_first() =~= rs.drop_first().push(r));
        assert(spec_chained(rs.drop_first().push(r), (rs[0].start + rs[0].len) as u64));
        assert(spec_chained(rs.push(r), from));
    }
}

proof fn lemma_end_push(rs: Seq<AlphaRange>, from: u64, r: AlphaRange)
    requires
        r.start + r.len <= u64::MAX,
    ensures
        spec_end(rs.push(r), from) == (r.start + r.len) as u64,
    decreases rs.len(),
{
    if rs.len() == 0 {
        assert(rs.push(r)[0] == r);
        assert(rs.push(r).drop_first() =~= Seq::<AlphaRange>::empty());
        assert(spec_end(rs.push(r), from) == spec_end(
            Seq::<AlphaRange>::empty(),
            (r.start + r.len) as u64,
        ));
    } else {
        lemma_end_push(rs.drop_first(), (rs[0].start + rs[0].len) as u64, r);
        assert(rs.push(r)[0] == rs[0]);
        assert(rs.push(r).drop_first() =~= rs.drop_first().push(r));
        assert(spec_end(rs.push(r), from) == spec_end(
            rs.drop_first().push(r),
            (rs[0].start + rs[0].len) as u64,
        ));
    }
}

/// In a chained allocation every block sits between `from` and the end.
proof fn lemma_chained_bounds(rs: Seq<AlphaRange>, from: u64)
    requires
        spec_chained(rs, from),
    ensures
        forall|i: int|
            0 <= i < rs.len() ==> from <= #[trigger] rs[i].start && rs[i].start + rs[i].len
                <= spec_end(rs, from),
    decreases rs.len(),
{
    if rs.len() > 0 {
        let next = (rs[0].start + rs[0].len) as u64;
        lemma_chained_bounds(rs.drop_first(), next);
        lemma_end_monotone(rs.drop_first(), next);
        assert forall|i: int| 0 <= i < rs.len() implies from <= #[trigger] rs[i].start
            && rs[i].start + rs[i].len <= spec_end(rs, from) by {
            if i > 0 {
                assert(rs[i] == rs.drop_first()[i - 1]);
            }
        }
    }
}

/// The end of a chained allocation is at least its origin.
proof fn lemma_end_monotone(rs: Seq<AlphaRange>, from: u64)
    requires
        spec_chained(rs, from),
    ensures
        from <= spec_end(rs, from),
    decreases rs.len(),
{
    if rs.len() > 0 {
        lemma_end_monotone(rs.drop_first(), (rs[0].start + rs[0].len) as u64);
    }
}

/// Every exponent below the total lies in exactly one allocated block.
proof fn lemma_chained_cover(rs: Seq<AlphaRange>, from: u64, k: u64)
    requires
        spec_chained(rs, from),
        from <= k < spec_end(rs, from),
    ensures
        exists|i: int|
            0 <= i < rs.len() && (#[trigger] rs[i]).start <= k < rs[i].start + rs[i].len,
    decreases rs.len(),
{
    lemma_end_monotone(rs, from);
    if rs.len() == 0 {
    } else {
        let next = (rs[0].start + rs[0].len) as u64;
        if k < next {
            assert(rs[0].start <= k < rs[0].start + rs[0].len);
        } else {
            lemma_chained_cover(rs.drop_first(), next, k);
            let j = choose|j: int|
                0 <= j < rs.drop_first().len() && (#[trigger] rs.drop_first()[j]).start <= k
                    < rs.drop_first()[j].start + rs.drop_first()[j].len;
            assert(rs[j + 1] == rs.drop_first()[j]);
        }
    }
}

/// Distinct blocks never overlap.
proof fn lemma_chained_disjoint(rs: Seq<AlphaRange>, from: u64)
    requires
        spec_chained(rs, from),
    ensures
        forall|i: int, j: int|
            0 <= i < j < rs.len() ==> (#[trigger] rs[i]).start + rs[i].len <= (
            #[trigger] rs[j]).start,
    decreases rs.len(),
{
    if rs.len() > 0 {
        let next = (rs[0].start + rs[0].len) as u64;
        lemma_chained_disjoint(rs.drop_first(), next);
        lemma_chained_bounds(rs.drop_first(), next);
        assert forall|i: int, j: int| 0 <= i < j < rs.len() implies (#[trigger] rs[i]).start
            + rs[i].len <= (#[trigger] rs[j]).start by {
            assert(rs[j] == rs.drop_first()[j - 1]);
            if i > 0 {
                assert(rs[i] == rs.drop_first()[i - 1]);
            }
        }
    }
}

/// Some allocated block contains the exponent `k`.
pub open spec fn spec_covered(rs: Seq<AlphaRange>, k: u64) -> bool {
    exists|i: int| 0 <= i < rs.len() && (#[trigger] rs[i]).start <= k < rs[i].start + rs[i].len
}

/// Partition law: for a well-formed allocator the blocks tile `[0, total)`
/// exactly — every exponent below the total lies in some block, every block
/// lies below the total, and distinct blocks are disjoint.
pub proof fn lemma_alpha_partition(a: Alphas)
    requires
        a.wf(),
    ensures
        forall|k: u64| k < a.next ==> #[trigger] spec_covered(a.ranges@, k),
        forall|i: int|
            0 <= i < a.ranges@.len() ==> (#[trigger] a.ranges@[i]).start + a.ranges@[i].len
                <= a.next,
        forall|i: int, j: int|
            0 <= i < j < a.ranges@.len() ==> (#[trigger] a.ranges@[i]).start + a.ranges@[i].len <= (
            #[trigger] a.ranges@[j]).start,
{
    lemma_chained_bounds(a.ranges@, 0);
    lemma_chained_disjoint(a.ranges@, 0);
    assert forall|k: u64| k < a.next implies #[trigger] spec_covered(a.ranges@, k) by {
        lemma_chained_cover(a.ranges@, 0, k);
    }
}

} // verus!
