//! Protocol core of a PLONK-family proof system.
//!
//! The crate compiles an arithmetic constraint system into a randomized
//! polynomial identity (the index) and verifies batches of non-interactive
//! proofs against it: disjoint power-of-challenge allocation across
//! constraint families, a fixed Fiat-Shamir absorption order, and a single
//! batched opening check over homomorphically combined commitments.
//!
//! All arithmetic runs over a concrete 64-bit prime field, and the
//! commitment group is modeled by the additive group of that field, so that
//! every protocol step carries an exact, machine-checked contract.

pub mod alphas;
pub mod cs;
pub mod domain;
pub mod expr;
pub mod field;
pub mod linearization;
pub mod prover_index;
pub mod sponge;
pub mod srs;
pub mod testing;
pub mod verify;

use vstd::prelude::*;

verus! {

/// Outcomes of handling an untrusted proof.
#[derive(Clone, Copy, Debug, PartialEq, Eq, Structural)]
pub enum ProofError {
    /// The proof has the wrong shape; detected before any cryptographic check.
    Malformed,
    /// The batched opening check rejected the batch.
    OpenProof,
}

/// Failures of index assembly; these abort construction entirely.
#[derive(Clone, Copy, Debug, PartialEq, Eq, Structural)]
pub enum IndexError {
    /// The commitment setup's basis is smaller than the evaluation domain
    /// while public inputs are declared.
    SetupTooSmall,
}

} // verus!
