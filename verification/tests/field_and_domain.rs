use plonk_core::domain::Domain;
use plonk_core::field::{fr_add, fr_div, fr_inv, fr_mul, fr_neg, fr_pow, fr_sub, MODULUS};

const P: u128 = 0xffff_ffff_0000_0001;

fn mulmod(a: u64, b: u64) -> u64 {
    ((a as u128 * b as u128) % P) as u64
}

fn powmod(mut b: u64, mut e: u64) -> u64 {
    let mut acc: u64 = 1;
    while e > 0 {
        if e % 2 == 1 {
            acc = mulmod(acc, b);
        }
        b = mulmod(b, b);
        e /= 2;
    }
    acc
}

#[test]
fn add_wraps_at_modulus() {
    assert_eq!(fr_add(MODULUS - 1, 1), 0);
    assert_eq!(fr_add(MODULUS - 1, 5), 4);
    assert_eq!(fr_add(3, 4), 7);
}

#[test]
fn sub_wraps_below_zero() {
    assert_eq!(fr_sub(0, 1), MODULUS - 1);
    assert_eq!(fr_sub(10, 3), 7);
    assert_eq!(fr_neg(5), MODULUS - 5);
    assert_eq!(fr_neg(0), 0);
}

#[test]
fn mul_matches_reference() {
    assert_eq!(fr_mul(3, 4), 12);
    let a: u64 = 0x1234_5678_9abc_def0;
    let b: u64 = 0x0fed_cba9_8765_4321;
    assert_eq!(fr_mul(a, b), mulmod(a, b));
}

#[test]
fn pow_matches_reference() {
    assert_eq!(fr_pow(3, 5), 243);
    assert_eq!(fr_pow(7, 0), 1);
    let e: u64 = 0x1_0000_0001;
    assert_eq!(fr_pow(5, e), powmod(5, e));
}

#[test]
fn inverse_and_division() {
    let x: u64 = 12345;
    let inv = fr_inv(x);
    assert_eq!(fr_mul(inv, x), 1);
    assert_eq!(fr_inv(0), 0);
    assert_eq!(fr_div(12, 4), 3);
    assert_eq!(fr_div(7, 0), 0);
}

#[test]
fn domain_generator_has_right_order() {
    let d = Domain::generate(8).unwrap();
    assert_eq!(d.size, 8);
    assert_eq!(fr_pow(d.group_gen, 8), 1);
    assert_ne!(fr_pow(d.group_gen, 4), 1);
}

#[test]
fn domain_rejects_unsupported_sizes() {
    assert!(Domain::generate(0).is_none());
    // 7 does not divide the group order
    assert!(Domain::generate(7).is_none());
}
