use plonk_core::srs::{BatchEntry, SRS, SETUP_POINT};

const P: u128 = 0xffff_ffff_0000_0001;

fn addmod(a: u64, b: u64) -> u64 {
    ((a as u128 + b as u128) % P) as u64
}

fn submod(a: u64, b: u64) -> u64 {
    ((a as u128 + P - b as u128) % P) as u64
}

fn mulmod(a: u64, b: u64) -> u64 {
    ((a as u128 * b as u128) % P) as u64
}

fn powmod(mut b: u64, mut e: u64) -> u64 {
    let mut acc: u64 = 1;
    while e > 0 {
        if e % 2 == 1 {
            acc = mulmod(acc, b);
        }
        b = mulmod(b, b);
        e /= 2;
    }
    acc
}

fn invmod(x: u64) -> u64 {
    powmod(x, (P - 2) as u64)
}

/// Combine an entry's pairs with powers of its combiner, then produce the
/// witness that makes the entry's residual vanish.
fn honest_opening(items: &[(u64, u64)], combiner: u64, point: u64) -> u64 {
    let mut c: u64 = 0;
    let mut e: u64 = 0;
    for &(ci, ei) in items.iter().rev() {
        c = addmod(ci, mulmod(combiner, c));
        e = addmod(ei, mulmod(combiner, e));
    }
    mulmod(submod(c, e), invmod(submod(SETUP_POINT, point)))
}

#[test]
fn commit_evaluates_at_reference_point() {
    let srs = SRS::create(4);
    // a constant polynomial commits to its constant
    assert_eq!(srs.commit(&vec![42]).unwrap(), 42);
    // degree one: a + b * tau
    let c = srs.commit(&vec![3, 5]).unwrap();
    assert_eq!(c, addmod(3, mulmod(5, SETUP_POINT)));
    // too long for the basis
    assert!(srs.commit(&vec![1, 2, 3, 4, 5]).is_none());
}

#[test]
fn honest_single_opening_accepts() {
    let srs = SRS::create(4);
    let items = vec![(100, 7), (200, 9)];
    let w = honest_opening(&items, 5, 31);
    let entry = BatchEntry { point: 31, combiner: 5, items, opening: w };
    assert!(srs.verify(&vec![entry], 12345));
}

#[test]
fn library_open_matches_honest_witness() {
    let srs = SRS::create(4);
    let w = srs.open(1000, 77, 31);
    assert_eq!(w, honest_opening(&[(1000, 77)], 5, 31));
    let entry = BatchEntry { point: 31, combiner: 5, items: vec![(1000, 77)], opening: w };
    assert!(srs.verify(&vec![entry], 999));
}

#[test]
fn tampered_opening_rejects() {
    let srs = SRS::create(4);
    let items = vec![(100, 7), (200, 9)];
    let w = honest_opening(&items, 5, 31);
    let bad = BatchEntry { point: 31, combiner: 5, items: vec![(100, 8), (200, 9)], opening: w };
    assert!(!srs.verify(&vec![bad], 12345));
}

#[test]
fn one_bad_entry_fails_the_whole_batch() {
    let srs = SRS::create(4);
    let items1 = vec![(100, 7)];
    let items2 = vec![(300, 11)];
    let good1 = BatchEntry {
        point: 31,
        combiner: 5,
        items: items1.clone(),
        opening: honest_opening(&items1, 5, 31),
    };
    let good2 = BatchEntry {
        point: 37,
        combiner: 5,
        items: items2.clone(),
        opening: honest_opening(&items2, 5, 37),
    };
    assert!(srs.verify(&vec![good1.clone(), good2.clone()], 777));
    let bad2 = BatchEntry { point: 37, combiner: 5, items: vec![(300, 12)], opening: good2.opening };
    assert!(!srs.verify(&vec![good1, bad2], 777));
}
