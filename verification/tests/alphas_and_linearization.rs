use plonk_core::alphas::{Alphas, ArgumentType};
use plonk_core::domain::Domain;
use plonk_core::linearization::expr_linearization;

#[test]
fn registration_is_contiguous() {
    let mut a = Alphas::new();
    a.register(ArgumentType::Gate, 1);
    a.register(ArgumentType::Permutation, 2);
    assert_eq!(a.total(), 3);
    let g = a.range_of(ArgumentType::Gate).unwrap();
    let p = a.range_of(ArgumentType::Permutation).unwrap();
    assert_eq!((g.start, g.len), (0, 1));
    assert_eq!((p.start, p.len), (1, 2));
    assert!(a.range_of(ArgumentType::Lookup).is_none());
}

#[test]
fn ranges_tile_plain_configuration() {
    let d = Domain::generate(8).unwrap();
    let (_lin, alphas) = expr_linearization(&d, false);
    let total = alphas.total();
    assert_eq!(total, 3);
    // every exponent below the total lies in exactly one block
    for k in 0..total {
        let mut hits = 0;
        for r in alphas.ranges.iter() {
            if r.start <= k && k < r.start + r.len {
                hits += 1;
            }
        }
        assert_eq!(hits, 1, "exponent {} covered {} times", k, hits);
    }
}

#[test]
fn ranges_tile_lookup_configuration() {
    let d = Domain::generate(8).unwrap();
    let (_lin, alphas) = expr_linearization(&d, true);
    let total = alphas.total();
    assert_eq!(total, 6);
    let l = alphas.range_of(ArgumentType::Lookup).unwrap();
    assert_eq!((l.start, l.len), (3, 3));
    for k in 0..total {
        let mut hits = 0;
        for r in alphas.ranges.iter() {
            if r.start <= k && k < r.start + r.len {
                hits += 1;
            }
        }
        assert_eq!(hits, 1, "exponent {} covered {} times", k, hits);
    }
}

#[test]
fn linearization_is_reproducible() {
    let d = Domain::generate(16).unwrap();
    let (lin1, alphas1) = expr_linearization(&d, false);
    let (lin2, alphas2) = expr_linearization(&d, false);
    assert_eq!(lin1.perm_scalar, lin2.perm_scalar);
    assert_eq!(alphas1.ranges, alphas2.ranges);
    assert_eq!(alphas1.total(), alphas2.total());

    let (lin3, alphas3) = expr_linearization(&d, true);
    let (lin4, alphas4) = expr_linearization(&d, true);
    assert_eq!(lin3.perm_scalar, lin4.perm_scalar);
    assert_eq!(alphas3.ranges, alphas4.ranges);
}
