use twsearch::wings::{
    canonicalize_wings, derive_phase4_edges, is_each_wing_pair_separated_across_primary_and_secondary,
    is_high, partner_wing_lookup, phase3_pll_parity_orientation, position_is_primary_lookup,
    primary_wing_lookup,
};

fn solved() -> Vec<u8> {
    (0..24).collect()
}

#[test]
fn wing_tables() {
    assert_eq!(primary_wing_lookup(16), 0);
    assert_eq!(primary_wing_lookup(4), 3);
    assert_eq!(partner_wing_lookup(0), 16);
    assert_eq!(partner_wing_lookup(16), 0);
    assert_eq!(partner_wing_lookup(6), 23);
    assert!(position_is_primary_lookup(0));
    assert!(!position_is_primary_lookup(4));
    assert!(position_is_primary_lookup(23));
    for w in 0..24u8 {
        assert_eq!(partner_wing_lookup(partner_wing_lookup(w)), w);
        assert_ne!(position_is_primary_lookup(w), position_is_primary_lookup(partner_wing_lookup(w)));
    }
}

#[test]
fn high_and_low_edges() {
    assert!(is_high(0));
    assert!(is_high(9));
    assert!(!is_high(4));
    assert!(!is_high(16));
    assert_eq!((0..24).filter(|&i| is_high(i)).count(), 12);
}

#[test]
fn wing_pair_separation() {
    assert!(is_each_wing_pair_separated_across_primary_and_secondary(&solved()));
    let mut wings = solved();
    wings.swap(0, 1);
    assert!(is_each_wing_pair_separated_across_primary_and_secondary(&wings));
    let mut wings = solved();
    wings.swap(0, 16);
    assert!(!is_each_wing_pair_separated_across_primary_and_secondary(&wings));
    let mut wings = solved();
    wings.swap(0, 4);
    assert!(!is_each_wing_pair_separated_across_primary_and_secondary(&wings));
}

#[test]
fn pll_parity() {
    let corners: Vec<u8> = (0..8).collect();
    assert_eq!(phase3_pll_parity_orientation(&corners, &solved()), 0);
    let mut odd_corners = corners.clone();
    odd_corners.swap(0, 1);
    assert_eq!(phase3_pll_parity_orientation(&odd_corners, &solved()), 1);
    let mut wings = solved();
    wings.swap(0, 1);
    assert_eq!(phase3_pll_parity_orientation(&corners, &wings), 1);
    assert_eq!(phase3_pll_parity_orientation(&odd_corners, &wings), 0);
}

#[test]
fn phase4_edges() {
    let (pieces, orientations) = derive_phase4_edges(&solved());
    assert_eq!(pieces, (0..12).collect::<Vec<u8>>());
    assert_eq!(orientations, vec![0; 12]);
    let mut wings = solved();
    wings.swap(2, 8);
    let (pieces, orientations) = derive_phase4_edges(&wings);
    assert_eq!(pieces[0], 0);
    assert_eq!(orientations[0], 1);
    assert_eq!(orientations[1..], vec![0; 11][..]);
}

#[test]
fn canonical_wing_labels() {
    let mut wings = solved();
    canonicalize_wings(&mut wings);
    assert_eq!(wings, solved());
    let mut wings = solved();
    wings.swap(0, 1);
    canonicalize_wings(&mut wings);
    let mut expected = solved();
    expected.swap(12, 16);
    assert_eq!(wings, expected);
    // Canonicalizing twice changes nothing more.
    let mut again = wings.clone();
    canonicalize_wings(&mut again);
    assert_eq!(again, wings);
}

#[test]
fn canonical_wings_ignore_dedge_relabelling_and_are_stable() {
    let mut scrambled: Vec<u8> = (0..24).collect();
    scrambled.rotate_left(5);
    scrambled.swap(3, 17);
    // A relabelling that keeps dedges together: swap the dedges of wings 0 and 6, partners too.
    let mut sigma: Vec<u8> = (0..24).collect();
    let (a, b) = (0u8, 6u8);
    let (pa, pb) = (partner_wing_lookup(a), partner_wing_lookup(b));
    sigma.swap(a as usize, b as usize);
    sigma.swap(pa as usize, pb as usize);
    let mut relabelled: Vec<u8> = scrambled.iter().map(|&w| sigma[w as usize]).collect();
    let mut canonical = scrambled.clone();
    canonicalize_wings(&mut canonical);
    canonicalize_wings(&mut relabelled);
    assert_eq!(relabelled, canonical);
    let mut again = canonical.clone();
    canonicalize_wings(&mut again);
    assert_eq!(again, canonical);
}
