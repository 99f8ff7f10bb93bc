use sha2::{Digest, Sha256};

use twsearch::derive_scramble_for_event::{
    derive_scramble_for_event_seeded, protocol_indicator, DerivationSalt, DerivationSeed,
    DerivationSeedRng,
};
use twsearch::event::Event;
use twsearch::parity::{basic_parity, set_parity, BasicParity};
use twsearch::puzzle::Puzzle;

#[test]
fn parity_basics() {
    assert_eq!(basic_parity(&[0, 1, 2, 3]), BasicParity::Even);
    assert_eq!(basic_parity(&[1, 0, 2, 3]), BasicParity::Odd);
    assert_eq!(basic_parity(&[2, 0, 1]), BasicParity::Even);
    assert_eq!(basic_parity(&[]), BasicParity::Even);
    let mut p = BasicParity::Even;
    p.flip();
    assert_eq!(p, BasicParity::Odd);
    p.flip();
    assert_eq!(p, BasicParity::Even);
    assert_eq!(BasicParity::Even.to_0_or_1(), 0);
    assert_eq!(BasicParity::Odd.to_0_or_1(), 1);
    assert_eq!(BasicParity::Odd.add(BasicParity::Odd), BasicParity::Even);
    assert_eq!(BasicParity::Even.add(BasicParity::Odd), BasicParity::Odd);
}

#[test]
fn set_parity_swaps_first_two() {
    let mut perm = [0, 1, 2, 3];
    set_parity(&mut perm, BasicParity::Odd);
    assert_eq!(perm, [1, 0, 2, 3]);
    assert_eq!(basic_parity(&perm), BasicParity::Odd);
    set_parity(&mut perm, BasicParity::Odd);
    assert_eq!(perm, [1, 0, 2, 3]);
    set_parity(&mut perm, BasicParity::Even);
    assert_eq!(perm, [0, 1, 2, 3]);
}

#[test]
fn puzzle_ids() {
    assert_eq!(Puzzle::Cube3x3x3.id(), "3x3x3");
    assert_eq!(Puzzle::MasterTetraminx.id(), "master_tetraminx");
    assert_eq!(Puzzle::try_from_id("redi_cube").ok(), Some(Puzzle::RediCube));
    assert_eq!(Puzzle::try_from_id("square1").ok(), Some(Puzzle::Square1));
    assert_eq!(
        Puzzle::try_from_id("baby_fto").err().map(|e| e.description),
        Some("Unknown puzzle ID: baby_fto".to_owned())
    );
    assert_eq!(Puzzle::try_from_id("8x8x8").err().unwrap().description, "Unknown puzzle ID: 8x8x8");
    for puzzle in [Puzzle::Cube2x2x2, Puzzle::Clock, Puzzle::Kilominx, Puzzle::FTO] {
        assert_eq!(Puzzle::try_from_id(puzzle.id()).ok(), Some(puzzle));
        assert_eq!(puzzle.speedsolving_event().puzzle(), puzzle);
    }
    assert_eq!(Puzzle::Megaminx.speedsolving_event(), Event::MegaminxSpeedsolving);
}

#[test]
fn event_ids_and_names() {
    assert_eq!(Event::Cube3x3x3Blindfolded.id(), "333bf");
    assert_eq!(Event::MegaminxSpeedsolving.id(), "minx");
    assert_eq!(Event::Square1Speedsolving.event_name(), "Square-1");
    assert_eq!(Event::FTOSpeedsolving.event_name(), "Face-Turning Octahedron");
    assert_eq!(Event::Cube3x3x3OneHanded.event_name(), "3x3x3 One-Handed");
    assert_eq!(Event::Cube3x3x3MultiBlind.puzzle(), Puzzle::Cube3x3x3);
    assert_eq!(Event::Cube5x5x5Blindfolded.puzzle(), Puzzle::Cube5x5x5);
    assert_eq!(Event::PyraminxSpeedsolving.to_string(), "pyram");
    assert_eq!(Event::try_from("333fm").ok(), Some(Event::Cube3x3x3FewestMoves));
    assert_eq!(Event::try_from("baby_fto").ok(), Some(Event::BabyFTOSpeedsolving));
    assert_eq!(Event::try_from("333ft").err().unwrap().description, "Unknown event ID: 333ft");
    for event in [Event::Cube2x2x2Speedsolving, Event::ClockSpeedsolving, Event::Cube4x4x4Blindfolded] {
        assert_eq!(Event::try_from(event.id()).ok(), Some(event));
    }
}

fn seed_bytes(level: u8) -> [u8; 32] {
    let mut bytes = [0u8; 32];
    bytes[0] = 0x67;
    bytes[1] = level;
    for (i, b) in bytes.iter_mut().enumerate().skip(2) {
        *b = i as u8;
    }
    bytes
}

fn hex(bytes: &[u8]) -> String {
    bytes.iter().map(|b| format!("{:02x}", b)).collect()
}

fn expected_derive(seed: [u8; 32], salt: &str) -> [u8; 32] {
    let salt_hash: [u8; 32] = Sha256::digest(salt.as_bytes()).into();
    let mut data = [0u8; 64];
    data[..32].copy_from_slice(&seed);
    data[32..].copy_from_slice(&salt_hash);
    let mut out: [u8; 32] = Sha256::digest(data).into();
    out[0] = 0x67;
    out[1] = if seed[1] == 0xff { 0xff } else { seed[1] + 1 };
    out
}

#[test]
fn seeds_from_bytes_and_text() {
    assert!(DerivationSeed::try_new(seed_bytes(0)).is_ok());
    let mut bad = seed_bytes(0);
    bad[0] = 0x66;
    assert_eq!(
        DerivationSeed::try_new(bad).err().unwrap().description,
        "Invalid protocol indicator. The first byte must be 0x67."
    );
    assert_eq!(protocol_indicator(&[0x67, 1, 2]), 0x67);
    let text = hex(&seed_bytes(3));
    let seed = DerivationSeed::from_str(&text).unwrap();
    assert_eq!(seed.level(), 3);
    assert_eq!(seed.to_string(), text);
    let upper = text.to_uppercase();
    assert_eq!(DerivationSeed::from_str(&upper).unwrap().to_string(), text);
    assert_eq!(DerivationSeed::from_str("zz").err().unwrap(), "Invalid hex byte input.");
    assert_eq!(DerivationSeed::from_str("6701").err().unwrap(), "Invalid hex byte length: 2 (expected: 32 bytes)");
    let wrong_indicator = hex(&bad);
    assert_eq!(
        DerivationSeed::from_str(&wrong_indicator).err().unwrap(),
        "Invalid protocol indicator. The first byte must be 0x67."
    );
}

#[test]
fn random_seeds_are_at_top_level() {
    let seed = DerivationSeed::from_thread_rng();
    assert_eq!(seed.level(), 0xff);
    assert!(seed.to_string().starts_with("67ff"));
}

#[test]
fn salts() {
    let salt = DerivationSalt::from_str("scrambles").unwrap();
    assert_eq!(salt.unhashed_salt(), "scrambles");
    assert_eq!(DerivationSalt::from_str("").err().unwrap(), "Empty salt values are not currently allowed.");
    assert_eq!(DerivationSalt::from_str("a/b").err().unwrap(), "Salt values must not contain slashes.");
    assert_eq!(DerivationSalt::from_str("café").err().unwrap(), "Salt values must currently be ASCII.");
    assert_eq!(DerivationSalt::from(Event::Cube3x3x3Speedsolving).unhashed_salt(), "333");
}

#[test]
fn derivation_follows_sha256() {
    let seed = DerivationSeed::try_new(seed_bytes(4)).ok().unwrap();
    let salt = DerivationSalt::from_str("2025").unwrap();
    let derived = seed.derive(&salt);
    assert_eq!(derived.to_string(), hex(&expected_derive(seed_bytes(4), "2025")));
    assert_eq!(derived.level(), 5);
    let top = DerivationSeed::try_new(seed_bytes(0xff)).ok().unwrap();
    assert_eq!(top.derive(&salt).level(), 0xff);
}

#[test]
fn derivation_hierarchy() {
    let seed = DerivationSeed::try_new(seed_bytes(0)).ok().unwrap();
    let salts = vec![DerivationSalt::from_str("a").unwrap(), DerivationSalt::from_str("b").unwrap()];
    let derived = seed.derive_hierarchy(&salts);
    let expected = expected_derive(expected_derive(seed_bytes(0), "a"), "b");
    assert_eq!(derived.to_string(), hex(&expected));
    assert_eq!(derived.level(), 2);
    assert_eq!(seed.derive_hierarchy(&vec![]).to_string(), hex(&seed_bytes(0)));
}

#[test]
fn scramble_seed_for_event() {
    let seed = DerivationSeed::try_new(seed_bytes(0)).ok().unwrap();
    let names = ["v1", "competition", "round", "group", "set", "attempt", "333"];
    let mut salts: Vec<DerivationSalt> = names.iter().map(|s| DerivationSalt::from_str(s).unwrap()).collect();
    salts.push(DerivationSalt::from_str("scramble").unwrap());
    let derived = derive_scramble_for_event_seeded(&seed, &salts, Event::Cube3x3x3Speedsolving).unwrap();
    let mut expected = seed_bytes(0);
    for s in names.iter().chain(["scramble"].iter()) {
        expected = expected_derive(expected, s);
    }
    expected = expected_derive(expected, "333");
    assert_eq!(derived.to_string(), hex(&expected));
    assert_eq!(
        derive_scramble_for_event_seeded(&seed, &salts, Event::Cube2x2x2Speedsolving).err().unwrap(),
        "Mismatched subevent in second-to-last level of hierarchy"
    );
    let short: Vec<DerivationSalt> = salts[..3].iter().cloned().collect();
    assert_eq!(
        derive_scramble_for_event_seeded(&seed, &short, Event::Cube3x3x3Speedsolving).err().unwrap(),
        "Mismatched subevent in second-to-last level of hierarchy"
    );
    let one = vec![DerivationSalt::from_str("x").unwrap()];
    assert_eq!(
        derive_scramble_for_event_seeded(&seed, &one, Event::Cube3x3x3Speedsolving).err().unwrap(),
        "Expected derivation level 8, saw: 1"
    );
}

#[test]
fn seeded_rng_values() {
    let seed = DerivationSeed::try_new(seed_bytes(8)).ok().unwrap();
    let mut rng = DerivationSeedRng::new(seed);
    for index in 0u128..3 {
        let mut data = [0u8; 64];
        data[..32].copy_from_slice(&seed_bytes(8));
        data[48..].copy_from_slice(&index.to_le_bytes());
        let hash: [u8; 32] = Sha256::digest(data).into();
        let expected = u64::from_le_bytes(hash[..8].try_into().unwrap());
        assert_eq!(rng.next_u64(), expected);
    }
    let mut rng2 = DerivationSeedRng::new(DerivationSeed::try_new(seed_bytes(8)).ok().unwrap());
    let first = rng2.next_u64();
    let mut rng3 = DerivationSeedRng::new(DerivationSeed::try_new(seed_bytes(8)).ok().unwrap());
    assert_eq!(rng3.next_u32(), first as u32);
}

#[test]
fn hierarchy_concatenation() {
    let seed = DerivationSeed::try_new(seed_bytes(1)).ok().unwrap();
    let a = DerivationSalt::from_str("a").unwrap();
    let b = DerivationSalt::from_str("b").unwrap();
    let c = DerivationSalt::from_str("c").unwrap();
    let all = seed.derive_hierarchy(&vec![a.clone(), b.clone(), c.clone()]);
    let split = seed.derive_hierarchy(&vec![a]).derive_hierarchy(&vec![b, c]);
    assert_eq!(all.to_string(), split.to_string());
    assert_eq!(all.level(), 4);
}

#[test]
fn seed_text_round_trip() {
    let seed = DerivationSeed::try_new(seed_bytes(9)).ok().unwrap();
    let again = DerivationSeed::from_str(&seed.to_string()).unwrap();
    assert_eq!(again.to_string(), seed.to_string());
}
