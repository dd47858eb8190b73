use openmix::key::MusicalKey;

const ALL: [MusicalKey; 24] = [
    MusicalKey::AMajor,
    MusicalKey::ASharpMajor,
    MusicalKey::BMajor,
    MusicalKey::CMajor,
    MusicalKey::CSharpMajor,
    MusicalKey::DMajor,
    MusicalKey::DSharpMajor,
    MusicalKey::EMajor,
    MusicalKey::FMajor,
    MusicalKey::FSharpMajor,
    MusicalKey::GMajor,
    MusicalKey::GSharpMajor,
    MusicalKey::AMinor,
    MusicalKey::ASharpMinor,
    MusicalKey::BMinor,
    MusicalKey::CMinor,
    MusicalKey::CSharpMinor,
    MusicalKey::DMinor,
    MusicalKey::DSharpMinor,
    MusicalKey::EMinor,
    MusicalKey::FMinor,
    MusicalKey::FSharpMinor,
    MusicalKey::GMinor,
    MusicalKey::GSharpMinor,
];

#[test]
fn musical_key_relative_and_camelot() {
    assert_eq!(MusicalKey::CMajor.relative(), MusicalKey::AMinor);
    assert_eq!(MusicalKey::AMinor.relative(), MusicalKey::CMajor); // +9 semitones, mode flips back
    assert_eq!(MusicalKey::CMajor.camelot(), (8, 'B'));
    assert_eq!(MusicalKey::AMinor.camelot(), (8, 'A'));
}

#[test]
fn camelot_relative_pairs_share_number_all_keys() {
    for k in ALL {
        let (n, l) = k.camelot();
        let (rn, rl) = k.relative().camelot();
        assert_eq!(
            n,
            rn,
            "key {k:?} and relative {:?} share camelot number",
            k.relative()
        );
        assert!(
            l != rl,
            "key {k:?} and relative {:?} must differ in mode letter",
            k.relative()
        );
        assert!((l == 'A' || l == 'B') && (rl == 'A' || rl == 'B'));
    }
}

#[test]
fn from_tonic_mode_anchors_at_c() {
    assert_eq!(
        MusicalKey::from_tonic_mode(0, false),
        Some(MusicalKey::CMajor)
    );
    assert_eq!(
        MusicalKey::from_tonic_mode(0, true),
        Some(MusicalKey::CMinor)
    );
    assert_eq!(
        MusicalKey::from_tonic_mode(9, true),
        Some(MusicalKey::AMinor)
    );
    assert_eq!(
        MusicalKey::from_tonic_mode(2, false),
        Some(MusicalKey::DMajor)
    );
    assert_eq!(
        MusicalKey::from_tonic_mode(11, true),
        Some(MusicalKey::BMinor)
    );
    assert_eq!(
        MusicalKey::from_tonic_mode(-1, false),
        Some(MusicalKey::BMajor)
    );
}

#[test]
fn camelot_wheel_positions_of_every_key() {
    let expected: [(MusicalKey, (u8, char)); 24] = [
        (MusicalKey::BMajor, (1, 'B')),
        (MusicalKey::FSharpMajor, (2, 'B')),
        (MusicalKey::CSharpMajor, (3, 'B')),
        (MusicalKey::GSharpMajor, (4, 'B')),
        (MusicalKey::DSharpMajor, (5, 'B')),
        (MusicalKey::ASharpMajor, (6, 'B')),
        (MusicalKey::FMajor, (7, 'B')),
        (MusicalKey::CMajor, (8, 'B')),
        (MusicalKey::GMajor, (9, 'B')),
        (MusicalKey::DMajor, (10, 'B')),
        (MusicalKey::AMajor, (11, 'B')),
        (MusicalKey::EMajor, (12, 'B')),
        (MusicalKey::GSharpMinor, (1, 'A')),
        (MusicalKey::DSharpMinor, (2, 'A')),
        (MusicalKey::ASharpMinor, (3, 'A')),
        (MusicalKey::FMinor, (4, 'A')),
        (MusicalKey::CMinor, (5, 'A')),
        (MusicalKey::GMinor, (6, 'A')),
        (MusicalKey::DMinor, (7, 'A')),
        (MusicalKey::AMinor, (8, 'A')),
        (MusicalKey::EMinor, (9, 'A')),
        (MusicalKey::BMinor, (10, 'A')),
        (MusicalKey::FSharpMinor, (11, 'A')),
        (MusicalKey::CSharpMinor, (12, 'A')),
    ];
    for (k, pos) in expected {
        assert_eq!(k.camelot(), pos, "key {k:?}");
    }
}

#[test]
fn relative_twice_is_identity_for_every_key() {
    for k in ALL {
        assert_eq!(k.relative().relative(), k);
        assert_ne!(k.relative(), k);
    }
}

#[test]
fn camelot_positions_are_all_distinct() {
    for a in ALL {
        for b in ALL {
            if a != b {
                assert_ne!(a.camelot(), b.camelot(), "{a:?} vs {b:?}");
            }
        }
    }
}

#[test]
fn fifth_up_moves_one_hour_clockwise() {
    // C -> G -> D ... around the circle of fifths in both modes.
    for minor in [false, true] {
        for t in 0..12i32 {
            let here = MusicalKey::from_tonic_mode(t, minor).unwrap().camelot().0;
            let next = MusicalKey::from_tonic_mode(t + 7, minor).unwrap().camelot().0;
            assert_eq!(next, here % 12 + 1);
        }
    }
}

#[test]
fn from_tonic_mode_wraps_every_octave() {
    assert_eq!(
        MusicalKey::from_tonic_mode(12, false),
        Some(MusicalKey::CMajor)
    );
    assert_eq!(
        MusicalKey::from_tonic_mode(-3, true),
        Some(MusicalKey::AMinor)
    );
    assert_eq!(
        MusicalKey::from_tonic_mode(i32::MIN, false),
        MusicalKey::from_tonic_mode(i32::MIN.rem_euclid(12), false)
    );
    assert_eq!(
        MusicalKey::from_tonic_mode(1, false),
        Some(MusicalKey::CSharpMajor)
    );
}

#[test]
fn detected_key_matches_expected_or_its_relative() {
    assert!(MusicalKey::AMinor.matches_up_to_relative(&MusicalKey::CMajor));
    assert!(MusicalKey::CMajor.matches_up_to_relative(&MusicalKey::CMajor));
    assert!(!MusicalKey::GMajor.matches_up_to_relative(&MusicalKey::CMajor));
    assert!(!MusicalKey::CMinor.matches_up_to_relative(&MusicalKey::CMajor));
    for a in ALL {
        for b in ALL {
            assert_eq!(
                a.matches_up_to_relative(&b),
                b.matches_up_to_relative(&a),
                "{a:?} vs {b:?}"
            );
        }
    }
}
