//! Musical keys, their relative keys and their position on the Camelot wheel.
use vstd::prelude::*;

verus! {

/// One of the 24 major and minor keys.
#[derive(Debug, Clone, Copy, PartialEq, Eq, Structural)]
pub enum MusicalKey {
    AMajor,
    ASharpMajor,
    BMajor,
    CMajor,
    CSharpMajor,
    DMajor,
    DSharpMajor,
    EMajor,
    FMajor,
    FSharpMajor,
    GMajor,
    GSharpMajor,
    AMinor,
    ASharpMinor,
    BMinor,
    CMinor,
    CSharpMinor,
    DMinor,
    DSharpMinor,
    EMinor,
    FMinor,
    FSharpMinor,
    GMinor,
    GSharpMinor,
}

/// Which detector produced a key estimate.
#[derive(Debug, Clone, Copy, PartialEq, Eq, Structural)]
pub enum KeyAlgorithm {
    KeyFinder,
    KrumhanslSchmuckler,
}

/// Pitch class of the tonic, in semitones above C (C = 0, ..., B = 11).
pub open spec fn tonic(k: MusicalKey) -> int {
    match k {
        MusicalKey::CMajor | MusicalKey::CMinor => 0,
        MusicalKey::CSharpMajor | MusicalKey::CSharpMinor => 1,
        MusicalKey::DMajor | MusicalKey::DMinor => 2,
        MusicalKey::DSharpMajor | MusicalKey::DSharpMinor => 3,
        MusicalKey::EMajor | MusicalKey::EMinor => 4,
        MusicalKey::FMajor | MusicalKey::FMinor => 5,
        MusicalKey::FSharpMajor | MusicalKey::FSharpMinor => 6,
        MusicalKey::GMajor | MusicalKey::GMinor => 7,
        MusicalKey::GSharpMajor | MusicalKey::GSharpMinor => 8,
        MusicalKey::AMajor | MusicalKey::AMinor => 9,
        MusicalKey::ASharpMajor | MusicalKey::ASharpMinor => 10,
        MusicalKey::BMajor | MusicalKey::BMinor => 11,
    }
}

/// Whether the key is in the minor mode.
pub open spec fn is_minor(k: MusicalKey) -> bool {
    match k {
        MusicalKey::AMinor | MusicalKey::ASharpMinor | MusicalKey::BMinor | MusicalKey::CMinor
        | MusicalKey::CSharpMinor | MusicalKey::DMinor | MusicalKey::DSharpMinor
        | MusicalKey::EMinor | MusicalKey::FMinor | MusicalKey::FSharpMinor
        | MusicalKey::GMinor | MusicalKey::GSharpMinor => true,
        _ => false,
    }
}

/// The key with tonic `t` semitones above C (taken modulo 12) in the given mode.
pub open spec fn key_at(t: int, minor: bool) -> MusicalKey {
    let p = t % 12;
    if minor {
        if p == 0 { MusicalKey::CMinor }
        else if p == 1 { MusicalKey::CSharpMinor }
        else if p == 2 { MusicalKey::DMinor }
        else if p == 3 { MusicalKey::DSharpMinor }
        else if p == 4 { MusicalKey::EMinor }
        else if p == 5 { MusicalKey::FMinor }
        else if p == 6 { MusicalKey::FSharpMinor }
        else if p == 7 { MusicalKey::GMinor }
        else if p == 8 { MusicalKey::GSharpMinor }
        else if p == 9 { MusicalKey::AMinor }
        else if p == 10 { MusicalKey::ASharpMinor }
        else { MusicalKey::BMinor }
    } else {
        if p == 0 { MusicalKey::CMajor }
        else if p == 1 { MusicalKey::CSharpMajor }
        else if p == 2 { MusicalKey::DMajor }
        else if p == 3 { MusicalKey::DSharpMajor }
        else if p == 4 { MusicalKey::EMajor }
        else if p == 5 { MusicalKey::FMajor }
        else if p == 6 { MusicalKey::FSharpMajor }
        else if p == 7 { MusicalKey::GMajor }
        else if p == 8 { MusicalKey::GSharpMajor }
        else if p == 9 { MusicalKey::AMajor }
        else if p == 10 { MusicalKey::ASharpMajor }
        else { MusicalKey::BMajor }
    }
}

/// The relative key shares the key signature and has the opposite mode: the
/// relative minor lies 9 semitones above a major tonic, the relative major 3
/// semitones above a minor tonic.
pub open spec fn relative_key(k: MusicalKey) -> MusicalKey {
    key_at(tonic(k) + if is_minor(k) { 3int } else { 9int }, !is_minor(k))
}

/// Hour of the key on the Camelot wheel (1..=12). Moving a fifth up moves one
/// hour clockwise; C major sits at 8 and A minor, its relative, too.
pub open spec fn camelot_number(k: MusicalKey) -> int {
    let n = (7 * tonic(k) + if is_minor(k) { 5int } else { 8int }) % 12;
    if n == 0 { 12 } else { n }
}

/// Letter of the key on the Camelot wheel: `'A'` for minor, `'B'` for major.
pub open spec fn camelot_letter(k: MusicalKey) -> char {
    if is_minor(k) { 'A' } else { 'B' }
}

impl MusicalKey {
    /// The relative key: same key signature, opposite mode.
    pub fn relative(&self) -> (r: MusicalKey)
        ensures
            r == relative_key(*self),
    {
        match self {
            MusicalKey::AMajor => MusicalKey::FSharpMinor,
            MusicalKey::ASharpMajor => MusicalKey::GMinor,
            MusicalKey::BMajor => MusicalKey::GSharpMinor,
            MusicalKey::CMajor => MusicalKey::AMinor,
            MusicalKey::CSharpMajor => MusicalKey::ASharpMinor,
            MusicalKey::DMajor => MusicalKey::BMinor,
            MusicalKey::DSharpMajor => MusicalKey::CMinor,
            MusicalKey::EMajor => MusicalKey::CSharpMinor,
            MusicalKey::FMajor => MusicalKey::DMinor,
            MusicalKey::FSharpMajor => MusicalKey::DSharpMinor,
            MusicalKey::GMajor => MusicalKey::EMinor,
            MusicalKey::GSharpMajor => MusicalKey::FMinor,
            MusicalKey::AMinor => MusicalKey::CMajor,
            MusicalKey::ASharpMinor => MusicalKey::CSharpMajor,
            MusicalKey::BMinor => MusicalKey::DMajor,
            MusicalKey::CMinor => MusicalKey::DSharpMajor,
            MusicalKey::CSharpMinor => MusicalKey::EMajor,
            MusicalKey::DMinor => MusicalKey::FMajor,
            MusicalKey::DSharpMinor => MusicalKey::FSharpMajor,
            MusicalKey::EMinor => MusicalKey::GMajor,
            MusicalKey::FMinor => MusicalKey::GSharpMajor,
            MusicalKey::FSharpMinor => MusicalKey::AMajor,
            MusicalKey::GMinor => MusicalKey::ASharpMajor,
            MusicalKey::GSharpMinor => MusicalKey::BMajor,
        }
    }

    /// Position on the Camelot wheel: hour and letter.
    pub fn camelot(&self) -> (r: (u8, char))
        ensures
            r.0 == camelot_number(*self),
            r.1 == camelot_letter(*self),
    {
        match self {
            MusicalKey::AMajor => (11, 'B'),
            MusicalKey::ASharpMajor => (6, 'B'),
            MusicalKey::BMajor => (1, 'B'),
            MusicalKey::CMajor => (8, 'B'),
            MusicalKey::CSharpMajor => (3, 'B'),
            MusicalKey::DMajor => (10, 'B'),
            MusicalKey::DSharpMajor => (5, 'B'),
            MusicalKey::EMajor => (12, 'B'),
            MusicalKey::FMajor => (7, 'B'),
            MusicalKey::FSharpMajor => (2, 'B'),
            MusicalKey::GMajor => (9, 'B'),
            MusicalKey::GSharpMajor => (4, 'B'),
            MusicalKey::AMinor => (8, 'A'),
            MusicalKey::ASharpMinor => (3, 'A'),
            MusicalKey::BMinor => (10, 'A'),
            MusicalKey::CMinor => (5, 'A'),
            MusicalKey::CSharpMinor => (12, 'A'),
            MusicalKey::DMinor => (7, 'A'),
            MusicalKey::DSharpMinor => (2, 'A'),
            MusicalKey::EMinor => (9, 'A'),
            MusicalKey::FMinor => (4, 'A'),
            MusicalKey::FSharpMinor => (11, 'A'),
            MusicalKey::GMinor => (6, 'A'),
            MusicalKey::GSharpMinor => (1, 'A'),
        }
    }

    /// The key whose tonic lies `tonic` semitones above C (taken modulo 12,
    /// so -1 is B) in the given mode. Every tonic names a key.
    pub fn from_tonic_mode(tonic: i32, minor: bool) -> (r: Option<MusicalKey>)
        ensures
            r == Some(key_at(tonic as int, minor)),
    {
        let t = match tonic.checked_rem_euclid(12) {
            Some(t) => t,
            None => 0,
        };
        let k = if minor {
            match t {
                0 => MusicalKey::CMinor,
                1 => MusicalKey::CSharpMinor,
                2 => MusicalKey::DMinor,
                3 => MusicalKey::DSharpMinor,
                4 => MusicalKey::EMinor,
                5 => MusicalKey::FMinor,
                6 => MusicalKey::FSharpMinor,
                7 => MusicalKey::GMinor,
                8 => MusicalKey::GSharpMinor,
                9 => MusicalKey::AMinor,
                10 => MusicalKey::ASharpMinor,
                _ => MusicalKey::BMinor,
            }
        } else {
            match t {
                0 => MusicalKey::CMajor,
                1 => MusicalKey::CSharpMajor,
                2 => MusicalKey::DMajor,
                3 => MusicalKey::DSharpMajor,
                4 => MusicalKey::EMajor,
                5 => MusicalKey::FMajor,
                6 => MusicalKey::FSharpMajor,
                7 => MusicalKey::GMajor,
                8 => MusicalKey::GSharpMajor,
                9 => MusicalKey::AMajor,
                10 => MusicalKey::ASharpMajor,
                _ => MusicalKey::BMajor,
            }
        };
        Some(k)
    }
}

/// Whether a detected key counts as the expected one: the same key, or its
/// relative (which shares the key signature).
pub open spec fn same_or_relative(got: MusicalKey, expected: MusicalKey) -> bool {
    got == expected || got == relative_key(expected)
}

impl MusicalKey {
    /// Whether this detected key counts as `expected`: equal to it or to its
    /// relative key.
    pub fn matches_up_to_relative(&self, expected: &MusicalKey) -> (r: bool)
        ensures
            r == same_or_relative(*self, *expected),
            r <==> (*self == *expected || *self == relative_key(*expected)),
    {
        *self == *expected || *self == expected.relative()
    }
}

/// A detected key counts as the expected one exactly when it is that key, or
/// the key of the other mode whose tonic lies 9 semitones above a major
/// expected tonic (3 above a minor one); a match always shares the expected
/// key's Camelot hour.
pub proof fn law_relative_match_is_key_or_relative(got: MusicalKey, expected: MusicalKey)
    ensures
        same_or_relative(got, expected) <==> (got == expected || (is_minor(got) != is_minor(
            expected) && tonic(got) == (tonic(expected) + if is_minor(expected) {
            3int
        } else {
            9int
        }) % 12)),
        same_or_relative(got, expected) ==> camelot_number(got) == camelot_number(expected),
{
}

/// Counting a key as its relative's match is symmetric.
pub proof fn law_relative_match_is_symmetric(a: MusicalKey, b: MusicalKey)
    ensures
        same_or_relative(a, b) == same_or_relative(b, a),
{
}

/// `key_at` names each key: the key at a key's own tonic and mode is that key,
/// and the key at a tonic and mode has exactly that tonic (modulo 12) and mode.
pub proof fn law_key_at_names_each_key(k: MusicalKey, t: int, minor: bool)
    ensures
        key_at(tonic(k), is_minor(k)) == k,
        tonic(key_at(t, minor)) == t % 12,
        is_minor(key_at(t, minor)) == minor,
{
}

/// Taking the relative key twice gives back the key.
pub proof fn law_relative_is_involution(k: MusicalKey)
    ensures
        relative_key(relative_key(k)) == k,
{
}

/// A key and its relative share their Camelot hour and differ in letter.
pub proof fn law_relative_shares_camelot_hour(k: MusicalKey)
    ensures
        camelot_number(relative_key(k)) == camelot_number(k),
        camelot_letter(relative_key(k)) != camelot_letter(k),
{
}

/// Every key has an hour in 1..=12 and a letter `'A'` or `'B'` on the wheel,
/// and no two keys share a position: the wheel names each key once.
pub proof fn law_camelot_is_one_to_one(a: MusicalKey, b: MusicalKey)
    ensures
        1 <= camelot_number(a) <= 12,
        camelot_letter(a) == 'A' || camelot_letter(a) == 'B',
        camelot_number(a) == camelot_number(b) && camelot_letter(a) == camelot_letter(b) ==> a == b,
{
}

/// Moving the tonic a fifth (7 semitones) up, in the same mode, moves one hour
/// clockwise on the wheel (12 is followed by 1).
pub proof fn law_fifth_up_is_next_hour(k: MusicalKey)
    ensures
        camelot_number(key_at(tonic(k) + 7, is_minor(k))) == camelot_number(k) % 12 + 1,
{
}

} // verus!
