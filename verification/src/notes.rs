//! The period table: conversion between periods and musical notes.

use vstd::prelude::*;

verus! {

/// The 36 periods of the three octaves the format addresses, from C-1 down
/// to B-3, in decreasing order (a lower period is a higher pitch).
pub open spec fn note_periods() -> Seq<u16> {
    seq![
        856u16,
        808u16,
        762u16,
        720u16,
        678u16,
        640u16,
        604u16,
        570u16,
        538u16,
        508u16,
        480u16,
        453u16,
        428u16,
        404u16,
        381u16,
        360u16,
        339u16,
        320u16,
        302u16,
        285u16,
        269u16,
        254u16,
        240u16,
        226u16,
        214u16,
        202u16,
        190u16,
        180u16,
        170u16,
        160u16,
        151u16,
        143u16,
        135u16,
        127u16,
        120u16,
        113u16,
    ]
}

/// Index of the first table entry equal to `p`, searching from slot `i`;
/// negative when no entry matches.
pub open spec fn find_period(p: u16, i: int) -> int
    decreases 36 - i,
{
    if i < 0 || i >= 36 {
        -1
    } else if note_periods()[i] == p {
        i
    } else {
        find_period(p, i + 1)
    }
}

/// Index of `p` in the period table, or negative when `p` matches no
/// musical note.
pub open spec fn spec_period_index(p: u16) -> int {
    find_period(p, 0)
}

/// A period search lands inside the table or fails.
pub proof fn lemma_period_index_range(p: u16, i: int)
    ensures
        -1 <= find_period(p, i) < 36,
    decreases 36 - i,
{
    if 0 <= i < 36 && note_periods()[i] != p {
        lemma_period_index_range(p, i + 1);
    }
}

/// The name of the musical note at table slot `i`.
pub open spec fn spec_note_name(i: int) -> &'static str {
    if i == 0 {
        "C-1"
    } else if i == 1 {
        "C1\u{266f}"
    } else if i == 2 {
        "D-1"
    } else if i == 3 {
        "D1\u{266f}"
    } else if i == 4 {
        "E-1"
    } else if i == 5 {
        "F-1"
    } else if i == 6 {
        "F1\u{266f}"
    } else if i == 7 {
        "G-1"
    } else if i == 8 {
        "G1\u{266f}"
    } else if i == 9 {
        "A-1"
    } else if i == 10 {
        "A1\u{266f}"
    } else if i == 11 {
        "B-1"
    } else if i == 12 {
        "C-2"
    } else if i == 13 {
        "C2\u{266f}"
    } else if i == 14 {
        "D-2"
    } else if i == 15 {
        "D2\u{266f}"
    } else if i == 16 {
        "E-2"
    } else if i == 17 {
        "F-2"
    } else if i == 18 {
        "F2\u{266f}"
    } else if i == 19 {
        "G-2"
    } else if i == 20 {
        "G2\u{266f}"
    } else if i == 21 {
        "A-2"
    } else if i == 22 {
        "A2\u{266f}"
    } else if i == 23 {
        "B-2"
    } else if i == 24 {
        "C-3"
    } else if i == 25 {
        "C3\u{266f}"
    } else if i == 26 {
        "D-3"
    } else if i == 27 {
        "D3\u{266f}"
    } else if i == 28 {
        "E-3"
    } else if i == 29 {
        "F-3"
    } else if i == 30 {
        "F3\u{266f}"
    } else if i == 31 {
        "G-3"
    } else if i == 32 {
        "G3\u{266f}"
    } else if i == 33 {
        "A-3"
    } else if i == 34 {
        "A3\u{266f}"
    } else {
        "B-3"
    }
}

/// The period table as a runtime value.
fn period_table() -> (t: [u16; 36])
    ensures
        t@ == note_periods(),
{
    let t: [u16; 36] = [
        856, 808, 762, 720, 678, 640, 604, 570, 538, 508, 480, 453, 428, 404, 381, 360, 339, 320,
        302, 285, 269, 254, 240, 226, 214, 202, 190, 180, 170, 160, 151, 143, 135, 127, 120, 113,
    ];
    proof {
        assert(t@ =~= note_periods());
    }
    t
}

/// Look up a period in the table.
pub(crate) fn period_index(period: u16) -> (r: Option<usize>)
    ensures
        spec_period_index(period) >= 0 ==> r == Some(spec_period_index(period) as usize),
        spec_period_index(period) < 0 ==> r is None,
        r matches Some(i) ==> i < 36,
        -1 <= spec_period_index(period) < 36,
{
    proof {
        lemma_period_index_range(period, 0);
    }
    let t = period_table();
    let mut i: usize = 0;
    while i < 36
        invariant
            0 <= i <= 36,
            t@ == note_periods(),
            spec_period_index(period) == find_period(period, i as int),
        decreases 36 - i,
    {
        if t[i] == period {
            return Some(i);
        }
        i = i + 1;
    }
    None
}

/// The period stored at a table slot.
pub(crate) fn period_at(i: usize) -> (r: u16)
    requires
        i < 36,
    ensures
        r == note_periods()[i as int],
{
    let t = period_table();
    t[i]
}

/// The note name stored at a table slot.
pub(crate) fn note_name_at(i: usize) -> (r: &'static str)
    requires
        i < 36,
    ensures
        r@ == spec_note_name(i as int)@,
{
    if i == 0 {
        "C-1"
    } else if i == 1 {
        "C1\u{266f}"
    } else if i == 2 {
        "D-1"
    } else if i == 3 {
        "D1\u{266f}"
    } else if i == 4 {
        "E-1"
    } else if i == 5 {
        "F-1"
    } else if i == 6 {
        "F1\u{266f}"
    } else if i == 7 {
        "G-1"
    } else if i == 8 {
        "G1\u{266f}"
    } else if i == 9 {
        "A-1"
    } else if i == 10 {
        "A1\u{266f}"
    } else if i == 11 {
        "B-1"
    } else if i == 12 {
        "C-2"
    } else if i == 13 {
        "C2\u{266f}"
    } else if i == 14 {
        "D-2"
    } else if i == 15 {
        "D2\u{266f}"
    } else if i == 16 {
        "E-2"
    } else if i == 17 {
        "F-2"
    } else if i == 18 {
        "F2\u{266f}"
    } else if i == 19 {
        "G-2"
    } else if i == 20 {
        "G2\u{266f}"
    } else if i == 21 {
        "A-2"
    } else if i == 22 {
        "A2\u{266f}"
    } else if i == 23 {
        "B-2"
    } else if i == 24 {
        "C-3"
    } else if i == 25 {
        "C3\u{266f}"
    } else if i == 26 {
        "D-3"
    } else if i == 27 {
        "D3\u{266f}"
    } else if i == 28 {
        "E-3"
    } else if i == 29 {
        "F-3"
    } else if i == 30 {
        "F3\u{266f}"
    } else if i == 31 {
        "G-3"
    } else if i == 32 {
        "G3\u{266f}"
    } else if i == 33 {
        "A-3"
    } else if i == 34 {
        "A3\u{266f}"
    } else {
        "B-3"
    }
}

/// What moving a period up by a number of half-steps yields: the period a
/// few table slots further on, or nothing when the period matches no note
/// or the shift runs off the end of the table.
pub open spec fn spec_shift_period(period: u16, half_steps: u8) -> Option<u16> {
    let i = spec_period_index(period);
    if i < 0 {
        None
    } else if i + half_steps < 36 {
        Some(note_periods()[i + half_steps])
    } else {
        None
    }
}

/// Move a period up by a number of half-steps.
///
/// Used for arpeggios.
pub fn shift_period(period: u16, half_steps: u8) -> (r: Option<u16>)
    ensures
        r == spec_shift_period(period, half_steps),
{
    if let Some(idx) = period_index(period) {
        if idx + (half_steps as usize) < 36 {
            Some(period_at(idx + half_steps as usize))
        } else {
            None
        }
    } else {
        None
    }
}

} // verus!
