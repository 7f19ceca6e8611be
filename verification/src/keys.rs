use vstd::prelude::*;

verus! {

/// One of the five fingers of a hand. Used as a lookup key for per-finger
/// cost constants and by the category rules of the classifiers.
#[derive(Clone, Copy, Debug, PartialEq, Eq, Structural, Hash)]
pub enum Finger {
    Pinky,
    Ring,
    Middle,
    Index,
    Thumb,
}

/// A physical key slot: which hand (0 = left, 1 = right; the reserved
/// sentinel key uses 2), which finger, which row (0 = top, 3 = thumb row),
/// and whether the slot sits in a stretched (off-home) column.
#[derive(Clone, Copy, Debug, PartialEq, Eq, Structural, Hash)]
pub struct Key {
    pub hand: u8,
    pub finger: Finger,
    pub row: u8,
    pub lateral: bool,
}

/// Relative motion cost of each finger, used by the travel-cost terms.
pub open spec fn spec_finger_weight(f: Finger) -> int {
    match f {
        Finger::Pinky => 66,
        Finger::Ring => 28,
        Finger::Middle => 21,
        Finger::Index => 18,
        Finger::Thumb => 50,
    }
}

/// Fixed per-finger motion cost (Pinky 66, Ring 28, Middle 21, Index 18,
/// Thumb 50), shared immutable configuration of the travel-cost model.
pub fn finger_weight(f: Finger) -> (w: i64)
    ensures
        w == spec_finger_weight(f),
        18 <= w <= 66,
{
    match f {
        Finger::Pinky => 66,
        Finger::Ring => 28,
        Finger::Middle => 21,
        Finger::Index => 18,
        Finger::Thumb => 50,
    }
}

/// Largest share of all keystrokes (in percent) a finger may take before
/// the column penalty starts charging for overuse.
pub open spec fn spec_max_freq_pct(f: Finger) -> int {
    match f {
        Finger::Pinky => 7,
        Finger::Ring => 12,
        Finger::Middle => 13,
        Finger::Index => 13,
        Finger::Thumb => 25,
    }
}

/// Fixed per-finger maximum share of keystrokes in percent (Pinky 7,
/// Ring 12, Middle 13, Index 13, Thumb 25).
pub fn max_freq_pct(f: Finger) -> (m: i64)
    ensures
        m == spec_max_freq_pct(f),
{
    match f {
        Finger::Pinky => 7,
        Finger::Ring => 12,
        Finger::Middle => 13,
        Finger::Index => 13,
        Finger::Thumb => 25,
    }
}

/// The fixed geometry of the 32 physical slots, in canonical order: three
/// rows of ten (left pinky to right pinky, with the two stretched index
/// columns in the middle), then the left and right thumb keys.
pub open spec fn spec_slot_key(i: int) -> Key {
    if i >= 30 {
        Key {
            hand: if i == 31 {
                1
            } else {
                0
            },
            finger: Finger::Thumb,
            row: 3,
            lateral: false,
        }
    } else {
        let col = i % 10;
        Key {
            hand: if col >= 5 {
                1
            } else {
                0
            },
            finger: spec_column_finger(col),
            row: (i / 10) as u8,
            lateral: col == 4 || col == 5,
        }
    }
}

/// Finger assigned to each of the ten columns of an alphabetic row.
pub open spec fn spec_column_finger(col: int) -> Finger {
    if col == 0 || col == 9 {
        Finger::Pinky
    } else if col == 1 || col == 8 {
        Finger::Ring
    } else if col == 2 || col == 7 {
        Finger::Middle
    } else {
        Finger::Index
    }
}

/// Geometry of slot `i` of the canonical 32-slot order.
pub fn slot_key(i: usize) -> (k: Key)
    requires
        i < 32,
    ensures
        k == spec_slot_key(i as int),
{
    if i >= 30 {
        Key { hand: if i == 31 { 1 } else { 0 }, finger: Finger::Thumb, row: 3, lateral: false }
    } else {
        let col = i % 10;
        let finger = if col == 0 || col == 9 {
            Finger::Pinky
        } else if col == 1 || col == 8 {
            Finger::Ring
        } else if col == 2 || col == 7 {
            Finger::Middle
        } else {
            Finger::Index
        };
        Key {
            hand: if col >= 5 { 1 } else { 0 },
            finger,
            row: (i / 10) as u8,
            lateral: col == 4 || col == 5,
        }
    }
}

/// The reserved key that the sentinel character resolves to. Its hand value
/// is neither 0 nor 1, so it can never satisfy a same-hand or
/// alternation condition against a real key.
pub open spec fn spec_sentinel_key() -> Key {
    Key { hand: 2, finger: Finger::Thumb, row: 3, lateral: false }
}

/// The key reserved for the "no prior keystroke" sentinel.
pub fn sentinel_key() -> (k: Key)
    ensures
        k == spec_sentinel_key(),
{
    Key { hand: 2, finger: Finger::Thumb, row: 3, lateral: false }
}

/// A key is real when it belongs to one of the two hands; the reserved
/// sentinel key is not real.
pub open spec fn spec_is_real(k: Key) -> bool {
    k.hand == 0 || k.hand == 1
}

/// The synthetic character standing for "no prior keystroke" before the
/// corpus has produced enough real characters.
pub const SENTINEL: char = '_';

/// The key a character resolves to under a layout table: its entry when
/// it has one, the reserved sentinel key otherwise.
pub open spec fn spec_key_of(table: Map<char, Key>, c: char) -> Key {
    if table.contains_key(c) {
        table[c]
    } else {
        spec_sentinel_key()
    }
}

/// A character can be resolved when the table maps it or when it is the
/// sentinel; any other character is an unmapped-character fault.
pub open spec fn spec_resolvable(table: Map<char, Key>, c: char) -> bool {
    table.contains_key(c) || c == SENTINEL
}

} // verus!
