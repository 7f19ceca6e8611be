use vstd::prelude::*;

use crate::keys::Finger;
use crate::keys::Key;
use crate::keys::spec_is_real;

verus! {

/// The category-selection token: names the single category whose instances
/// the caller wants recorded in the n-gram frequency table, or
/// `Unselected` for none.
#[derive(Clone, Copy, Debug, PartialEq, Eq, Structural)]
pub enum Metric {
    Sfb,
    Sfr,
    Lsb,
    Hsb,
    Fsb,
    Sfs,
    Lss,
    Hss,
    Fss,
    Inroll,
    Outroll,
    Inthreeroll,
    Outthreeroll,
    Alt,
    Red,
    WeakRed,
    Unselected,
}

/// The mutually exclusive categories of an ordered key pair, in strict
/// priority order: same-finger motion, same-key repeat, lateral stretch,
/// half scissor, full scissor; `Plain` when none applies.
#[derive(Clone, Copy, Debug, PartialEq, Eq, Structural)]
pub enum BigramKind {
    SameFinger,
    Repeat,
    LateralStretch,
    HalfScissor,
    FullScissor,
    Plain,
}

/// Same-finger motion: same hand and finger, but a different key.
pub open spec fn spec_sf(key1: Key, key2: Key) -> bool {
    key1.finger == key2.finger && key1.hand == key2.hand && key1 != key2
}

/// Whether the pair is a same-finger motion: same hand and finger,
/// different key.
pub fn sf(key1: &Key, key2: &Key) -> (r: bool)
    ensures
        r == spec_sf(*key1, *key2),
{
    key1.finger == key2.finger && key1.hand == key2.hand && !(key1 == key2)
}

/// Lateral stretch: same hand, no thumb involved, and at least one of the
/// two keys sits in a stretched column.
pub open spec fn spec_ls(key1: Key, key2: Key) -> bool {
    (key1.lateral || key2.lateral) && key1.hand == key2.hand && key1.finger != Finger::Thumb
        && key2.finger != Finger::Thumb
}

/// Whether the pair is a lateral stretch: same hand, neither key on a
/// thumb, at least one key in a stretched column.
pub fn ls(key1: &Key, key2: &Key) -> (r: bool)
    ensures
        r == spec_ls(*key1, *key2),
{
    (key1.lateral || key2.lateral) && key1.hand == key2.hand && !(key1.finger == Finger::Thumb)
        && !(key2.finger == Finger::Thumb)
}

/// Whether a finger belongs to the outer pair used by the scissor rule.
pub open spec fn spec_outer(f: Finger) -> bool {
    f == Finger::Pinky || f == Finger::Index
}

/// Whether a finger belongs to the inner pair used by the scissor rule.
pub open spec fn spec_inner(f: Finger) -> bool {
    f == Finger::Middle || f == Finger::Ring
}

/// Scissor severity: when the two keys are on the same hand, use different
/// fingers, and pair a pinky-or-index finger with a middle-or-ring finger,
/// the severity is the vertical row distance; otherwise 0.
pub open spec fn spec_scissor(key1: Key, key2: Key) -> int {
    if key1.hand == key2.hand && key1.finger != key2.finger && ((spec_outer(key1.finger)
        && spec_inner(key2.finger)) || (spec_outer(key2.finger) && spec_inner(key1.finger))) {
        if key1.row >= key2.row {
            key1.row - key2.row
        } else {
            key2.row - key1.row
        }
    } else {
        0
    }
}

/// Scissor severity of the pair: the vertical row distance when the
/// crossing-finger condition holds (1 marks a half scissor, 2 a full
/// scissor), 0 otherwise.
pub fn scissor(key1: &Key, key2: &Key) -> (r: u8)
    ensures
        r as int == spec_scissor(*key1, *key2),
{
    let distance: u8 = if key1.row >= key2.row {
        key1.row - key2.row
    } else {
        key2.row - key1.row
    };
    let outer1 = key1.finger == Finger::Pinky || key1.finger == Finger::Index;
    let inner1 = key1.finger == Finger::Middle || key1.finger == Finger::Ring;
    let outer2 = key2.finger == Finger::Pinky || key2.finger == Finger::Index;
    let inner2 = key2.finger == Finger::Middle || key2.finger == Finger::Ring;
    if key1.hand == key2.hand && !(key1.finger == key2.finger) && ((outer1 && inner2) || (outer2
        && inner1)) {
        distance
    } else {
        0
    }
}

/// The category of an ordered pair of resolved keys, first match wins:
/// same-finger motion, same-key repeat, lateral stretch, half scissor
/// (severity 1), full scissor (severity 2). Pairs involving the reserved
/// sentinel key never match the same-finger or repeat categories, so the
/// start of a corpus cannot produce spurious events.
pub open spec fn spec_classify(key1: Key, key2: Key) -> BigramKind {
    if spec_is_real(key1) && spec_sf(key1, key2) {
        BigramKind::SameFinger
    } else if spec_is_real(key1) && key1 == key2 {
        BigramKind::Repeat
    } else if spec_ls(key1, key2) {
        BigramKind::LateralStretch
    } else if spec_scissor(key1, key2) == 1 {
        BigramKind::HalfScissor
    } else if spec_scissor(key1, key2) == 2 {
        BigramKind::FullScissor
    } else {
        BigramKind::Plain
    }
}

/// The bigram category of the pair, by the strict priority of the five
/// mutually exclusive categories.
pub fn classify(key1: &Key, key2: &Key) -> (r: BigramKind)
    ensures
        r == spec_classify(*key1, *key2),
{
    let on_hand = key1.hand == 0 || key1.hand == 1;
    if on_hand && sf(key1, key2) {
        BigramKind::SameFinger
    } else if on_hand && key1 == key2 {
        BigramKind::Repeat
    } else if ls(key1, key2) {
        BigramKind::LateralStretch
    } else if scissor(key1, key2) == 1 {
        BigramKind::HalfScissor
    } else if scissor(key1, key2) == 2 {
        BigramKind::FullScissor
    } else {
        BigramKind::Plain
    }
}

} // verus!
