use vstd::prelude::*;

use crate::accum::Stats;
use crate::accum::StatsModel;
use crate::accum::spec_grows_within;
use crate::accum::spec_measured_within;
use crate::classify::Metric;
use crate::keys::Finger;
use crate::keys::Key;
use crate::keys::spec_is_real;

verus! {

/// Position of a finger on the pinky-to-thumb axis; a larger rank is
/// closer to the thumb, so motion of increasing rank is inward.
pub open spec fn spec_finger_rank(f: Finger) -> int {
    match f {
        Finger::Pinky => 0,
        Finger::Ring => 1,
        Finger::Middle => 2,
        Finger::Index => 3,
        Finger::Thumb => 4,
    }
}

/// Rank of the finger, 0 at the pinky rising to 4 at the thumb.
pub fn finger_rank(f: Finger) -> (r: u8)
    ensures
        r as int == spec_finger_rank(f),
{
    match f {
        Finger::Pinky => 0,
        Finger::Ring => 1,
        Finger::Middle => 2,
        Finger::Index => 3,
        Finger::Thumb => 4,
    }
}

/// The accumulator after a two-key roll of a same-hand pair: inward when
/// the motion runs toward the thumb, outward when it runs away; a pair on
/// one finger rolls nothing. A roll involving a thumb key is tallied in
/// the thumb counter.
#[verifier::opaque]
pub open spec fn spec_two_roll(a: Key, b: Key, command: Metric, s: StatsModel) -> (StatsModel, bool) {
    let ra = spec_finger_rank(a.finger);
    let rb = spec_finger_rank(b.finger);
    if ra == rb {
        (s, false)
    } else {
        let t: int = if a.finger == Finger::Thumb || b.finger == Finger::Thumb {
            1
        } else {
            0
        };
        if ra < rb {
            (
                StatsModel { inroll: s.inroll + 1, thumb_stat: s.thumb_stat + t, ..s },
                command == Metric::Inroll,
            )
        } else {
            (
                StatsModel { outroll: s.outroll + 1, thumb_stat: s.thumb_stat + t, ..s },
                command == Metric::Outroll,
            )
        }
    }
}

/// The accumulator after classifying one ordered key triple. A run of
/// three same-hand keys rolls inward or outward when the finger ranks are
/// strictly monotonic, and otherwise is a redirect when both steps change
/// finger (weak when no index finger takes part). A triple with exactly
/// one hand change rolls its same-hand pair. A triple that changes hands
/// at both steps is an alternation. Alternations and rolls that involve a
/// thumb key are tallied in the thumb counter, and windows that still
/// contain the sentinel key classify at most their real same-hand pair.
#[verifier::opaque]
pub open spec fn spec_trigram_step(
    key1: Key,
    key2: Key,
    key3: Key,
    command: Metric,
    s: StatsModel,
) -> (StatsModel, bool) {
    if !(spec_is_real(key1) && spec_is_real(key2) && spec_is_real(key3)) {
        if spec_is_real(key2) && spec_is_real(key3) && key2.hand == key3.hand {
            spec_two_roll(key2, key3, command, s)
        } else {
            (s, false)
        }
    } else if key1.hand == key2.hand && key2.hand == key3.hand {
        let r1 = spec_finger_rank(key1.finger);
        let r2 = spec_finger_rank(key2.finger);
        let r3 = spec_finger_rank(key3.finger);
        let t: int = if key1.finger == Finger::Thumb || key2.finger == Finger::Thumb
            || key3.finger == Finger::Thumb {
            1
        } else {
            0
        };
        if r1 < r2 && r2 < r3 {
            (
                StatsModel { inthreeroll: s.inthreeroll + 1, thumb_stat: s.thumb_stat + t, ..s },
                command == Metric::Inthreeroll,
            )
        } else if r1 > r2 && r2 > r3 {
            (
                StatsModel { outthreeroll: s.outthreeroll + 1, thumb_stat: s.thumb_stat + t, ..s },
                command == Metric::Outthreeroll,
            )
        } else if r1 != r2 && r2 != r3 {
            if key1.finger == Finger::Index || key2.finger == Finger::Index || key3.finger
                == Finger::Index {
                (StatsModel { red: s.red + 1, ..s }, command == Metric::Red)
            } else {
                (StatsModel { weak_red: s.weak_red + 1, ..s }, command == Metric::WeakRed)
            }
        } else {
            (s, false)
        }
    } else if key1.hand == key2.hand {
        spec_two_roll(key1, key2, command, s)
    } else if key2.hand == key3.hand {
        spec_two_roll(key2, key3, command, s)
    } else {
        let t: int = if key1.finger == Finger::Thumb || key2.finger == Finger::Thumb
            || key3.finger == Finger::Thumb {
            1
        } else {
            0
        };
        (
            StatsModel { alt: s.alt + 1, thumb_stat: s.thumb_stat + t, ..s },
            command == Metric::Alt,
        )
    }
}

/// Charges a two-key roll of a same-hand pair to the accumulator.
fn two_roll(a: &Key, b: &Key, command: Metric, stats: &mut Stats) -> (r: bool)
    requires
        spec_measured_within(old(stats)@, 40000000000000),
    ensures
        final(stats)@ == spec_two_roll(*a, *b, command, old(stats)@).0,
        r == spec_two_roll(*a, *b, command, old(stats)@).1,
        spec_grows_within(old(stats)@, final(stats)@, 100000),
{
    proof {
        reveal(spec_two_roll);
    }
    let ra = finger_rank(a.finger);
    let rb = finger_rank(b.finger);
    if ra == rb {
        false
    } else {
        let t: i64 = if a.finger == Finger::Thumb || b.finger == Finger::Thumb {
            1
        } else {
            0
        };
        if ra < rb {
            stats.inroll = stats.inroll + 1;
            stats.thumb_stat = stats.thumb_stat + t;
            command == Metric::Inroll
        } else {
            stats.outroll = stats.outroll + 1;
            stats.thumb_stat = stats.thumb_stat + t;
            command == Metric::Outroll
        }
    }
}

/// Classifies one ordered triple of resolved keys into the roll,
/// alternation and redirect categories and charges the accumulator;
/// returns whether to record the trigram in the n-gram table.
pub fn trigram_stats(key1: &Key, key2: &Key, key3: &Key, command: Metric, stats: &mut Stats) -> (r:
    bool)
    requires
        spec_measured_within(old(stats)@, 40000000000000),
    ensures
        final(stats)@ == spec_trigram_step(*key1, *key2, *key3, command, old(stats)@).0,
        r == spec_trigram_step(*key1, *key2, *key3, command, old(stats)@).1,
        spec_grows_within(old(stats)@, final(stats)@, 100000),
{
    proof {
        reveal(spec_trigram_step);
        reveal(spec_two_roll);
    }
    let real1 = key1.hand == 0 || key1.hand == 1;
    let real2 = key2.hand == 0 || key2.hand == 1;
    let real3 = key3.hand == 0 || key3.hand == 1;
    if !(real1 && real2 && real3) {
        if real2 && real3 && key2.hand == key3.hand {
            two_roll(key2, key3, command, stats)
        } else {
            false
        }
    } else if key1.hand == key2.hand && key2.hand == key3.hand {
        let r1 = finger_rank(key1.finger);
        let r2 = finger_rank(key2.finger);
        let r3 = finger_rank(key3.finger);
        let t: i64 = if key1.finger == Finger::Thumb || key2.finger == Finger::Thumb
            || key3.finger == Finger::Thumb {
            1
        } else {
            0
        };
        if r1 < r2 && r2 < r3 {
            stats.inthreeroll = stats.inthreeroll + 1;
            stats.thumb_stat = stats.thumb_stat + t;
            command == Metric::Inthreeroll
        } else if r1 > r2 && r2 > r3 {
            stats.outthreeroll = stats.outthreeroll + 1;
            stats.thumb_stat = stats.thumb_stat + t;
            command == Metric::Outthreeroll
        } else if r1 != r2 && r2 != r3 {
            if key1.finger == Finger::Index || key2.finger == Finger::Index || key3.finger
                == Finger::Index {
                stats.red = stats.red + 1;
                command == Metric::Red
            } else {
                stats.weak_red = stats.weak_red + 1;
                command == Metric::WeakRed
            }
        } else {
            false
        }
    } else if key1.hand == key2.hand {
        two_roll(key1, key2, command, stats)
    } else if key2.hand == key3.hand {
        two_roll(key2, key3, command, stats)
    } else {
        let t: i64 = if key1.finger == Finger::Thumb || key2.finger == Finger::Thumb
            || key3.finger == Finger::Thumb {
            1
        } else {
            0
        };
        stats.alt = stats.alt + 1;
        stats.thumb_stat = stats.thumb_stat + t;
        command == Metric::Alt
    }
}

/// One trigram classification raises at most one event counter and the
/// thumb counter by one each, and touches neither the character count,
/// the score nor the tables.
pub proof fn lemma_trigram_step_bounds(
    key1: Key,
    key2: Key,
    key3: Key,
    command: Metric,
    s: StatsModel,
)
    ensures
        ({
            let n = spec_trigram_step(key1, key2, key3, command, s).0;
            &&& spec_grows_within(s, n, 1)
            &&& n.chars == s.chars
            &&& s.thumb_stat <= n.thumb_stat <= s.thumb_stat + 1
            &&& n.score == s.score
            &&& n.ngram_table == s.ngram_table
            &&& n.bad_bigrams == s.bad_bigrams
        }),
{
    reveal(spec_trigram_step);
    reveal(spec_two_roll);
}

} // verus!
