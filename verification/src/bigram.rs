use vstd::prelude::*;

use crate::accum::Stats;
use crate::accum::StatsModel;
use crate::accum::spec_grows_within;
use crate::accum::spec_measured_within;
use crate::classify::BigramKind;
use crate::classify::Metric;
use crate::classify::classify;
use crate::classify::spec_classify;
use crate::keys::Finger;
use crate::keys::Key;
use crate::keys::finger_weight;
use crate::keys::spec_finger_weight;

verus! {

/// Travel distance of a same-finger motion: the vertical row distance,
/// but never less than one key's worth of motion. On the 0..=3 rows of
/// the physical model this value agrees both with the clamped vertical
/// distance used when the two keys share laterality and with the rounded
/// diagonal approximation used when they do not.
pub open spec fn spec_travel(key1: Key, key2: Key) -> int {
    let dy = if key1.row >= key2.row {
        key1.row - key2.row
    } else {
        key2.row - key1.row
    };
    if dy == 0 {
        1
    } else {
        dy
    }
}

/// The accumulator after classifying one adjacent key pair, together with
/// the record flag (the selected category matched), the bad-bigram flag
/// (any category matched), and the weight charged for the pair. A
/// same-finger motion adds 5 x finger weight x travel distance to the
/// travel cost; a repeat adds 2 x finger weight; a lateral stretch and a
/// half scissor weigh 30, a full scissor 90.
#[verifier::opaque]
pub open spec fn spec_bigram_step(key1: Key, key2: Key, command: Metric, s: StatsModel) -> (
    StatsModel,
    bool,
    bool,
    int,
) {
    let s1 = StatsModel { bigrams: s.bigrams + 1, ..s };
    match spec_classify(key1, key2) {
        BigramKind::SameFinger => {
            let cost = 5 * spec_finger_weight(key1.finger) * spec_travel(key1, key2);
            (
                StatsModel { sfb: s1.sfb + 1, fspeed: s1.fspeed + cost, ..s1 },
                command == Metric::Sfb,
                true,
                cost,
            )
        },
        BigramKind::Repeat => {
            let cost = 2 * spec_finger_weight(key1.finger);
            (
                StatsModel { sfr: s1.sfr + 1, fspeed: s1.fspeed + cost, ..s1 },
                command == Metric::Sfr,
                true,
                cost,
            )
        },
        BigramKind::LateralStretch => (
            StatsModel { lsb: s1.lsb + 1, ..s1 },
            command == Metric::Lsb,
            true,
            30,
        ),
        BigramKind::HalfScissor => (
            StatsModel { hsb: s1.hsb + 1, ..s1 },
            command == Metric::Hsb,
            true,
            30,
        ),
        BigramKind::FullScissor => (
            StatsModel { fsb: s1.fsb + 1, ..s1 },
            command == Metric::Fsb,
            true,
            90,
        ),
        BigramKind::Plain => (s1, false, false, 0),
    }
}

/// Classifies one adjacent pair of resolved keys and charges the
/// accumulator: exactly the category of `spec_classify` fires. Returns
/// whether to record the pair in the n-gram table (the selected category
/// matched), whether the pair is a bad bigram (any category matched), and
/// the weight charged.
pub fn bigram_stats(key1: &Key, key2: &Key, command: Metric, stats: &mut Stats) -> (r: (
    bool,
    bool,
    u32,
))
    requires
        spec_measured_within(old(stats)@, 40000000000000),
    ensures
        final(stats)@ == spec_bigram_step(*key1, *key2, command, old(stats)@).0,
        r.0 == spec_bigram_step(*key1, *key2, command, old(stats)@).1,
        r.1 == spec_bigram_step(*key1, *key2, command, old(stats)@).2,
        r.2 as int == spec_bigram_step(*key1, *key2, command, old(stats)@).3,
        spec_grows_within(old(stats)@, final(stats)@, 100000),
{
    proof {
        reveal(spec_bigram_step);
    }
    stats.bigrams = stats.bigrams + 1;
    match classify(key1, key2) {
        BigramKind::SameFinger => {
            let w = finger_weight(key1.finger);
            let dy = if key1.row >= key2.row {
                key1.row - key2.row
            } else {
                key2.row - key1.row
            };
            let distance: u8 = if dy == 0 {
                1
            } else {
                dy
            };
            proof {
                assert(0 <= 5 * (w as int) * (distance as int) <= 100000) by (nonlinear_arith)
                    requires
                        18 <= w <= 66,
                        1 <= distance <= 255,
                ;
            }
            let cost: i64 = 5 * w * (distance as i64);
            stats.sfb = stats.sfb + 1;
            stats.fspeed = stats.fspeed + cost;
            (command == Metric::Sfb, true, cost as u32)
        },
        BigramKind::Repeat => {
            let w = finger_weight(key1.finger);
            let cost: i64 = 2 * w;
            stats.sfr = stats.sfr + 1;
            stats.fspeed = stats.fspeed + cost;
            (command == Metric::Sfr, true, cost as u32)
        },
        BigramKind::LateralStretch => {
            stats.lsb = stats.lsb + 1;
            (command == Metric::Lsb, true, 30)
        },
        BigramKind::HalfScissor => {
            stats.hsb = stats.hsb + 1;
            (command == Metric::Hsb, true, 30)
        },
        BigramKind::FullScissor => {
            stats.fsb = stats.fsb + 1;
            (command == Metric::Fsb, true, 90)
        },
        BigramKind::Plain => { (false, false, 0) },
    }
}

/// The accumulator after one skip classification of a key pair: the same
/// five-category logic as the adjacent case, charged to the parallel
/// skip counters. A same-finger skip adds 1 x finger weight x travel
/// distance to the travel cost; a repeated key charges nothing.
#[verifier::opaque]
pub open spec fn spec_skip_pair(key1: Key, key2: Key, command: Metric, s: StatsModel) -> (
    StatsModel,
    bool,
) {
    match spec_classify(key1, key2) {
        BigramKind::SameFinger => {
            let cost = spec_finger_weight(key1.finger) * spec_travel(key1, key2);
            (StatsModel { sfs: s.sfs + 1, fspeed: s.fspeed + cost, ..s }, command == Metric::Sfs)
        },
        BigramKind::Repeat => (s, false),
        BigramKind::LateralStretch => (StatsModel { lss: s.lss + 1, ..s }, command == Metric::Lss),
        BigramKind::HalfScissor => (StatsModel { hss: s.hss + 1, ..s }, command == Metric::Hss),
        BigramKind::FullScissor => (StatsModel { fss: s.fss + 1, ..s }, command == Metric::Fss),
        BigramKind::Plain => (s, false),
    }
}

/// The accumulator after one auxiliary skip classification against the
/// historical opposite-hand anchor: the same categories as `spec_skip_pair`
/// but with no travel-cost contribution.
#[verifier::opaque]
pub open spec fn spec_epic_pair(epic_key1: Key, key2: Key, command: Metric, s: StatsModel) -> (
    StatsModel,
    bool,
) {
    match spec_classify(epic_key1, key2) {
        BigramKind::SameFinger => (StatsModel { sfs: s.sfs + 1, ..s }, command == Metric::Sfs),
        BigramKind::Repeat => (s, false),
        BigramKind::LateralStretch => (StatsModel { lss: s.lss + 1, ..s }, command == Metric::Lss),
        BigramKind::HalfScissor => (StatsModel { hss: s.hss + 1, ..s }, command == Metric::Hss),
        BigramKind::FullScissor => (StatsModel { fss: s.fss + 1, ..s }, command == Metric::Fss),
        BigramKind::Plain => (s, false),
    }
}

/// The accumulator after the full skipgram step: the distance-2 pair is
/// always classified; when the historical anchor shares the current key's
/// hand, the anchor pair is classified as well, and a skipgram is tallied
/// for each classification made. The record flag is set when either
/// classification matched the selected category.
#[verifier::opaque]
pub open spec fn spec_skipgram_step(
    key1: Key,
    key2: Key,
    epic_key1: Key,
    command: Metric,
    s: StatsModel,
) -> (StatsModel, bool) {
    let s1 = StatsModel { skipgrams: s.skipgrams + 1, ..s };
    let main = spec_skip_pair(key1, key2, command, s1);
    if epic_key1.hand == key2.hand {
        let s2 = StatsModel { skipgrams: main.0.skipgrams + 1, ..main.0 };
        let epic = spec_epic_pair(epic_key1, key2, command, s2);
        (epic.0, main.1 || epic.1)
    } else {
        main
    }
}

/// Classifies the distance-2 pair, and, when the historical opposite-hand
/// anchor lies on the current key's hand, the anchor pair as well,
/// charging the skip counters; returns whether to record the skipgram.
pub fn skipgram_stats(
    key1: &Key,
    key2: &Key,
    epic_key1: &Key,
    command: Metric,
    stats: &mut Stats,
) -> (r: bool)
    requires
        spec_measured_within(old(stats)@, 40000000000000),
    ensures
        final(stats)@ == spec_skipgram_step(*key1, *key2, *epic_key1, command, old(stats)@).0,
        r == spec_skipgram_step(*key1, *key2, *epic_key1, command, old(stats)@).1,
        spec_grows_within(old(stats)@, final(stats)@, 100000),
{
    proof {
        reveal(spec_skipgram_step);
        reveal(spec_skip_pair);
        reveal(spec_epic_pair);
    }
    let mut insert_ngram = false;
    stats.skipgrams = stats.skipgrams + 1;
    match classify(key1, key2) {
        BigramKind::SameFinger => {
            let w = finger_weight(key1.finger);
            let dy = if key1.row >= key2.row {
                key1.row - key2.row
            } else {
                key2.row - key1.row
            };
            let distance: u8 = if dy == 0 {
                1
            } else {
                dy
            };
            proof {
                assert(0 <= (w as int) * (distance as int) <= 100000) by (nonlinear_arith)
                    requires
                        18 <= w <= 66,
                        1 <= distance <= 255,
                ;
            }
            let cost: i64 = w * (distance as i64);
            stats.sfs = stats.sfs + 1;
            stats.fspeed = stats.fspeed + cost;
            if command == Metric::Sfs {
                insert_ngram = true;
            }
        },
        BigramKind::Repeat => {},
        BigramKind::LateralStretch => {
            stats.lss = stats.lss + 1;
            if command == Metric::Lss {
                insert_ngram = true;
            }
        },
        BigramKind::HalfScissor => {
            stats.hss = stats.hss + 1;
            if command == Metric::Hss {
                insert_ngram = true;
            }
        },
        BigramKind::FullScissor => {
            stats.fss = stats.fss + 1;
            if command == Metric::Fss {
                insert_ngram = true;
            }
        },
        BigramKind::Plain => {},
    }
    if epic_key1.hand == key2.hand {
        stats.skipgrams = stats.skipgrams + 1;
        match classify(epic_key1, key2) {
            BigramKind::SameFinger => {
                stats.sfs = stats.sfs + 1;
                if command == Metric::Sfs {
                    insert_ngram = true;
                }
            },
            BigramKind::Repeat => {},
            BigramKind::LateralStretch => {
                stats.lss = stats.lss + 1;
                if command == Metric::Lss {
                    insert_ngram = true;
                }
            },
            BigramKind::HalfScissor => {
                stats.hss = stats.hss + 1;
                if command == Metric::Hss {
                    insert_ngram = true;
                }
            },
            BigramKind::FullScissor => {
                stats.fss = stats.fss + 1;
                if command == Metric::Fss {
                    insert_ngram = true;
                }
            },
            BigramKind::Plain => {},
        }
    }
    insert_ngram
}

/// The travel distance of any key pair lies between 1 and 255.
pub proof fn lemma_travel_bounds(key1: Key, key2: Key)
    ensures
        1 <= spec_travel(key1, key2) <= 255,
{
}

/// Every finger weight lies between 18 and 66.
pub proof fn lemma_weight_bounds(f: Finger)
    ensures
        18 <= spec_finger_weight(f) <= 66,
{
}

/// One bigram classification grows the counters by at most its largest
/// charge and touches neither the character count, the thumb counter,
/// the score nor the tables.
pub proof fn lemma_bigram_step_bounds(key1: Key, key2: Key, command: Metric, s: StatsModel)
    ensures
        ({
            let n = spec_bigram_step(key1, key2, command, s).0;
            &&& spec_grows_within(s, n, 100000)
            &&& n.chars == s.chars
            &&& n.thumb_stat == s.thumb_stat
            &&& n.score == s.score
            &&& n.ngram_table == s.ngram_table
            &&& n.bad_bigrams == s.bad_bigrams
        }),
{
    reveal(spec_bigram_step);
    lemma_weight_bounds(key1.finger);
    lemma_travel_bounds(key1, key2);
    assert(0 <= 5 * spec_finger_weight(key1.finger) * spec_travel(key1, key2) <= 100000)
        by (nonlinear_arith)
        requires
            18 <= spec_finger_weight(key1.finger) <= 66,
            1 <= spec_travel(key1, key2) <= 255,
    ;
}

/// One skipgram step grows the counters by at most its largest charge
/// and touches neither the character count, the thumb counter, the score
/// nor the tables.
pub proof fn lemma_skipgram_step_bounds(
    key1: Key,
    key2: Key,
    epic_key1: Key,
    command: Metric,
    s: StatsModel,
)
    ensures
        ({
            let n = spec_skipgram_step(key1, key2, epic_key1, command, s).0;
            &&& spec_grows_within(s, n, 100000)
            &&& n.chars == s.chars
            &&& n.thumb_stat == s.thumb_stat
            &&& n.score == s.score
            &&& n.ngram_table == s.ngram_table
            &&& n.bad_bigrams == s.bad_bigrams
        }),
{
    reveal(spec_skipgram_step);
    reveal(spec_skip_pair);
    reveal(spec_epic_pair);
    lemma_weight_bounds(key1.finger);
    lemma_travel_bounds(key1, key2);
    assert(0 <= spec_finger_weight(key1.finger) * spec_travel(key1, key2) <= 99998)
        by (nonlinear_arith)
        requires
            18 <= spec_finger_weight(key1.finger) <= 66,
            1 <= spec_travel(key1, key2) <= 255,
    ;
}

} // verus!
