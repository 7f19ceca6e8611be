use vstd::prelude::*;

use crate::accum::StatsModel;
use crate::bigram::lemma_bigram_step_bounds;
use crate::bigram::lemma_skipgram_step_bounds;
use crate::bigram::spec_bigram_step;
use crate::bigram::spec_skip_pair;
use crate::classify::Metric;
use crate::classify::spec_sf;
use crate::keys::Key;
use crate::keys::spec_is_real;
use crate::preprocess::FILLER;
use crate::preprocess::lemma_apply_rules_len;
use crate::preprocess::spec_count_char;
use crate::preprocess::spec_preprocess;
use crate::scan::spec_analyze;
use crate::scan::spec_layout_table;
use crate::scan::spec_layout_table_n;
use crate::scan::spec_scan_n;
use crate::trigram::lemma_trigram_step_bounds;

verus! {

/// After `n` steps the scanner has counted exactly `n` characters, and
/// the thumb-event counter never exceeds the characters counted.
pub proof fn lemma_scan_chars(s: Seq<char>, table: Map<char, Key>, command: Metric, n: int)
    requires
        0 <= n,
    ensures
        spec_scan_n(s, table, command, n).stats.chars == n,
        0 <= spec_scan_n(s, table, command, n).stats.thumb_stat <= n,
    decreases n,
{
    if n <= 0 {
    } else {
        lemma_scan_chars(s, table, command, n - 1);
        let st = spec_scan_n(s, table, command, n - 1);
        let c = s[n - 1];
        let key = crate::keys::spec_key_of(table, c);
        let previous_key = crate::keys::spec_key_of(table, st.prev);
        let skip_previous_key = crate::keys::spec_key_of(table, st.skip_prev);
        let epic_previous_key = crate::keys::spec_key_of(table, st.epic_prev);
        let s0 = StatsModel { chars: st.stats.chars + 1, ..st.stats };
        lemma_bigram_step_bounds(previous_key, key, command, s0);
        let big = spec_bigram_step(previous_key, key, command, s0);
        lemma_skipgram_step_bounds(skip_previous_key, key, epic_previous_key, command, big.0);
        let skip = crate::bigram::spec_skipgram_step(
            skip_previous_key,
            key,
            epic_previous_key,
            command,
            big.0,
        );
        lemma_trigram_step_bounds(skip_previous_key, previous_key, key, command, skip.0);
    }
}

/// For every layout, the character count after a full pass equals the
/// corpus length in characters, minus the filler markers that the
/// digraph substitution introduced, minus the thumb-originated events
/// when neither configuration flag credits them.
pub proof fn lemma_chars_counted(
    corpus: Seq<char>,
    layout: Seq<char>,
    command: Metric,
    rules: Map<char, char>,
    include_thumb_alt: bool,
    include_thumb_roll: bool,
)
    ensures
        ({
            let out = spec_analyze(corpus, layout, command, rules, include_thumb_alt, include_thumb_roll);
            let introduced = spec_count_char(spec_preprocess(corpus, layout, rules), FILLER)
                - spec_count_char(corpus, FILLER);
            out.chars == corpus.len() - introduced - (if !(include_thumb_alt
                || include_thumb_roll) {
                out.thumb_stat
            } else {
                0
            })
        }),
{
    let pre = spec_preprocess(corpus, layout, rules);
    lemma_apply_rules_len(corpus, layout, rules, 32);
    lemma_scan_chars(pre, spec_layout_table(layout), command, pre.len() as int);
}

/// An adjacent pair of one identical real key is always a same-finger
/// repeat and never a same-finger bigram: the same-finger category asks
/// for two different keys.
pub proof fn lemma_repeat_not_same_finger(key1: Key, key2: Key, command: Metric, s: StatsModel)
    requires
        key1 == key2,
        spec_is_real(key1),
    ensures
        spec_bigram_step(key1, key2, command, s).0.sfr == s.sfr + 1,
        spec_bigram_step(key1, key2, command, s).0.sfb == s.sfb,
{
    reveal(spec_bigram_step);
    assert(!spec_sf(key1, key2));
}

/// The lateral-stretch, half-scissor and full-scissor categories are
/// pairwise mutually exclusive: one classification of a pair raises at
/// most one of the three counters, in the adjacent case as in the skip
/// case.
pub proof fn lemma_stretch_scissor_exclusive(key1: Key, key2: Key, command: Metric, s: StatsModel)
    ensures
        ({
            let n = spec_bigram_step(key1, key2, command, s).0;
            &&& n.lsb + n.hsb + n.fsb <= s.lsb + s.hsb + s.fsb + 1
            &&& (n.lsb != s.lsb ==> n.hsb == s.hsb && n.fsb == s.fsb)
            &&& (n.hsb != s.hsb ==> n.lsb == s.lsb && n.fsb == s.fsb)
            &&& (n.fsb != s.fsb ==> n.lsb == s.lsb && n.hsb == s.hsb)
        }),
        ({
            let m = spec_skip_pair(key1, key2, command, s).0;
            &&& m.lss + m.hss + m.fss <= s.lss + s.hss + s.fss + 1
            &&& (m.lss != s.lss ==> m.hss == s.hss && m.fss == s.fss)
            &&& (m.hss != s.hss ==> m.lss == s.lss && m.fss == s.fss)
            &&& (m.fss != s.fss ==> m.lss == s.lss && m.hss == s.hss)
        }),
{
    reveal(spec_bigram_step);
    reveal(spec_skip_pair);
}

/// Analysis is a pure function of its inputs: two runs on identical
/// corpus, layout, token, rules and flags yield identical accumulators.
pub proof fn lemma_analysis_idempotent(
    corpus: Seq<char>,
    layout: Seq<char>,
    command: Metric,
    rules: Map<char, char>,
    include_thumb_alt: bool,
    include_thumb_roll: bool,
    first: StatsModel,
    second: StatsModel,
)
    requires
        first == spec_analyze(corpus, layout, command, rules, include_thumb_alt, include_thumb_roll),
        second == spec_analyze(corpus, layout, command, rules, include_thumb_alt, include_thumb_roll),
    ensures
        first == second,
{
}

/// When a character sits in two slots of the layout, the layout table
/// keeps exactly the later slot's key for it.
pub proof fn lemma_table_keeps_last(layout: Seq<char>, c: char, n: int, j: int)
    requires
        0 <= j < n <= 32,
        layout[j] == c,
        forall|k: int| j < k < n ==> layout[k] != c,
    ensures
        spec_layout_table_n(layout, n).contains_key(c),
        spec_layout_table_n(layout, n)[c] == crate::keys::spec_slot_key(j),
    decreases n,
{
    if n - 1 == j {
    } else {
        lemma_table_keeps_last(layout, c, n - 1, j);
    }
}

/// A layout with the same character in two slots maps it to the later
/// slot's key: the earlier slot's mapping is silently discarded.
pub proof fn lemma_duplicate_keeps_later(layout: Seq<char>, i: int, j: int)
    requires
        0 <= i < j < 32,
        layout[i] == layout[j],
        forall|k: int| j < k < 32 ==> layout[k] != layout[j],
    ensures
        spec_layout_table(layout).contains_key(layout[j]),
        spec_layout_table(layout)[layout[j]] == crate::keys::spec_slot_key(j),
{
    lemma_table_keeps_last(layout, layout[j], 32, j);
}

} // verus!
