use vstd::prelude::*;

use crate::accum::Stats;
use crate::accum::StatsModel;
use crate::accum::spec_measured_within;
use crate::accum::spec_score;
use crate::accum::spec_stats_zero;
use crate::bigram::bigram_stats;
use crate::bigram::lemma_bigram_step_bounds;
use crate::bigram::lemma_skipgram_step_bounds;
use crate::bigram::spec_bigram_step;
use crate::bigram::spec_skipgram_step;
use crate::bigram::skipgram_stats;
use crate::classify::Metric;
use crate::keys::Key;
use crate::keys::SENTINEL;
use crate::keys::sentinel_key;
use crate::keys::slot_key;
use crate::keys::spec_key_of;
use crate::keys::spec_resolvable;
use crate::keys::spec_slot_key;
use crate::preprocess::FILLER;
use crate::preprocess::count_char;
use crate::preprocess::lemma_count_char_le_len;
use crate::preprocess::preprocess;
use crate::preprocess::spec_count_char;
use crate::preprocess::spec_preprocess;
use crate::reduce::compute_column_penalty;
use crate::reduce::compute_heatmap;
use crate::reduce::spec_column_penalty;
use crate::reduce::spec_heatmap_n;
use crate::table::freq_bump;
use crate::table::freq_empty;
use crate::table::freq_new;
use crate::table::freq_view;
use crate::table::ngram_bump;
use crate::table::ngram_empty;
use crate::table::ngram_new;
use crate::table::ngram_view;
use crate::table::rules_view;
use crate::table::spec_bump1;
use crate::table::spec_bump3;
use crate::table::table_get;
use crate::table::table_new;
use crate::table::table_insert;
use crate::table::table_view;
use crate::trigram::lemma_trigram_step_bounds;
use crate::trigram::spec_trigram_step;
use crate::trigram::trigram_stats;
use ahash::AHashMap;
use vstd::string::StrSliceExecFns;

verus! {

/// The layout table over the first `n` slots: each slot's character maps
/// to that slot's fixed geometry, a later slot silently overwriting an
/// earlier one that holds the same character.
pub open spec fn spec_layout_table_n(layout: Seq<char>, n: int) -> Map<char, Key>
    decreases n,
{
    if n <= 0 {
        Map::empty()
    } else {
        spec_layout_table_n(layout, n - 1).insert(layout[n - 1], spec_slot_key(n - 1))
    }
}

/// The layout table of a 32-character layout sequence.
pub open spec fn spec_layout_table(layout: Seq<char>) -> Map<char, Key> {
    spec_layout_table_n(layout, 32)
}

/// Builds the character-to-key table of a layout: slot `i`'s character
/// maps to the fixed geometry of slot `i`; a duplicated character keeps
/// only the later slot's key.
pub fn layout_raw_to_table(layout_raw: &[char; 32]) -> (t: AHashMap<char, Key>)
    ensures
        table_view(t) == spec_layout_table(layout_raw@),
{
    let mut t = table_new();
    let mut i: usize = 0;
    while i < 32
        invariant
            i <= 32,
            table_view(t) == spec_layout_table_n(layout_raw@, i as int),
        decreases 32 - i,
    {
        table_insert(&mut t, layout_raw[i], slot_key(i));
        i = i + 1;
    }
    t
}

/// Resolves a character: its table entry when it has one, the reserved
/// sentinel key when it is the sentinel, and nothing otherwise.
fn key_lookup(table: &AHashMap<char, Key>, c: char) -> (r: Option<Key>)
    ensures
        match r {
            Some(k) => spec_resolvable(table_view(*table), c) && k == spec_key_of(
                table_view(*table),
                c,
            ),
            None => !spec_resolvable(table_view(*table), c),
        },
{
    match table_get(table, &c) {
        Some(k) => Some(*k),
        None => {
            if c == SENTINEL {
                Some(sentinel_key())
            } else {
                None
            }
        },
    }
}

/// The state the scanner carries between steps: the three trailing
/// cursors, the per-character frequency map, the n-gram table filled so
/// far, and the accumulator of counters (whose own n-gram table stays
/// empty until the scan ends).
#[verifier::ext_equal]
pub ghost struct ScanState {
    pub prev: char,
    pub skip_prev: char,
    pub epic_prev: char,
    pub freq: Map<char, u32>,
    pub ngrams: Map<(char, char, char), u32>,
    pub stats: StatsModel,
}

/// The scanner's state before any character: all three cursors at the
/// sentinel, nothing observed.
pub open spec fn spec_scan_init() -> ScanState {
    ScanState {
        prev: SENTINEL,
        skip_prev: SENTINEL,
        epic_prev: SENTINEL,
        freq: freq_empty(),
        ngrams: ngram_empty(),
        stats: spec_stats_zero(),
    }
}

/// One scanner step on character `c`: count it, classify the adjacent
/// pair, the skip pairs and the triple, record the matching n-gram when a
/// classifier asks for it, and advance the cursors; the opposite-hand
/// anchor advances exactly when the current key's hand differs from the
/// anchor key's hand.
pub open spec fn spec_scan_step(st: ScanState, c: char, table: Map<char, Key>, command: Metric) -> ScanState {
    let key = spec_key_of(table, c);
    let previous_key = spec_key_of(table, st.prev);
    let skip_previous_key = spec_key_of(table, st.skip_prev);
    let epic_previous_key = spec_key_of(table, st.epic_prev);
    let s0 = StatsModel { chars: st.stats.chars + 1, ..st.stats };
    let big = spec_bigram_step(previous_key, key, command, s0);
    let ng1 = if big.1 {
        spec_bump3(st.ngrams, (st.prev, c, ' '))
    } else {
        st.ngrams
    };
    let skip = spec_skipgram_step(skip_previous_key, key, epic_previous_key, command, big.0);
    let ng2 = if skip.1 {
        spec_bump3(ng1, (st.skip_prev, '_', c))
    } else {
        ng1
    };
    let tri = spec_trigram_step(skip_previous_key, previous_key, key, command, skip.0);
    let ng3 = if tri.1 {
        spec_bump3(ng2, (st.skip_prev, st.prev, c))
    } else {
        ng2
    };
    ScanState {
        prev: c,
        skip_prev: st.prev,
        epic_prev: if key.hand != epic_previous_key.hand {
            c
        } else {
            st.epic_prev
        },
        freq: spec_bump1(st.freq, c),
        ngrams: ng3,
        stats: tri.0,
    }
}

/// The scanner's state after the first `n` characters of the text.
pub open spec fn spec_scan_n(s: Seq<char>, table: Map<char, Key>, command: Metric, n: int) -> ScanState
    decreases n,
{
    if n <= 0 {
        spec_scan_init()
    } else {
        spec_scan_step(spec_scan_n(s, table, command, n - 1), s[n - 1], table, command)
    }
}

/// A bump raises no entry of a bounded map above the bound plus one.
pub proof fn lemma_bump3_bound(m: Map<(char, char, char), u32>, k: (char, char, char), b: int)
    requires
        forall|j: (char, char, char)| #[trigger] m.contains_key(j) ==> m[j] <= b,
        0 <= b < 4294967295,
    ensures
        forall|j: (char, char, char)| #[trigger]
            spec_bump3(m, k).contains_key(j) ==> spec_bump3(m, k)[j] <= b + 1,
{
}

/// A bump raises no entry of a bounded frequency map above the bound plus
/// one.
pub proof fn lemma_bump1_bound(m: Map<char, u32>, c: char, b: int)
    requires
        forall|j: char| #[trigger] m.contains_key(j) ==> m[j] <= b,
        0 <= b < 4294967295,
    ensures
        forall|j: char| #[trigger]
            spec_bump1(m, c).contains_key(j) ==> spec_bump1(m, c)[j] <= b + 1,
{
}

/// The fault of an analysis run: a corpus character that neither the
/// layout table nor the sentinel can resolve.
#[derive(Clone, Copy, Debug, PartialEq, Eq, Structural)]
pub enum AnalyzeError {
    UnmappedChar(char),
}

/// Every character of the text resolves to a key.
pub open spec fn spec_all_resolvable(s: Seq<char>, table: Map<char, Key>) -> bool {
    forall|i: int| 0 <= i < s.len() ==> spec_resolvable(table, s[i])
}

/// Position `i` holds the first character of the text that resolves to no
/// key.
pub open spec fn spec_first_fault(s: Seq<char>, table: Map<char, Key>, i: int) -> bool {
    &&& 0 <= i < s.len()
    &&& !spec_resolvable(table, s[i])
    &&& forall|j: int| 0 <= j < i ==> spec_resolvable(table, s[j])
}

/// The fixed weight vector of the scorer, shaped as an accumulator.
pub open spec fn spec_weights() -> StatsModel {
    StatsModel {
        score: 0,
        heatmap: -500,
        column_pen: -10000,
        fspeed: -200,
        sfb: 0,
        sfr: 0,
        sfs: 0,
        fsb: -500,
        hsb: -100,
        hss: -20,
        fss: -100,
        lsb: -200,
        lss: -40,
        inroll: 100,
        outroll: 40,
        alt: 0,
        inthreeroll: 320,
        outthreeroll: 160,
        weak_red: -2000,
        red: -300,
        thumb_stat: 0,
        chars: 0,
        bigrams: 0,
        skipgrams: 0,
        ngram_table: ngram_empty(),
        bad_bigrams: ngram_empty(),
    }
}

/// The fixed weight vector of the scorer.
pub fn scoring_weights() -> (w: Stats)
    ensures
        w@ == spec_weights(),
{
    Stats {
        score: 0,
        heatmap: -500,
        column_pen: -10000,
        fspeed: -200,
        sfb: 0,
        sfr: 0,
        sfs: 0,
        fsb: -500,
        hsb: -100,
        hss: -20,
        fss: -100,
        lsb: -200,
        lss: -40,
        inroll: 100,
        outroll: 40,
        alt: 0,
        inthreeroll: 320,
        outthreeroll: 160,
        weak_red: -2000,
        red: -300,
        thumb_stat: 0,
        chars: 0,
        bigrams: 0,
        skipgrams: 0,
        ngram_table: ngram_new(),
        bad_bigrams: ngram_new(),
    }
}

/// The accumulator that a full analysis of the corpus yields: the
/// preprocessed corpus is scanned from the initial state; the filler
/// characters that the digraph preprocessor introduced are non-scoring
/// and leave the character count, as do the thumb events when both
/// thumb-credit flags are off; the heatmap, the column penalty and the
/// weighted score are filled in from the scan's frequency map.
pub open spec fn spec_analyze(
    corpus: Seq<char>,
    layout: Seq<char>,
    command: Metric,
    rules: Map<char, char>,
    include_thumb_alt: bool,
    include_thumb_roll: bool,
) -> StatsModel {
    let pre = spec_preprocess(corpus, layout, rules);
    let table = spec_layout_table(layout);
    let st = spec_scan_n(pre, table, command, pre.len() as int);
    let introduced = spec_count_char(pre, FILLER) - spec_count_char(corpus, FILLER);
    let defilled = StatsModel { chars: st.stats.chars - introduced, ..st.stats };
    let adjusted = if !(include_thumb_alt || include_thumb_roll) {
        StatsModel { chars: defilled.chars - st.stats.thumb_stat, ..defilled }
    } else {
        defilled
    };
    let heat = spec_heatmap_n(layout, st.freq, 32);
    let pen = spec_column_penalty(layout, table, st.freq, adjusted.chars);
    let scored = StatsModel {
        heatmap: heat,
        column_pen: pen,
        ngram_table: st.ngrams,
        ..adjusted
    };
    StatsModel { score: spec_score(scored, spec_weights()), ..scored }
}

/// Replays the corpus over the layout and accumulates every metric: the
/// digraph rules rewrite the corpus, the scanner classifies every
/// adjacent pair, skip pair and triple, and the reducers and scorer fill
/// in the heatmap, the column penalty and the final score. Fails with the
/// first corpus character that neither the layout table nor the sentinel
/// resolves.
#[verifier::rlimit(100)]
pub fn analyze(
    corpus: String,
    layout_letters: [char; 32],
    command: Metric,
    magic_rules: &AHashMap<char, char>,
    include_thumb_alt: bool,
    include_thumb_roll: bool,
) -> (r: Result<Stats, AnalyzeError>)
    requires
        corpus@.len() <= 100000000,
    ensures
        match r {
            Ok(stats) => spec_all_resolvable(
                spec_preprocess(corpus@, layout_letters@, rules_view(*magic_rules)),
                spec_layout_table(layout_letters@),
            ) && spec_measured_within(stats@, 40000000000000) && stats@ == spec_analyze(
                corpus@,
                layout_letters@,
                command,
                rules_view(*magic_rules),
                include_thumb_alt,
                include_thumb_roll,
            ),
            Err(e) => exists|i: int|
                #[trigger] spec_first_fault(
                    spec_preprocess(corpus@, layout_letters@, rules_view(*magic_rules)),
                    spec_layout_table(layout_letters@),
                    i,
                ) && e == AnalyzeError::UnmappedChar(
                    spec_preprocess(corpus@, layout_letters@, rules_view(*magic_rules))[i],
                ),
        },
{
    let table = layout_raw_to_table(&layout_letters);
    let corpus_str = corpus.as_str();
    let n_chars = corpus_str.unicode_len();
    let mut chars_vec: Vec<char> = Vec::new();
    let mut ci: usize = 0;
    while ci < n_chars
        invariant
            ci <= n_chars,
            n_chars == corpus@.len(),
            corpus_str@ == corpus@,
            chars_vec@ =~= corpus@.subrange(0, ci as int),
        decreases n_chars - ci,
    {
        chars_vec.push(corpus_str.get_char(ci));
        ci = ci + 1;
    }
    proof {
        assert(chars_vec@ =~= corpus@);
    }
    let pre = preprocess(&chars_vec, &layout_letters, magic_rules);
    let ghost t = table_view(table);
    let ghost rules = rules_view(*magic_rules);
    let mut stats = Stats::default();
    let mut ngrams = ngram_new();
    let mut freq = freq_new();
    let init_key = match key_lookup(&table, SENTINEL) {
        Some(k) => k,
        None => sentinel_key(),
    };
    let mut previous_letter = SENTINEL;
    let mut skip_previous_letter = SENTINEL;
    let mut epic_previous_letter = SENTINEL;
    let mut previous_key = init_key;
    let mut skip_previous_key = init_key;
    let mut epic_previous_key = init_key;
    let mut i: usize = 0;
    while i < pre.len()
        invariant
            i <= pre@.len(),
            pre@.len() <= 100000000,
            pre@ == spec_preprocess(corpus@, layout_letters@, rules),
            t == table_view(table),
            t == spec_layout_table(layout_letters@),
            rules == rules_view(*magic_rules),
            ({
                let st = spec_scan_n(pre@, t, command, i as int);
                &&& stats@ == st.stats
                &&& ngram_view(ngrams) == st.ngrams
                &&& freq_view(freq) == st.freq
                &&& previous_letter == st.prev
                &&& skip_previous_letter == st.skip_prev
                &&& epic_previous_letter == st.epic_prev
                &&& previous_key == spec_key_of(t, st.prev)
                &&& skip_previous_key == spec_key_of(t, st.skip_prev)
                &&& epic_previous_key == spec_key_of(t, st.epic_prev)
                &&& spec_measured_within(st.stats, 400000 * i)
                &&& st.stats.chars == i
                &&& st.stats.thumb_stat <= i
                &&& st.stats.score == 0
                &&& forall|k: (char, char, char)| #[trigger]
                    st.ngrams.contains_key(k) ==> st.ngrams[k] <= 3 * i
                &&& forall|c: char| #[trigger] st.freq.contains_key(c) ==> st.freq[c] <= i
                &&& forall|j: int| 0 <= j < i ==> spec_resolvable(t, pre@[j])
            }),
        decreases pre@.len() - i,
    {
        let ghost st = spec_scan_n(pre@, t, command, i as int);
        let c = pre[i];
        let key = match key_lookup(&table, c) {
            Some(k) => k,
            None => {
                proof {
                    assert(spec_first_fault(pre@, t, i as int));
                }
                return Err(AnalyzeError::UnmappedChar(c));
            },
        };
        stats.chars = stats.chars + 1;
        let ghost s0 = StatsModel { chars: st.stats.chars + 1, ..st.stats };
        proof {
            assert(stats@ =~= s0);
        }
        freq_bump(&mut freq, c);
        proof {
            lemma_bump1_bound(st.freq, c, i as int);
        }
        let bigram = bigram_stats(&previous_key, &key, command, &mut stats);
        let ghost big = spec_bigram_step(spec_key_of(t, st.prev), spec_key_of(t, c), command, s0);
        let ghost ng0 = ngram_view(ngrams);
        if bigram.0 {
            ngram_bump(&mut ngrams, (previous_letter, c, ' '));
        }
        let ghost ng1 = if big.1 {
            spec_bump3(st.ngrams, (st.prev, c, ' '))
        } else {
            st.ngrams
        };
        proof {
            lemma_bigram_step_bounds(spec_key_of(t, st.prev), spec_key_of(t, c), command, s0);
            lemma_bump3_bound(st.ngrams, (st.prev, c, ' '), 3 * i as int);
            assert(stats@ == big.0);
            assert(ngram_view(ngrams) == ng1);
        }
        let skipgram = skipgram_stats(
            &skip_previous_key,
            &key,
            &epic_previous_key,
            command,
            &mut stats,
        );
        let ghost skip = spec_skipgram_step(
            spec_key_of(t, st.skip_prev),
            spec_key_of(t, c),
            spec_key_of(t, st.epic_prev),
            command,
            big.0,
        );
        if skipgram {
            ngram_bump(&mut ngrams, (skip_previous_letter, '_', c));
        }
        let ghost ng2 = if skip.1 {
            spec_bump3(ng1, (st.skip_prev, '_', c))
        } else {
            ng1
        };
        proof {
            lemma_skipgram_step_bounds(
                spec_key_of(t, st.skip_prev),
                spec_key_of(t, c),
                spec_key_of(t, st.epic_prev),
                command,
                big.0,
            );
            lemma_bump3_bound(ng1, (st.skip_prev, '_', c), 3 * i + 1);
            assert(stats@ == skip.0);
            assert(ngram_view(ngrams) == ng2);
        }
        let trigram = trigram_stats(&skip_previous_key, &previous_key, &key, command, &mut stats);
        let ghost tri = spec_trigram_step(
            spec_key_of(t, st.skip_prev),
            spec_key_of(t, st.prev),
            spec_key_of(t, c),
            command,
            skip.0,
        );
        if trigram {
            ngram_bump(&mut ngrams, (skip_previous_letter, previous_letter, c));
        }
        let ghost ng3 = if tri.1 {
            spec_bump3(ng2, (st.skip_prev, st.prev, c))
        } else {
            ng2
        };
        proof {
            lemma_trigram_step_bounds(
                spec_key_of(t, st.skip_prev),
                spec_key_of(t, st.prev),
                spec_key_of(t, c),
                command,
                skip.0,
            );
            lemma_bump3_bound(ng2, (st.skip_prev, st.prev, c), 3 * i + 2);
            assert(stats@ == tri.0);
            assert(ngram_view(ngrams) == ng3);
        }
        if key.hand != epic_previous_key.hand {
            epic_previous_letter = c;
            epic_previous_key = key;
        }
        skip_previous_letter = previous_letter;
        skip_previous_key = previous_key;
        previous_letter = c;
        previous_key = key;
        i = i + 1;
        proof {
            let st2 = spec_scan_n(pre@, t, command, i as int);
            assert(st2 == spec_scan_step(st, pre@[i - 1], t, command));
            assert(st2.stats == tri.0);
            assert(st2.ngrams == ng3);
            assert(st2.freq == spec_bump1(st.freq, pre@[i - 1]));
            assert(stats@ == st2.stats);
            assert(ngram_view(ngrams) == st2.ngrams);
            assert(freq_view(freq) == st2.freq);
        }
    }
    let corpus_fillers = count_char(&chars_vec, FILLER);
    let pre_fillers = count_char(&pre, FILLER);
    proof {
        lemma_count_char_le_len(chars_vec@, FILLER);
        lemma_count_char_le_len(pre@, FILLER);
    }
    stats.chars = stats.chars - ((pre_fillers as i64) - (corpus_fillers as i64));
    if !(include_thumb_alt || include_thumb_roll) {
        stats.chars = stats.chars - stats.thumb_stat;
    }
    proof {
        assert(-200000000 <= stats.chars <= 200000000);
    }
    let heat = compute_heatmap(&layout_letters, &freq);
    stats.heatmap = heat;
    let pen = compute_column_penalty(&layout_letters, &table, &freq, stats.chars);
    stats.column_pen = pen;
    stats.ngram_table = ngrams;
    let weighting = scoring_weights();
    let final_score = crate::accum::score(&stats, &weighting);
    stats.score = final_score;
    proof {
        assert(stats@ =~= spec_analyze(
            corpus@,
            layout_letters@,
            command,
            rules,
            include_thumb_alt,
            include_thumb_roll,
        ));
    }
    Ok(stats)
}

} // verus!
