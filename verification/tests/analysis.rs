use ahash::AHashMap;
use keymetrics::{
    analyze, bigram_stats, classify, layout_raw_to_table, ls, preprocess, replace_pair, scissor,
    score, scoring_weights, sf, slot_key, AnalyzeError, BigramKind, Finger, Key, Metric, Stats,
};

fn test_layout() -> [char; 32] {
    [
        'q', 'w', 'e', 'r', 't', 'y', 'u', 'i', 'o', 'p', 'a', 's', 'd', 'f', 'g', 'h', 'j', 'k',
        'l', ';', 'z', 'x', 'c', 'v', 'b', 'n', 'm', ',', '.', '\'', ' ', '-',
    ]
}

fn no_rules() -> AHashMap<char, char> {
    AHashMap::new()
}

fn key(hand: u8, finger: Finger, row: u8, lateral: bool) -> Key {
    Key { hand, finger, row, lateral }
}

#[test]
fn empty_corpus_all_zero() {
    let stats = analyze(
        String::new(),
        test_layout(),
        Metric::Unselected,
        &no_rules(),
        false,
        false,
    )
    .unwrap();
    assert_eq!(stats.chars, 0);
    assert_eq!(stats.sfb, 0);
    assert_eq!(stats.sfr, 0);
    assert_eq!(stats.sfs, 0);
    assert_eq!(stats.lsb, 0);
    assert_eq!(stats.lss, 0);
    assert_eq!(stats.hsb, 0);
    assert_eq!(stats.hss, 0);
    assert_eq!(stats.fsb, 0);
    assert_eq!(stats.fss, 0);
    assert_eq!(stats.inroll, 0);
    assert_eq!(stats.outroll, 0);
    assert_eq!(stats.inthreeroll, 0);
    assert_eq!(stats.outthreeroll, 0);
    assert_eq!(stats.alt, 0);
    assert_eq!(stats.red, 0);
    assert_eq!(stats.weak_red, 0);
    assert_eq!(stats.fspeed, 0);
    assert_eq!(stats.heatmap, 0);
    assert_eq!(stats.column_pen, 0);
    assert_eq!(stats.thumb_stat, 0);
    assert_eq!(stats.score, 0);
    assert!(stats.ngram_table.is_empty());
    assert!(stats.bad_bigrams.is_empty());
}

#[test]
fn repeated_pinky_home_key() {
    // `a` sits on the left pinky home key (slot 10). A rule pairing `a`
    // with `b` leaves the doubled `a` untouched by the preprocessor, so
    // the scanner sees the pair (a, a): one same-finger repeat costing
    // 2 x 66, recorded in the n-gram table under the requested category.
    let mut rules = AHashMap::new();
    rules.insert('a', 'b');
    let stats = analyze(
        String::from("aa"),
        test_layout(),
        Metric::Sfr,
        &rules,
        false,
        false,
    )
    .unwrap();
    assert_eq!(stats.chars, 2);
    assert_eq!(stats.sfr, 1);
    assert_eq!(stats.sfb, 0);
    assert_eq!(stats.fspeed, 132);
    assert_eq!(stats.bigrams, 2);
    assert_eq!(stats.skipgrams, 3);
    assert_eq!(stats.ngram_table.get(&('a', 'a', ' ')), Some(&1));
    assert_eq!(stats.heatmap, 2 * 3);
    // left pinky typed 2 of 2 characters: 100*2 - 7*2 = 186, floor /100.
    assert_eq!(stats.column_pen, 1);
    // (132/7)*(-200) + 0*(-500) + 1*(-10000)
    assert_eq!(stats.score, 18 * -200 + -10000);
}

#[test]
fn doubled_letter_without_rule_collapses_to_filler() {
    // With no rule for `a`, the preprocessor collapses `aa` to `a`
    // followed by the filler `*`; the filler is not in this layout, so
    // the scan fails on it as an unmapped character.
    let r = analyze(
        String::from("aa"),
        test_layout(),
        Metric::Unselected,
        &no_rules(),
        false,
        false,
    );
    assert_eq!(r.unwrap_err(), AnalyzeError::UnmappedChar('*'));
}

#[test]
fn introduced_filler_leaves_character_count() {
    // With the filler `*` given its own slot, a doubled letter becomes
    // (a, *). The filler keystroke is still resolved and classified, but
    // it does not score in the character count: two corpus characters
    // minus one introduced filler leave one.
    let mut layout = test_layout();
    layout[29] = '*';
    let stats = analyze(
        String::from("aa"),
        layout,
        Metric::Unselected,
        &no_rules(),
        false,
        false,
    )
    .unwrap();
    assert_eq!(stats.chars, 1);
    assert_eq!(stats.bigrams, 2);
    assert_eq!(stats.sfr, 0);
}

#[test]
fn unmapped_character_is_reported() {
    let r = analyze(
        String::from("aQa"),
        test_layout(),
        Metric::Unselected,
        &no_rules(),
        false,
        false,
    );
    assert_eq!(r.unwrap_err(), AnalyzeError::UnmappedChar('Q'));
}

#[test]
fn substitution_is_order_sensitive() {
    // Rules x -> y and y -> z. When `x` is processed first, "xyz"
    // becomes "x*z"; when `y` is processed first, "xyz" first becomes
    // "xy*" and the `x` rule then rewrites "xy" as well.
    let mut rules = AHashMap::new();
    rules.insert('x', 'y');
    rules.insert('y', 'z');
    let mut layout_x_first = test_layout();
    layout_x_first[0] = 'x';
    layout_x_first[1] = 'y';
    layout_x_first[2] = 'z';
    layout_x_first[21] = 'q';
    layout_x_first[25] = 'w';
    layout_x_first[26] = 'e';
    let mut layout_y_first = layout_x_first;
    layout_y_first[0] = 'y';
    layout_y_first[1] = 'x';
    let corpus: Vec<char> = vec!['x', 'y', 'z'];
    let out_x_first = preprocess(&corpus, &layout_x_first, &rules);
    let out_y_first = preprocess(&corpus, &layout_y_first, &rules);
    assert_eq!(out_x_first, vec!['x', '*', 'z']);
    assert_eq!(out_y_first, vec!['x', '*', '*']);
    assert_ne!(out_x_first, out_y_first);
}

#[test]
fn replace_pair_is_left_to_right_without_overlap() {
    let s: Vec<char> = vec!['a', 'a', 'a'];
    assert_eq!(replace_pair(&s, 'a', 'a'), vec!['a', '*', 'a']);
    let s4: Vec<char> = vec!['a', 'a', 'a', 'a'];
    assert_eq!(replace_pair(&s4, 'a', 'a'), vec!['a', '*', 'a', '*']);
}

#[test]
fn analysis_is_idempotent() {
    let corpus = "asdf jkl; maze, quartz";
    let mut layout = test_layout();
    layout[29] = '*';
    let rules = {
        let mut m = AHashMap::new();
        m.insert('q', 'u');
        m
    };
    let a = analyze(String::from(corpus), layout, Metric::Sfb, &rules, false, false).unwrap();
    let b = analyze(String::from(corpus), layout, Metric::Sfb, &rules, false, false).unwrap();
    assert_eq!(a.chars, b.chars);
    assert_eq!(a.fspeed, b.fspeed);
    assert_eq!(a.heatmap, b.heatmap);
    assert_eq!(a.column_pen, b.column_pen);
    assert_eq!(a.score, b.score);
    assert_eq!(a.sfb, b.sfb);
    assert_eq!(a.sfr, b.sfr);
    assert_eq!(a.sfs, b.sfs);
    assert_eq!(a.lsb, b.lsb);
    assert_eq!(a.lss, b.lss);
    assert_eq!(a.hsb, b.hsb);
    assert_eq!(a.hss, b.hss);
    assert_eq!(a.fsb, b.fsb);
    assert_eq!(a.fss, b.fss);
    assert_eq!(a.inroll, b.inroll);
    assert_eq!(a.outroll, b.outroll);
    assert_eq!(a.inthreeroll, b.inthreeroll);
    assert_eq!(a.outthreeroll, b.outthreeroll);
    assert_eq!(a.alt, b.alt);
    assert_eq!(a.red, b.red);
    assert_eq!(a.weak_red, b.weak_red);
    assert_eq!(a.thumb_stat, b.thumb_stat);
    assert_eq!(a.bigrams, b.bigrams);
    assert_eq!(a.skipgrams, b.skipgrams);
    assert_eq!(a.ngram_table, b.ngram_table);
    assert_eq!(a.bad_bigrams, b.bad_bigrams);
}

#[test]
fn duplicate_layout_character_keeps_later_slot() {
    let mut layout = test_layout();
    layout[0] = 'a';
    // `a` now sits in slot 0 (left pinky, top row) and slot 10 (left
    // pinky, home row): the table keeps only the later slot's key.
    let table = layout_raw_to_table(&layout);
    assert_eq!(
        table.get(&'a'),
        Some(&key(0, Finger::Pinky, 1, false))
    );
    assert_eq!(table.len(), 31);
}

#[test]
fn table_matches_slot_geometry() {
    let table = layout_raw_to_table(&test_layout());
    assert_eq!(table.get(&'q'), Some(&key(0, Finger::Pinky, 0, false)));
    assert_eq!(table.get(&'t'), Some(&key(0, Finger::Index, 0, true)));
    assert_eq!(table.get(&'y'), Some(&key(1, Finger::Index, 0, true)));
    assert_eq!(table.get(&'p'), Some(&key(1, Finger::Pinky, 0, false)));
    assert_eq!(table.get(&'g'), Some(&key(0, Finger::Index, 1, true)));
    assert_eq!(table.get(&'.'), Some(&key(1, Finger::Ring, 2, false)));
    assert_eq!(table.get(&' '), Some(&key(0, Finger::Thumb, 3, false)));
    assert_eq!(table.get(&'-'), Some(&key(1, Finger::Thumb, 3, false)));
    for i in 0..32 {
        assert_eq!(table.get(&test_layout()[i]), Some(&slot_key(i)));
    }
}

#[test]
fn repeat_is_never_same_finger_bigram() {
    let k = key(0, Finger::Pinky, 1, false);
    assert!(!sf(&k, &k));
    let mut stats = Stats::default();
    let r = bigram_stats(&k, &k, Metric::Sfr, &mut stats);
    assert_eq!(stats.sfr, 1);
    assert_eq!(stats.sfb, 0);
    assert_eq!(stats.fspeed, 132);
    assert_eq!(r, (true, true, 132));
}

#[test]
fn same_finger_travel_cost() {
    // Same finger, two rows apart, same laterality: distance 2, cost
    // 5 x 66 x 2.
    let top = key(0, Finger::Pinky, 0, false);
    let bottom = key(0, Finger::Pinky, 2, false);
    let mut stats = Stats::default();
    let r = bigram_stats(&top, &bottom, Metric::Sfb, &mut stats);
    assert_eq!(stats.sfb, 1);
    assert_eq!(stats.fspeed, 660);
    assert_eq!(r, (true, true, 660));
    // Same finger, one row apart, crossing into the stretched column:
    // the rounded diagonal of one row is still 1, cost 5 x 18 x 1.
    let home = key(0, Finger::Index, 1, false);
    let stretched = key(0, Finger::Index, 0, true);
    let mut stats2 = Stats::default();
    let r2 = bigram_stats(&home, &stretched, Metric::Unselected, &mut stats2);
    assert_eq!(stats2.sfb, 1);
    assert_eq!(stats2.fspeed, 90);
    assert_eq!(r2, (false, true, 90));
}

#[test]
fn stretch_and_scissor_are_mutually_exclusive() {
    // Index in the stretched column against middle one row apart: both
    // the lateral-stretch and the half-scissor conditions hold of the
    // pair, but only the higher-priority lateral stretch fires.
    let stretched = key(0, Finger::Index, 1, true);
    let middle = key(0, Finger::Middle, 0, false);
    assert!(ls(&stretched, &middle));
    assert_eq!(scissor(&stretched, &middle), 1);
    assert_eq!(classify(&stretched, &middle), BigramKind::LateralStretch);
    let mut stats = Stats::default();
    bigram_stats(&stretched, &middle, Metric::Unselected, &mut stats);
    assert_eq!(stats.lsb, 1);
    assert_eq!(stats.hsb, 0);
    assert_eq!(stats.fsb, 0);
}

#[test]
fn scissor_severity_tiers() {
    let pinky_top = key(0, Finger::Pinky, 0, false);
    let ring_bottom = key(0, Finger::Ring, 2, false);
    let ring_middle = key(0, Finger::Ring, 1, false);
    assert_eq!(scissor(&pinky_top, &ring_bottom), 2);
    assert_eq!(scissor(&pinky_top, &ring_middle), 1);
    assert_eq!(classify(&pinky_top, &ring_bottom), BigramKind::FullScissor);
    assert_eq!(classify(&pinky_top, &ring_middle), BigramKind::HalfScissor);
    let mut stats = Stats::default();
    bigram_stats(&pinky_top, &ring_bottom, Metric::Fsb, &mut stats);
    assert_eq!(stats.fsb, 1);
    assert_eq!(stats.hsb, 0);
    assert_eq!(stats.lsb, 0);
}

#[test]
fn rolls_and_redirects() {
    // "asd" runs pinky-ring-middle on the left hand: an inward
    // three-key roll, with the two-key window (a, s) rolling inward too.
    let stats = analyze(
        String::from("asd"),
        test_layout(),
        Metric::Unselected,
        &no_rules(),
        false,
        false,
    )
    .unwrap();
    assert_eq!(stats.inthreeroll, 1);
    assert_eq!(stats.inroll, 1);
    assert_eq!(stats.outroll, 0);
    assert_eq!(stats.alt, 0);
    // "ada" reverses direction without the index finger: a weak redirect.
    let weak = analyze(
        String::from("ada"),
        test_layout(),
        Metric::Unselected,
        &no_rules(),
        false,
        false,
    )
    .unwrap();
    assert_eq!(weak.weak_red, 1);
    assert_eq!(weak.red, 0);
    // "afa" reverses direction over the index finger: a plain redirect.
    let strong = analyze(
        String::from("afa"),
        test_layout(),
        Metric::Unselected,
        &no_rules(),
        false,
        false,
    )
    .unwrap();
    assert_eq!(strong.red, 1);
    assert_eq!(strong.weak_red, 0);
}

#[test]
fn thumb_alternation_leaves_character_count() {
    // "j j" alternates right-left-right through the left thumb's space
    // key: one thumb-involved alternation. With both thumb-credit flags
    // off the thumb event leaves the character count.
    let excluded = analyze(
        String::from("j j"),
        test_layout(),
        Metric::Unselected,
        &no_rules(),
        false,
        false,
    )
    .unwrap();
    assert_eq!(excluded.alt, 1);
    assert_eq!(excluded.thumb_stat, 1);
    assert_eq!(excluded.chars, 2);
    let credited = analyze(
        String::from("j j"),
        test_layout(),
        Metric::Unselected,
        &no_rules(),
        true,
        false,
    )
    .unwrap();
    assert_eq!(credited.alt, 1);
    assert_eq!(credited.chars, 3);
}

#[test]
fn score_weights_each_field() {
    let weights = scoring_weights();
    let mut stats = Stats::default();
    stats.fspeed = 70;
    stats.heatmap = 300;
    stats.column_pen = 2;
    stats.lsb = 1;
    stats.lss = 1;
    stats.fsb = 1;
    stats.hsb = 1;
    stats.hss = 1;
    stats.fss = 1;
    stats.inroll = 3;
    stats.inthreeroll = 1;
    stats.outroll = 2;
    stats.alt = 5;
    stats.outthreeroll = 1;
    stats.weak_red = 1;
    stats.red = 2;
    let expected = (70 / 7) * -200
        + (300 / 100) * -500
        + 2 * -10000
        + 1 * -200
        + 1 * -40
        + 1 * -500
        + 1 * -100
        + 1 * -20
        + 1 * -100
        + 3 * 100
        + 1 * 320
        + 2 * 40
        + 5 * 0
        + 1 * 160
        + 1 * -2000
        + 2 * -300;
    assert_eq!(score(&stats, &weights), expected);
}

#[test]
fn anchor_branch_counts_same_finger_skipgram() {
    // "qju": the opposite-hand anchor advances to `j` when the hand
    // changes, so at the final step the anchor (`j`) differs from the
    // two-back cursor (`q`). The distance-2 pair (q, u) crosses hands and
    // matches nothing; only the anchor pair (j, u) — same hand, same
    // finger, different key — produces the same-finger skipgram, with no
    // travel-cost contribution of its own.
    let stats = analyze(
        String::from("qju"),
        test_layout(),
        Metric::Sfs,
        &no_rules(),
        false,
        false,
    )
    .unwrap();
    assert_eq!(stats.sfs, 1);
    assert_eq!(stats.sfb, 1);
    assert_eq!(stats.fspeed, 90);
    assert_eq!(stats.ngram_table.get(&('q', '_', 'u')), Some(&1));
}

#[test]
fn skipgram_counts_distance_two_pair() {
    // "qja" puts the left pinky on both ends of the window with an
    // opposite-hand keystroke between: one same-finger skipgram over the
    // gap, with travel cost 66 x 1 and no adjacent-pair cost.
    let stats = analyze(
        String::from("qja"),
        test_layout(),
        Metric::Sfs,
        &no_rules(),
        false,
        false,
    )
    .unwrap();
    assert_eq!(stats.sfs, 1);
    assert_eq!(stats.fspeed, 66);
    assert_eq!(stats.sfb, 0);
    assert_eq!(stats.ngram_table.get(&('q', '_', 'a')), Some(&1));
}
