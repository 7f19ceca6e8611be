use vstd::prelude::*;

use crate::keys::Finger;
use crate::keys::Key;
use crate::keys::max_freq_pct;
use crate::keys::spec_key_of;
use crate::keys::spec_max_freq_pct;
use crate::table::freq_get;
use crate::table::freq_view;
use crate::table::table_get;
use crate::table::table_view;
use ahash::AHashMap;

verus! {

/// Desirability weight of each of the 32 slots, used by the heatmap: a
/// slot's weight multiplies the observed frequency of the character it
/// holds.
pub open spec fn spec_slot_weight(i: int) -> int {
    if i == 0 || i == 9 {
        12
    } else if i == 1 || i == 8 {
        4
    } else if i == 2 || i == 7 {
        3
    } else if i == 3 || i == 6 {
        6
    } else if i == 4 || i == 5 {
        7
    } else if i == 10 || i == 19 {
        3
    } else if i == 11 || i == 18 {
        1
    } else if i == 14 || i == 15 {
        6
    } else if i == 20 || i == 22 || i == 27 || i == 29 {
        8
    } else if i == 21 || i == 24 || i == 25 || i == 28 {
        9
    } else if i == 23 || i == 26 {
        4
    } else {
        0
    }
}

/// The fixed per-slot desirability weight of the heatmap.
pub fn slot_weight(i: usize) -> (w: i64)
    requires
        i < 32,
    ensures
        w == spec_slot_weight(i as int),
        0 <= w <= 12,
{
    if i == 0 || i == 9 {
        12
    } else if i == 1 || i == 8 {
        4
    } else if i == 2 || i == 7 {
        3
    } else if i == 3 || i == 6 {
        6
    } else if i == 4 || i == 5 {
        7
    } else if i == 10 || i == 19 {
        3
    } else if i == 11 || i == 18 {
        1
    } else if i == 14 || i == 15 {
        6
    } else if i == 20 || i == 22 || i == 27 || i == 29 {
        8
    } else if i == 21 || i == 24 || i == 25 || i == 28 {
        9
    } else if i == 23 || i == 26 {
        4
    } else {
        0
    }
}

/// The heatmap total over the first `n` slots: each slot whose character
/// was observed contributes its weight times the character's frequency.
pub open spec fn spec_heatmap_n(layout: Seq<char>, freq: Map<char, u32>, n: int) -> int
    decreases n,
{
    if n <= 0 {
        0
    } else {
        spec_heatmap_n(layout, freq, n - 1) + (if freq.contains_key(layout[n - 1]) {
            spec_slot_weight(n - 1) * freq[layout[n - 1]]
        } else {
            0
        })
    }
}

/// The keystrokes observed, over the first `n` slots, on slots whose
/// character resolves to the given finger and hand.
pub open spec fn spec_column_count(
    layout: Seq<char>,
    table: Map<char, Key>,
    freq: Map<char, u32>,
    f: Finger,
    h: u8,
    n: int,
) -> int
    decreases n,
{
    if n <= 0 {
        0
    } else {
        let prev = spec_column_count(layout, table, freq, f, h, n - 1);
        let c = layout[n - 1];
        if freq.contains_key(c) && spec_key_of(table, c).finger == f && spec_key_of(table, c).hand
            == h {
            prev + freq[c]
        } else {
            prev
        }
    }
}

/// Overuse penalty of one finger-and-hand group: what the group's
/// observed keystrokes exceed its allowed share of the total by, in whole
/// keystrokes, and zero when within the allowance.
pub open spec fn spec_group_penalty(cnt: int, f: Finger, chars: int) -> int {
    let raw = 100 * cnt - spec_max_freq_pct(f) * chars;
    if raw > 0 {
        raw / 100
    } else {
        0
    }
}

/// The column penalty: the overuse penalties of the ten finger-and-hand
/// groups, summed.
pub open spec fn spec_column_penalty(
    layout: Seq<char>,
    table: Map<char, Key>,
    freq: Map<char, u32>,
    chars: int,
) -> int {
    spec_group_penalty(spec_column_count(layout, table, freq, Finger::Pinky, 0, 32), Finger::Pinky, chars)
        + spec_group_penalty(spec_column_count(layout, table, freq, Finger::Ring, 0, 32), Finger::Ring, chars)
        + spec_group_penalty(spec_column_count(layout, table, freq, Finger::Middle, 0, 32), Finger::Middle, chars)
        + spec_group_penalty(spec_column_count(layout, table, freq, Finger::Index, 0, 32), Finger::Index, chars)
        + spec_group_penalty(spec_column_count(layout, table, freq, Finger::Thumb, 0, 32), Finger::Thumb, chars)
        + spec_group_penalty(spec_column_count(layout, table, freq, Finger::Pinky, 1, 32), Finger::Pinky, chars)
        + spec_group_penalty(spec_column_count(layout, table, freq, Finger::Ring, 1, 32), Finger::Ring, chars)
        + spec_group_penalty(spec_column_count(layout, table, freq, Finger::Middle, 1, 32), Finger::Middle, chars)
        + spec_group_penalty(spec_column_count(layout, table, freq, Finger::Index, 1, 32), Finger::Index, chars)
        + spec_group_penalty(spec_column_count(layout, table, freq, Finger::Thumb, 1, 32), Finger::Thumb, chars)
}

/// Overuse penalty of one group of keystroke counts.
fn group_penalty(cnt: i64, f: Finger, chars: i64) -> (r: i64)
    requires
        0 <= cnt <= 3200000000i64,
        -200000000i64 <= chars <= 200000000i64,
    ensures
        r == spec_group_penalty(cnt as int, f, chars as int),
        0 <= r <= 3300000000i64,
{
    let mf = max_freq_pct(f);
    proof {
        assert(-5000000000i64 <= (mf as int) * (chars as int) <= 5000000000i64)
            by (nonlinear_arith)
            requires
                7 <= mf <= 25,
                -200000000i64 <= chars <= 200000000i64,
        ;
    }
    let raw: i64 = 100 * cnt - mf * chars;
    if raw > 0 {
        (((raw as u64) / 100) as i64)
    } else {
        0
    }
}

/// The heatmap total of an observed frequency map over the layout: each
/// slot holding an observed character contributes its desirability weight
/// times that character's frequency.
pub fn compute_heatmap(layout_letters: &[char; 32], freq: &AHashMap<char, u32>) -> (h: i64)
    requires
        forall|c: char| #[trigger]
            freq_view(*freq).contains_key(c) ==> freq_view(*freq)[c] <= 100000000,
    ensures
        h == spec_heatmap_n(layout_letters@, freq_view(*freq), 32),
        0 <= h <= 38400000000i64,
{
    let mut heat: i64 = 0;
    let mut i: usize = 0;
    while i < 32
        invariant
            i <= 32,
            heat == spec_heatmap_n(layout_letters@, freq_view(*freq), i as int),
            0 <= heat <= 1200000000i64 * i,
            forall|c: char| #[trigger]
                freq_view(*freq).contains_key(c) ==> freq_view(*freq)[c] <= 100000000,
        decreases 32 - i,
    {
        let c = layout_letters[i];
        match freq_get(freq, &c) {
            Some(v) => {
                let w = slot_weight(i);
                let v64: i64 = *v as i64;
                proof {
                    assert(0 <= (w as int) * (v64 as int) <= 1200000000i64) by (nonlinear_arith)
                        requires
                            0 <= w <= 12,
                            0 <= v64 <= 100000000i64,
                    ;
                }
                heat = heat + w * v64;
            },
            None => {},
        }
        i = i + 1;
    }
    heat
}

/// The column penalty of an observed frequency map: keystrokes are
/// grouped by the finger and hand of each slot character's resolved key,
/// and every group pays for what it exceeds its allowed share of the
/// total character count by.
pub fn compute_column_penalty(
    layout_letters: &[char; 32],
    table: &AHashMap<char, Key>,
    freq: &AHashMap<char, u32>,
    chars: i64,
) -> (p: i64)
    requires
        -200000000i64 <= chars <= 200000000i64,
        forall|c: char| #[trigger]
            freq_view(*freq).contains_key(c) ==> freq_view(*freq)[c] <= 100000000,
    ensures
        p == spec_column_penalty(layout_letters@, table_view(*table), freq_view(*freq), chars as int),
        0 <= p <= 33000000000i64,
{
    let mut cnt_lp: i64 = 0;
    let mut cnt_lr: i64 = 0;
    let mut cnt_lm: i64 = 0;
    let mut cnt_li: i64 = 0;
    let mut cnt_lt: i64 = 0;
    let mut cnt_rp: i64 = 0;
    let mut cnt_rr: i64 = 0;
    let mut cnt_rm: i64 = 0;
    let mut cnt_ri: i64 = 0;
    let mut cnt_rt: i64 = 0;
    let ghost lay = layout_letters@;
    let ghost t = table_view(*table);
    let ghost fq = freq_view(*freq);
    let mut i: usize = 0;
    while i < 32
        invariant
            i <= 32,
            lay == layout_letters@,
            t == table_view(*table),
            fq == freq_view(*freq),
            forall|c: char| #[trigger] fq.contains_key(c) ==> fq[c] <= 100000000,
            cnt_lp == spec_column_count(lay, t, fq, Finger::Pinky, 0, i as int),
            cnt_lr == spec_column_count(lay, t, fq, Finger::Ring, 0, i as int),
            cnt_lm == spec_column_count(lay, t, fq, Finger::Middle, 0, i as int),
            cnt_li == spec_column_count(lay, t, fq, Finger::Index, 0, i as int),
            cnt_lt == spec_column_count(lay, t, fq, Finger::Thumb, 0, i as int),
            cnt_rp == spec_column_count(lay, t, fq, Finger::Pinky, 1, i as int),
            cnt_rr == spec_column_count(lay, t, fq, Finger::Ring, 1, i as int),
            cnt_rm == spec_column_count(lay, t, fq, Finger::Middle, 1, i as int),
            cnt_ri == spec_column_count(lay, t, fq, Finger::Index, 1, i as int),
            cnt_rt == spec_column_count(lay, t, fq, Finger::Thumb, 1, i as int),
            0 <= cnt_lp <= 100000000i64 * i,
            0 <= cnt_lr <= 100000000i64 * i,
            0 <= cnt_lm <= 100000000i64 * i,
            0 <= cnt_li <= 100000000i64 * i,
            0 <= cnt_lt <= 100000000i64 * i,
            0 <= cnt_rp <= 100000000i64 * i,
            0 <= cnt_rr <= 100000000i64 * i,
            0 <= cnt_rm <= 100000000i64 * i,
            0 <= cnt_ri <= 100000000i64 * i,
            0 <= cnt_rt <= 100000000i64 * i,
        decreases 32 - i,
    {
        let c = layout_letters[i];
        match freq_get(freq, &c) {
            Some(v) => {
                let key: Key = match table_get(table, &c) {
                    Some(k) => *k,
                    None => crate::keys::sentinel_key(),
                };
                let v64: i64 = *v as i64;
                if key.hand == 0 {
                    match key.finger {
                        Finger::Pinky => { cnt_lp = cnt_lp + v64 },
                        Finger::Ring => { cnt_lr = cnt_lr + v64 },
                        Finger::Middle => { cnt_lm = cnt_lm + v64 },
                        Finger::Index => { cnt_li = cnt_li + v64 },
                        Finger::Thumb => { cnt_lt = cnt_lt + v64 },
                    }
                } else if key.hand == 1 {
                    match key.finger {
                        Finger::Pinky => { cnt_rp = cnt_rp + v64 },
                        Finger::Ring => { cnt_rr = cnt_rr + v64 },
                        Finger::Middle => { cnt_rm = cnt_rm + v64 },
                        Finger::Index => { cnt_ri = cnt_ri + v64 },
                        Finger::Thumb => { cnt_rt = cnt_rt + v64 },
                    }
                }
            },
            None => {},
        }
        i = i + 1;
    }
    let mut pen: i64 = 0;
    pen = pen + group_penalty(cnt_lp, Finger::Pinky, chars);
    pen = pen + group_penalty(cnt_lr, Finger::Ring, chars);
    pen = pen + group_penalty(cnt_lm, Finger::Middle, chars);
    pen = pen + group_penalty(cnt_li, Finger::Index, chars);
    pen = pen + group_penalty(cnt_lt, Finger::Thumb, chars);
    pen = pen + group_penalty(cnt_rp, Finger::Pinky, chars);
    pen = pen + group_penalty(cnt_rr, Finger::Ring, chars);
    pen = pen + group_penalty(cnt_rm, Finger::Middle, chars);
    pen = pen + group_penalty(cnt_ri, Finger::Index, chars);
    pen = pen + group_penalty(cnt_rt, Finger::Thumb, chars);
    pen
}

} // verus!
