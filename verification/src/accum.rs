use vstd::prelude::*;

use crate::table::ngram_empty;
use crate::table::ngram_new;
use crate::table::ngram_view;
use ahash::AHashMap;

verus! {

/// The accumulator of one analysis run: the total character count, one
/// event counter per bigram, skipgram and trigram category, the
/// finger-travel cost (`fspeed`), the heatmap total, the column-overuse
/// penalty, the final score, the n-gram frequency table, and a reserved
/// table for flagged bad bigrams. A second `Stats` value whose numeric
/// fields are read as per-category weights serves as the scorer's weight
/// vector.
#[derive(Debug)]
pub struct Stats {
    pub score: i64,
    pub heatmap: i64,
    pub column_pen: i64,
    pub fspeed: i64,
    pub sfb: i64,
    pub sfr: i64,
    pub sfs: i64,
    pub fsb: i64,
    pub hsb: i64,
    pub hss: i64,
    pub fss: i64,
    pub lsb: i64,
    pub lss: i64,
    pub inroll: i64,
    pub outroll: i64,
    pub alt: i64,
    pub inthreeroll: i64,
    pub outthreeroll: i64,
    pub weak_red: i64,
    pub red: i64,
    pub thumb_stat: i64,
    pub chars: i64,
    pub bigrams: i64,
    pub skipgrams: i64,
    pub ngram_table: AHashMap<(char, char, char), u32>,
    pub bad_bigrams: AHashMap<(char, char, char), u32>,
}

/// The mathematical model of an accumulator: every counter as an
/// unbounded integer, and the two tables as maps.
#[verifier::ext_equal]
pub ghost struct StatsModel {
    pub score: int,
    pub heatmap: int,
    pub column_pen: int,
    pub fspeed: int,
    pub sfb: int,
    pub sfr: int,
    pub sfs: int,
    pub fsb: int,
    pub hsb: int,
    pub hss: int,
    pub fss: int,
    pub lsb: int,
    pub lss: int,
    pub inroll: int,
    pub outroll: int,
    pub alt: int,
    pub inthreeroll: int,
    pub outthreeroll: int,
    pub weak_red: int,
    pub red: int,
    pub thumb_stat: int,
    pub chars: int,
    pub bigrams: int,
    pub skipgrams: int,
    pub ngram_table: Map<(char, char, char), u32>,
    pub bad_bigrams: Map<(char, char, char), u32>,
}

impl View for Stats {
    type V = StatsModel;

    open spec fn view(&self) -> StatsModel {
        StatsModel {
            score: self.score as int,
            heatmap: self.heatmap as int,
            column_pen: self.column_pen as int,
            fspeed: self.fspeed as int,
            sfb: self.sfb as int,
            sfr: self.sfr as int,
            sfs: self.sfs as int,
            fsb: self.fsb as int,
            hsb: self.hsb as int,
            hss: self.hss as int,
            fss: self.fss as int,
            lsb: self.lsb as int,
            lss: self.lss as int,
            inroll: self.inroll as int,
            outroll: self.outroll as int,
            alt: self.alt as int,
            inthreeroll: self.inthreeroll as int,
            outthreeroll: self.outthreeroll as int,
            weak_red: self.weak_red as int,
            red: self.red as int,
            thumb_stat: self.thumb_stat as int,
            chars: self.chars as int,
            bigrams: self.bigrams as int,
            skipgrams: self.skipgrams as int,
            ngram_table: ngram_view(self.ngram_table),
            bad_bigrams: ngram_view(self.bad_bigrams),
        }
    }
}

/// The accumulator of a run that has seen nothing: every counter zero and
/// both tables empty.
pub open spec fn spec_stats_zero() -> StatsModel {
    StatsModel {
        score: 0,
        heatmap: 0,
        column_pen: 0,
        fspeed: 0,
        sfb: 0,
        sfr: 0,
        sfs: 0,
        fsb: 0,
        hsb: 0,
        hss: 0,
        fss: 0,
        lsb: 0,
        lss: 0,
        inroll: 0,
        outroll: 0,
        alt: 0,
        inthreeroll: 0,
        outthreeroll: 0,
        weak_red: 0,
        red: 0,
        thumb_stat: 0,
        chars: 0,
        bigrams: 0,
        skipgrams: 0,
        ngram_table: ngram_empty(),
        bad_bigrams: ngram_empty(),
    }
}

impl Default for Stats {
    /// A fresh accumulator: every counter zero and both tables empty.
    fn default() -> (s: Stats)
        ensures
            s@ == spec_stats_zero(),
    {
        Stats {
            score: 0,
            heatmap: 0,
            column_pen: 0,
            fspeed: 0,
            sfb: 0,
            sfr: 0,
            sfs: 0,
            fsb: 0,
            hsb: 0,
            hss: 0,
            fss: 0,
            lsb: 0,
            lss: 0,
            inroll: 0,
            outroll: 0,
            alt: 0,
            inthreeroll: 0,
            outthreeroll: 0,
            weak_red: 0,
            red: 0,
            thumb_stat: 0,
            chars: 0,
            bigrams: 0,
            skipgrams: 0,
            ngram_table: ngram_new(),
            bad_bigrams: ngram_new(),
        }
    }
}

/// Every measured counter of the accumulator is non-negative and at most
/// the given bound; the character count, which the filler and thumb
/// exclusions may drive below zero, is only bounded in magnitude. The
/// score field is not a counter and is not bounded here.
pub open spec fn spec_measured_within(s: StatsModel, b: int) -> bool {
    &&& 0 <= s.heatmap <= b
    &&& 0 <= s.column_pen <= b
    &&& 0 <= s.fspeed <= b
    &&& 0 <= s.sfb <= b
    &&& 0 <= s.sfr <= b
    &&& 0 <= s.sfs <= b
    &&& 0 <= s.fsb <= b
    &&& 0 <= s.hsb <= b
    &&& 0 <= s.hss <= b
    &&& 0 <= s.fss <= b
    &&& 0 <= s.lsb <= b
    &&& 0 <= s.lss <= b
    &&& 0 <= s.inroll <= b
    &&& 0 <= s.outroll <= b
    &&& 0 <= s.alt <= b
    &&& 0 <= s.inthreeroll <= b
    &&& 0 <= s.outthreeroll <= b
    &&& 0 <= s.weak_red <= b
    &&& 0 <= s.red <= b
    &&& 0 <= s.thumb_stat <= b
    &&& -b <= s.chars <= b
    &&& 0 <= s.bigrams <= b
    &&& 0 <= s.skipgrams <= b
}

/// Between two accumulator states, no measured counter shrinks and none
/// grows by more than the given budget; the score and the tables are not
/// constrained.
pub open spec fn spec_grows_within(a: StatsModel, b: StatsModel, g: int) -> bool {
    &&& a.heatmap <= b.heatmap <= a.heatmap + g
    &&& a.column_pen <= b.column_pen <= a.column_pen + g
    &&& a.fspeed <= b.fspeed <= a.fspeed + g
    &&& a.sfb <= b.sfb <= a.sfb + g
    &&& a.sfr <= b.sfr <= a.sfr + g
    &&& a.sfs <= b.sfs <= a.sfs + g
    &&& a.fsb <= b.fsb <= a.fsb + g
    &&& a.hsb <= b.hsb <= a.hsb + g
    &&& a.hss <= b.hss <= a.hss + g
    &&& a.fss <= b.fss <= a.fss + g
    &&& a.lsb <= b.lsb <= a.lsb + g
    &&& a.lss <= b.lss <= a.lss + g
    &&& a.inroll <= b.inroll <= a.inroll + g
    &&& a.outroll <= b.outroll <= a.outroll + g
    &&& a.alt <= b.alt <= a.alt + g
    &&& a.inthreeroll <= b.inthreeroll <= a.inthreeroll + g
    &&& a.outthreeroll <= b.outthreeroll <= a.outthreeroll + g
    &&& a.weak_red <= b.weak_red <= a.weak_red + g
    &&& a.red <= b.red <= a.red + g
    &&& a.thumb_stat <= b.thumb_stat <= a.thumb_stat + g
    &&& a.chars <= b.chars <= a.chars + g
    &&& a.bigrams <= b.bigrams <= a.bigrams + g
    &&& a.skipgrams <= b.skipgrams <= a.skipgrams + g
}

/// Every weight of a weight vector lies within the given magnitude.
pub open spec fn spec_weights_within(w: StatsModel, b: int) -> bool {
    &&& -b <= w.heatmap <= b
    &&& -b <= w.column_pen <= b
    &&& -b <= w.fspeed <= b
    &&& -b <= w.fsb <= b
    &&& -b <= w.hsb <= b
    &&& -b <= w.hss <= b
    &&& -b <= w.fss <= b
    &&& -b <= w.lsb <= b
    &&& -b <= w.lss <= b
    &&& -b <= w.inroll <= b
    &&& -b <= w.outroll <= b
    &&& -b <= w.alt <= b
    &&& -b <= w.inthreeroll <= b
    &&& -b <= w.outthreeroll <= b
    &&& -b <= w.weak_red <= b
    &&& -b <= w.red <= b
}

/// The score of an accumulator under a weight vector: the travel cost is
/// first normalized by 7 and the heatmap by 100, then every category
/// counter is multiplied by its weight and the products are summed.
pub open spec fn spec_score(s: StatsModel, w: StatsModel) -> int {
    (s.fspeed / 7) * w.fspeed + (s.heatmap / 100) * w.heatmap + s.column_pen * w.column_pen
        + s.lsb * w.lsb + s.lss * w.lss + s.fsb * w.fsb + s.hsb * w.hsb + s.hss * w.hss + s.fss
        * w.fss + s.inroll * w.inroll + s.inthreeroll * w.inthreeroll + s.outroll * w.outroll
        + s.alt * w.alt + s.outthreeroll * w.outthreeroll + s.weak_red * w.weak_red + s.red * w.red
}

/// One weighted term of the score: a non-negative measured value times a
/// bounded weight.
fn mul_term(a: i64, b: i64) -> (r: i64)
    requires
        0 <= a <= 40000000000000i64,
        -10000 <= b <= 10000,
    ensures
        r == a * b,
        -400000000000000000 <= r <= 400000000000000000,
{
    proof {
        assert((a as int) * (b as int) <= 400000000000000000 && (a as int) * (b as int)
            >= -400000000000000000) by (nonlinear_arith)
            requires
                0 <= a <= 40000000000000i64,
                -10000 <= b <= 10000,
        ;
    }
    a * b
}

/// The weighted linear score of the measured accumulator under the given
/// weight vector: travel cost divided by 7 and heatmap by 100 before
/// weighting, every other category counter multiplied directly by its
/// weight, and the products summed.
pub fn score(stats: &Stats, weighting: &Stats) -> (r: i64)
    requires
        spec_measured_within(stats@, 40000000000000),
        spec_weights_within(weighting@, 10000),
    ensures
        r == spec_score(stats@, weighting@),
{
    let fspeed_norm: i64 = ((stats.fspeed as u64) / 7) as i64;
    let heatmap_norm: i64 = ((stats.heatmap as u64) / 100) as i64;
    let mut total: i64 = 0;
    total += mul_term(fspeed_norm, weighting.fspeed);
    total += mul_term(heatmap_norm, weighting.heatmap);
    total += mul_term(stats.column_pen, weighting.column_pen);
    total += mul_term(stats.lsb, weighting.lsb);
    total += mul_term(stats.lss, weighting.lss);
    total += mul_term(stats.fsb, weighting.fsb);
    total += mul_term(stats.hsb, weighting.hsb);
    total += mul_term(stats.hss, weighting.hss);
    total += mul_term(stats.fss, weighting.fss);
    total += mul_term(stats.inroll, weighting.inroll);
    total += mul_term(stats.inthreeroll, weighting.inthreeroll);
    total += mul_term(stats.outroll, weighting.outroll);
    total += mul_term(stats.alt, weighting.alt);
    total += mul_term(stats.outthreeroll, weighting.outthreeroll);
    total += mul_term(stats.weak_red, weighting.weak_red);
    total += mul_term(stats.red, weighting.red);
    total
}

} // verus!
