use vstd::prelude::*;

mod accum;
mod bigram;
mod classify;
mod keys;
mod laws;
mod preprocess;
mod reduce;
mod scan;
mod table;
mod trigram;

pub use accum::score;
pub use accum::Stats;
pub use accum::StatsModel;
pub use bigram::bigram_stats;
pub use bigram::skipgram_stats;
pub use classify::classify;
pub use classify::ls;
pub use classify::scissor;
pub use classify::sf;
pub use classify::BigramKind;
pub use classify::Metric;
pub use keys::finger_weight;
pub use keys::max_freq_pct;
pub use keys::sentinel_key;
pub use keys::slot_key;
pub use keys::Finger;
pub use keys::Key;
pub use keys::SENTINEL;
pub use laws::lemma_analysis_idempotent;
pub use laws::lemma_chars_counted;
pub use laws::lemma_duplicate_keeps_later;
pub use laws::lemma_repeat_not_same_finger;
pub use laws::lemma_stretch_scissor_exclusive;
pub use preprocess::count_char;
pub use preprocess::preprocess;
pub use preprocess::replace_pair;
pub use preprocess::FILLER;
pub use reduce::compute_column_penalty;
pub use reduce::compute_heatmap;
pub use reduce::slot_weight;
pub use scan::analyze;
pub use scan::layout_raw_to_table;
pub use scan::scoring_weights;
pub use scan::AnalyzeError;
pub use scan::ScanState;
pub use trigram::finger_rank;
pub use trigram::trigram_stats;
pub use accum::spec_grows_within;
pub use accum::spec_measured_within;
pub use accum::spec_score;
pub use accum::spec_stats_zero;
pub use accum::spec_weights_within;
pub use bigram::spec_bigram_step;
pub use bigram::spec_epic_pair;
pub use bigram::spec_skip_pair;
pub use bigram::spec_skipgram_step;
pub use bigram::spec_travel;
pub use classify::spec_classify;
pub use classify::spec_inner;
pub use classify::spec_ls;
pub use classify::spec_outer;
pub use classify::spec_scissor;
pub use classify::spec_sf;
pub use keys::spec_column_finger;
pub use keys::spec_finger_weight;
pub use keys::spec_is_real;
pub use keys::spec_key_of;
pub use keys::spec_max_freq_pct;
pub use keys::spec_resolvable;
pub use keys::spec_sentinel_key;
pub use keys::spec_slot_key;
pub use preprocess::spec_apply_rules;
pub use preprocess::spec_count_char;
pub use preprocess::spec_preprocess;
pub use preprocess::spec_replace_pair;
pub use reduce::spec_column_count;
pub use reduce::spec_column_penalty;
pub use reduce::spec_group_penalty;
pub use reduce::spec_heatmap_n;
pub use reduce::spec_slot_weight;
pub use scan::spec_all_resolvable;
pub use scan::spec_analyze;
pub use scan::spec_first_fault;
pub use scan::spec_layout_table;
pub use scan::spec_layout_table_n;
pub use scan::spec_scan_init;
pub use scan::spec_scan_n;
pub use scan::spec_scan_step;
pub use scan::spec_weights;
pub use table::freq_view;
pub use table::ngram_view;
pub use table::rules_view;
pub use table::spec_bump1;
pub use table::spec_bump3;
pub use table::table_view;
pub use trigram::spec_finger_rank;
pub use trigram::spec_trigram_step;
pub use trigram::spec_two_roll;
