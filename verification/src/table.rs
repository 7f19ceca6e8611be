use vstd::prelude::*;

use crate::keys::Key;
use ahash::AHashMap;

verus! {

#[verifier::external_type_specification]
#[verifier::external_body]
#[verifier::reject_recursive_types(K)]
#[verifier::reject_recursive_types(V)]
#[verifier::reject_recursive_types(S)]
pub struct ExAHashMap<K, V, S>(AHashMap<K, V, S>);

#[verifier::external_type_specification]
#[verifier::external_body]
pub struct ExAHashRandomState(ahash::RandomState);

/// The character-to-key entries that a layout table holds.
pub uninterp spec fn table_view(m: AHashMap<char, Key>) -> Map<char, Key>;

/// The digraph rules that a rule map holds: key character to paired
/// character.
pub uninterp spec fn rules_view(m: AHashMap<char, char>) -> Map<char, char>;

/// The per-character occurrence counts that a frequency map holds.
pub uninterp spec fn freq_view(m: AHashMap<char, u32>) -> Map<char, u32>;

/// The occurrence counts that an n-gram frequency table holds, keyed by an
/// ordered three-character tuple.
pub uninterp spec fn ngram_view(m: AHashMap<(char, char, char), u32>) -> Map<
    (char, char, char),
    u32,
>;

/// The empty layout table contents.
pub open spec fn table_empty() -> Map<char, Key> {
    Map::empty()
}

/// The empty frequency map contents.
pub open spec fn freq_empty() -> Map<char, u32> {
    Map::empty()
}

/// The empty n-gram table contents.
pub open spec fn ngram_empty() -> Map<(char, char, char), u32> {
    Map::empty()
}

/// Relies on ahash::AHashMap::new: the fresh map holds no entry.
#[verifier::external_body]
pub(crate) fn table_new() -> (m: AHashMap<char, Key>)
    ensures
        table_view(m) == table_empty(),
{
    AHashMap::new()
}

/// Relies on ahash::AHashMap::insert: the entry for the key is set to the
/// value and every other entry is kept.
#[verifier::external_body]
pub(crate) fn table_insert(m: &mut AHashMap<char, Key>, c: char, k: Key)
    ensures
        table_view(*final(m)) == table_view(*old(m)).insert(c, k),
{
    m.insert(c, k);
}

/// Relies on ahash::AHashMap::get: returns the mapped value exactly when
/// the key has an entry.
#[verifier::external_body]
pub(crate) fn table_get<'a>(m: &'a AHashMap<char, Key>, c: &char) -> (r: Option<&'a Key>)
    ensures
        match r {
            Some(k) => table_view(*m).contains_key(*c) && *k == table_view(*m)[*c],
            None => !table_view(*m).contains_key(*c),
        },
{
    m.get(c)
}

/// Relies on ahash::AHashMap::get: returns the paired character exactly
/// when the key character has a digraph rule.
#[verifier::external_body]
pub(crate) fn rules_get<'a>(m: &'a AHashMap<char, char>, c: &char) -> (r: Option<&'a char>)
    ensures
        match r {
            Some(p) => rules_view(*m).contains_key(*c) && *p == rules_view(*m)[*c],
            None => !rules_view(*m).contains_key(*c),
        },
{
    m.get(c)
}

/// Relies on ahash::AHashMap::new: the fresh map holds no entry.
#[verifier::external_body]
pub(crate) fn freq_new() -> (m: AHashMap<char, u32>)
    ensures
        freq_view(m) == freq_empty(),
{
    AHashMap::new()
}

/// Relies on ahash::AHashMap::insert: the entry for the key is set to the
/// value and every other entry is kept.
#[verifier::external_body]
pub(crate) fn freq_insert(m: &mut AHashMap<char, u32>, c: char, v: u32)
    ensures
        freq_view(*final(m)) == freq_view(*old(m)).insert(c, v),
{
    m.insert(c, v);
}

/// Relies on ahash::AHashMap::get: returns the mapped count exactly when
/// the character has an entry.
#[verifier::external_body]
pub(crate) fn freq_get<'a>(m: &'a AHashMap<char, u32>, c: &char) -> (r: Option<&'a u32>)
    ensures
        match r {
            Some(v) => freq_view(*m).contains_key(*c) && *v == freq_view(*m)[*c],
            None => !freq_view(*m).contains_key(*c),
        },
{
    m.get(c)
}

/// Relies on ahash::AHashMap::new: the fresh map holds no entry.
#[verifier::external_body]
pub(crate) fn ngram_new() -> (m: AHashMap<(char, char, char), u32>)
    ensures
        ngram_view(m) == ngram_empty(),
{
    AHashMap::new()
}

/// Relies on ahash::AHashMap::insert: the entry for the key is set to the
/// value and every other entry is kept.
#[verifier::external_body]
pub(crate) fn ngram_insert(m: &mut AHashMap<(char, char, char), u32>, k: (char, char, char), v: u32)
    ensures
        ngram_view(*final(m)) == ngram_view(*old(m)).insert(k, v),
{
    m.insert(k, v);
}

/// Relies on ahash::AHashMap::get: returns the mapped count exactly when
/// the tuple has an entry.
#[verifier::external_body]
pub(crate) fn ngram_get<'a>(m: &'a AHashMap<(char, char, char), u32>, k: &(char, char, char)) -> (r:
    Option<&'a u32>)
    ensures
        match r {
            Some(v) => ngram_view(*m).contains_key(*k) && *v == ngram_view(*m)[*k],
            None => !ngram_view(*m).contains_key(*k),
        },
{
    m.get(k)
}

/// A map bump at a key: the entry rises by one, from zero for a missing
/// key; every other entry is kept.
pub open spec fn spec_bump3(m: Map<(char, char, char), u32>, k: (char, char, char)) -> Map<
    (char, char, char),
    u32,
> {
    if m.contains_key(k) {
        m.insert(k, (m[k] + 1) as u32)
    } else {
        m.insert(k, 1u32)
    }
}

/// Insert-or-increment on an n-gram table, the verified step that the
/// scanner uses to record one observed n-gram.
pub(crate) fn ngram_bump(m: &mut AHashMap<(char, char, char), u32>, k: (char, char, char))
    requires
        ngram_view(*old(m)).contains_key(k) ==> ngram_view(*old(m))[k] < u32::MAX,
    ensures
        ngram_view(*final(m)) == spec_bump3(ngram_view(*old(m)), k),
{
    let cur = match ngram_get(m, &k) {
        Some(v) => *v,
        None => 0,
    };
    ngram_insert(m, k, cur + 1);
}

/// A frequency bump at a character: the count rises by one, from zero for
/// a missing character; every other count is kept.
pub open spec fn spec_bump1(m: Map<char, u32>, c: char) -> Map<char, u32> {
    if m.contains_key(c) {
        m.insert(c, (m[c] + 1) as u32)
    } else {
        m.insert(c, 1u32)
    }
}

/// Insert-or-increment on a character frequency map.
pub(crate) fn freq_bump(m: &mut AHashMap<char, u32>, c: char)
    requires
        freq_view(*old(m)).contains_key(c) ==> freq_view(*old(m))[c] < u32::MAX,
    ensures
        freq_view(*final(m)) == spec_bump1(freq_view(*old(m)), c),
{
    let cur = match freq_get(m, &c) {
        Some(v) => *v,
        None => 0,
    };
    freq_insert(m, c, cur + 1);
}

} // verus!
