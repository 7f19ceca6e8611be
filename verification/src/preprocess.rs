use vstd::prelude::*;

use crate::table::rules_get;
use crate::table::rules_view;
use ahash::AHashMap;

verus! {

/// The filler character that stands, in the rewritten corpus, for the
/// second character of a collapsed digraph.
pub const FILLER: char = '*';

/// The text after replacing every occurrence of the two-character pattern
/// `a` then `b` by `a` then the filler, scanning left to right without
/// overlap. The replacement keeps the length of the text.
pub open spec fn spec_replace_pair(s: Seq<char>, a: char, b: char) -> Seq<char>
    decreases s.len(),
{
    if s.len() == 0 {
        Seq::empty()
    } else if s.len() >= 2 && s[0] == a && s[1] == b {
        seq![a, FILLER] + spec_replace_pair(s.subrange(2, s.len() as int), a, b)
    } else {
        seq![s[0]] + spec_replace_pair(s.subrange(1, s.len() as int), a, b)
    }
}

/// Pattern replacement keeps the length of the text.
pub proof fn lemma_replace_pair_len(s: Seq<char>, a: char, b: char)
    ensures
        spec_replace_pair(s, a, b).len() == s.len(),
    decreases s.len(),
{
    if s.len() == 0 {
    } else if s.len() >= 2 && s[0] == a && s[1] == b {
        lemma_replace_pair_len(s.subrange(2, s.len() as int), a, b);
    } else {
        lemma_replace_pair_len(s.subrange(1, s.len() as int), a, b);
    }
}

/// Replaces every left-to-right occurrence of `a` then `b` by `a` then
/// the filler.
pub fn replace_pair(s: &Vec<char>, a: char, b: char) -> (r: Vec<char>)
    ensures
        r@ == spec_replace_pair(s@, a, b),
        r@.len() == s@.len(),
{
    let mut out: Vec<char> = Vec::new();
    let mut i: usize = 0;
    proof {
        assert(s@.subrange(0, s@.len() as int) =~= s@);
        assert(Seq::<char>::empty() + spec_replace_pair(s@, a, b) =~= spec_replace_pair(s@, a, b));
    }
    while i < s.len()
        invariant
            i <= s@.len(),
            out@.len() == i,
            spec_replace_pair(s@, a, b) == out@ + spec_replace_pair(
                s@.subrange(i as int, s@.len() as int),
                a,
                b,
            ),
        decreases s@.len() - i,
    {
        let ghost rest = s@.subrange(i as int, s@.len() as int);
        if s[i] == a && i + 1 < s.len() && s[i + 1] == b {
            out.push(a);
            out.push(FILLER);
            proof {
                assert(rest.subrange(2, rest.len() as int) =~= s@.subrange(
                    i + 2,
                    s@.len() as int,
                ));
                assert(spec_replace_pair(rest, a, b) =~= seq![a, FILLER] + spec_replace_pair(
                    s@.subrange(i + 2, s@.len() as int),
                    a,
                    b,
                ));
                assert(spec_replace_pair(s@, a, b) =~= out@ + spec_replace_pair(
                    s@.subrange(i + 2, s@.len() as int),
                    a,
                    b,
                ));
            }
            i = i + 2;
        } else {
            out.push(s[i]);
            proof {
                assert(rest.subrange(1, rest.len() as int) =~= s@.subrange(
                    i + 1,
                    s@.len() as int,
                ));
                assert(spec_replace_pair(rest, a, b) =~= seq![s@[i as int]] + spec_replace_pair(
                    s@.subrange(i + 1, s@.len() as int),
                    a,
                    b,
                ));
                assert(spec_replace_pair(s@, a, b) =~= out@ + spec_replace_pair(
                    s@.subrange(i + 1, s@.len() as int),
                    a,
                    b,
                ));
            }
            i = i + 1;
        }
    }
    proof {
        assert(s@.subrange(i as int, s@.len() as int) =~= Seq::<char>::empty());
        assert(spec_replace_pair(s@, a, b) =~= out@);
        lemma_replace_pair_len(s@, a, b);
    }
    out
}

/// How many times a character occurs in a text.
pub open spec fn spec_count_char(s: Seq<char>, c: char) -> int
    decreases s.len(),
{
    if s.len() == 0 {
        0
    } else {
        spec_count_char(s.subrange(1, s.len() as int), c) + (if s[0] == c {
            1int
        } else {
            0int
        })
    }
}

/// A character occurs in a text no more often than the text is long.
pub proof fn lemma_count_char_le_len(s: Seq<char>, c: char)
    ensures
        0 <= spec_count_char(s, c) <= s.len(),
    decreases s.len(),
{
    if s.len() == 0 {
    } else {
        lemma_count_char_le_len(s.subrange(1, s.len() as int), c);
    }
}

/// Counts how many times a character occurs in a text.
pub fn count_char(s: &Vec<char>, c: char) -> (n: usize)
    ensures
        n as int == spec_count_char(s@, c),
        n <= s@.len(),
{
    let mut n: usize = 0;
    let mut i: usize = 0;
    proof {
        assert(s@.subrange(0, s@.len() as int) =~= s@);
    }
    while i < s.len()
        invariant
            i <= s@.len(),
            n <= i,
            spec_count_char(s@, c) == n + spec_count_char(
                s@.subrange(i as int, s@.len() as int),
                c,
            ),
        decreases s@.len() - i,
    {
        let ghost rest = s@.subrange(i as int, s@.len() as int);
        proof {
            assert(rest.subrange(1, rest.len() as int) =~= s@.subrange(i + 1, s@.len() as int));
        }
        if s[i] == c {
            n = n + 1;
        }
        i = i + 1;
    }
    proof {
        assert(s@.subrange(i as int, s@.len() as int) =~= Seq::<char>::empty());
        lemma_count_char_le_len(s@, c);
    }
    n
}

/// The text after applying, in slot order, the digraph rule of each of
/// the first `n` layout slots: the slot's character followed by its
/// paired character (the character itself when it has no rule) collapses
/// to the character and the filler. Later rules see the text already
/// rewritten by earlier ones, so the slot order is part of the observable
/// behavior.
pub open spec fn spec_apply_rules(
    s: Seq<char>,
    layout: Seq<char>,
    rules: Map<char, char>,
    n: int,
) -> Seq<char>
    decreases n,
{
    if n <= 0 {
        s
    } else {
        let prev = spec_apply_rules(s, layout, rules, n - 1);
        let letter = layout[n - 1];
        let paired = if rules.contains_key(letter) {
            rules[letter]
        } else {
            letter
        };
        spec_replace_pair(prev, letter, paired)
    }
}

/// Applying the digraph rules keeps the length of the text.
pub proof fn lemma_apply_rules_len(s: Seq<char>, layout: Seq<char>, rules: Map<char, char>, n: int)
    ensures
        spec_apply_rules(s, layout, rules, n).len() == s.len(),
    decreases n,
{
    if n <= 0 {
    } else {
        lemma_apply_rules_len(s, layout, rules, n - 1);
        let prev = spec_apply_rules(s, layout, rules, n - 1);
        let letter = layout[n - 1];
        let paired = if rules.contains_key(letter) {
            rules[letter]
        } else {
            letter
        };
        lemma_replace_pair_len(prev, letter, paired);
    }
}

/// The corpus after the digraph preprocessor: the rule of every layout
/// slot applied in slot order.
pub open spec fn spec_preprocess(s: Seq<char>, layout: Seq<char>, rules: Map<char, char>) -> Seq<
    char,
> {
    spec_apply_rules(s, layout, rules, 32)
}

/// Rewrites the corpus so that every configured digraph (and every
/// doubled unmapped layout character) collapses to its key's character
/// followed by the filler, applying the rules in layout-slot order.
pub fn preprocess(corpus: &Vec<char>, layout_letters: &[char; 32], magic_rules: &AHashMap<
    char,
    char,
>) -> (r: Vec<char>)
    ensures
        r@ == spec_preprocess(corpus@, layout_letters@, rules_view(*magic_rules)),
        r@.len() == corpus@.len(),
{
    let mut text: Vec<char> = Vec::new();
    let mut i: usize = 0;
    while i < corpus.len()
        invariant
            i <= corpus@.len(),
            text@ =~= corpus@.subrange(0, i as int),
        decreases corpus@.len() - i,
    {
        text.push(corpus[i]);
        i = i + 1;
    }
    proof {
        assert(text@ =~= corpus@);
    }
    let mut j: usize = 0;
    while j < 32
        invariant
            j <= 32,
            text@ == spec_apply_rules(
                corpus@,
                layout_letters@,
                rules_view(*magic_rules),
                j as int,
            ),
        decreases 32 - j,
    {
        let letter = layout_letters[j];
        let paired = match rules_get(magic_rules, &letter) {
            Some(other) => *other,
            None => letter,
        };
        text = replace_pair(&text, letter, paired);
        j = j + 1;
    }
    proof {
        lemma_apply_rules_len(corpus@, layout_letters@, rules_view(*magic_rules), 32);
    }
    text
}

} // verus!
