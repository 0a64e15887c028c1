//! Whitespace handling of transcript text and search queries, following the
//! Unicode `White_Space` property as `char::is_whitespace` does.

use vstd::prelude::*;

verus! {

/// The Unicode `White_Space` characters.
pub open spec fn spec_is_whitespace(c: char) -> bool {
    let u = c as u32;
    ||| 0x9 <= u <= 0xD
    ||| u == 0x20
    ||| u == 0x85
    ||| u == 0xA0
    ||| u == 0x1680
    ||| 0x2000 <= u <= 0x200A
    ||| u == 0x2028
    ||| u == 0x2029
    ||| u == 0x202F
    ||| u == 0x205F
    ||| u == 0x3000
}

/// Whether `c` has the Unicode `White_Space` property.
pub fn is_whitespace(c: char) -> (b: bool)
    ensures
        b == spec_is_whitespace(c),
{
    let u = c as u32;
    (0x9 <= u && u <= 0xD) || u == 0x20 || u == 0x85 || u == 0xA0 || u == 0x1680 || (0x2000 <= u
        && u <= 0x200A) || u == 0x2028 || u == 0x2029 || u == 0x202F || u == 0x205F || u == 0x3000
}

/// Number of words in `s`: maximal runs of non-whitespace characters, as
/// `str::split_whitespace` yields them.
pub open spec fn spec_word_count(s: Seq<char>) -> nat
    decreases s.len(),
{
    if s.len() == 0 {
        0
    } else {
        let starts_word = !spec_is_whitespace(s.last()) && (s.len() == 1 || spec_is_whitespace(
            s[s.len() - 2],
        ));
        spec_word_count(s.drop_last()) + if starts_word {
            1nat
        } else {
            0nat
        }
    }
}

/// A non-empty run of non-whitespace characters is one word, whatever
/// characters it holds.
pub proof fn lemma_word_count_of_one_run(s: Seq<char>)
    requires
        s.len() > 0,
        forall|i: int| 0 <= i < s.len() ==> !spec_is_whitespace(#[trigger] s[i]),
    ensures
        spec_word_count(s) == 1,
    decreases s.len(),
{
    assert(!spec_is_whitespace(s[s.len() - 1]));
    assert(s.last() == s[s.len() - 1]);
    if s.len() == 1 {
        assert(spec_word_count(s.drop_last()) == 0);
    } else {
        let p = s.drop_last();
        assert forall|i: int| 0 <= i < p.len() implies !spec_is_whitespace(#[trigger] p[i]) by {
            assert(p[i] == s[i]);
        }
        lemma_word_count_of_one_run(p);
        assert(!spec_is_whitespace(s[s.len() - 2]));
    }
}

/// Text made only of whitespace holds no word.
pub proof fn lemma_word_count_of_whitespace(s: Seq<char>)
    requires
        forall|i: int| 0 <= i < s.len() ==> spec_is_whitespace(#[trigger] s[i]),
    ensures
        spec_word_count(s) == 0,
    decreases s.len(),
{
    if s.len() > 0 {
        let p = s.drop_last();
        assert forall|i: int| 0 <= i < p.len() implies spec_is_whitespace(#[trigger] p[i]) by {
            assert(p[i] == s[i]);
        }
        lemma_word_count_of_whitespace(p);
        assert(spec_is_whitespace(s[s.len() - 1]));
    }
}

/// Words on the two sides of a whitespace character are counted
/// separately: the count of `s`, a whitespace character `c` and `t` is the
/// count of `s` plus the count of `t`.
pub proof fn lemma_word_count_splits_at_whitespace(s: Seq<char>, c: char, t: Seq<char>)
    requires
        spec_is_whitespace(c),
    ensures
        spec_word_count(s + seq![c] + t) == spec_word_count(s) + spec_word_count(t),
    decreases t.len(),
{
    let whole = s + seq![c] + t;
    if t.len() == 0 {
        assert(whole =~= s.push(c));
        assert(whole.drop_last() =~= s);
    } else {
        let tp = t.drop_last();
        lemma_word_count_splits_at_whitespace(s, c, tp);
        assert(whole.drop_last() =~= s + seq![c] + tp);
        assert(whole.last() == t.last());
        if tp.len() == 0 {
            assert(whole[whole.len() - 2] == c);
        } else {
            assert(whole[whole.len() - 2] == t[t.len() - 2]);
        }
    }
}

/// Count the whitespace-separated words of `text`.
pub fn word_count(text: &str) -> (n: usize)
    ensures
        n == spec_word_count(text@),
{
    // The number of characters bounds the count.
    let _chars: usize = text.unicode_len();
    let mut n: usize = 0;
    let mut prev_is_whitespace = true;
    for c in it: text.chars()
        invariant
            it.seq() == text@,
            text@.len() <= usize::MAX,
            n == spec_word_count(text@.take(it.index() as int)),
            n <= it.index(),
            it.index() > 0 ==> prev_is_whitespace == spec_is_whitespace(text@[it.index() - 1]),
            it.index() == 0 ==> prev_is_whitespace,
    {
        let ws = is_whitespace(c);
        let ghost i = it.index();
        assert(text@.take(i + 1).drop_last() =~= text@.take(i as int));
        assert(text@.take(i + 1).last() == c);
        if !ws && prev_is_whitespace {
            n = n + 1;
        }
        prev_is_whitespace = ws;
    }
    assert(text@.take(text@.len() as int) =~= text@);
    n
}

/// Whether `text` is empty once surrounding whitespace is trimmed, i.e. it
/// holds only whitespace.
pub fn is_blank(text: &str) -> (b: bool)
    ensures
        b == forall|i: int| 0 <= i < text@.len() ==> spec_is_whitespace(#[trigger] text@[i]),
{
    for c in it: text.chars()
        invariant
            it.seq() == text@,
            forall|i: int| 0 <= i < it.index() ==> spec_is_whitespace(#[trigger] text@[i]),
    {
        if !is_whitespace(c) {
            return false;
        }
    }
    true
}

} // verus!
