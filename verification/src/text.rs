//! Character-level tokenizer pieces: counting maximal runs of vowels and of
//! sentence-boundary characters.

use vstd::prelude::*;

verus! {

/// A vowel for the syllable estimate: one of the five letters a, e, i, o, u,
/// in either case.
pub open spec fn is_vowel(c: char) -> bool {
    c == 'a' || c == 'e' || c == 'i' || c == 'o' || c == 'u' || c == 'A' || c == 'E' || c == 'I'
        || c == 'O' || c == 'U'
}

/// A sentence-boundary character: `.`, `?` or `!`.
pub open spec fn is_sentence_boundary(c: char) -> bool {
    c == '.' || c == '?' || c == '!'
}

/// Number of maximal runs of characters satisfying `p` in `s`. A run starts
/// at a character that satisfies `p` and is not preceded by one.
pub open spec fn run_count(s: Seq<char>, p: spec_fn(char) -> bool) -> nat
    decreases s.len(),
{
    if s.len() == 0 {
        0
    } else {
        run_count(s.drop_last(), p) + (if p(s.last()) && (s.len() == 1 || !p(s[s.len() - 2])) {
            1nat
        } else {
            0nat
        })
    }
}

/// Number of maximal runs of vowels in `s`: the default syllable count of a
/// word.
pub open spec fn vowel_groups(s: Seq<char>) -> nat {
    run_count(s, |c: char| is_vowel(c))
}

/// Number of maximal runs of sentence-boundary characters in `s`.
pub open spec fn boundary_runs(s: Seq<char>) -> nat {
    run_count(s, |c: char| is_sentence_boundary(c))
}

/// Number of sentences in a chunk: the boundary runs, with a floor of one, so
/// that text without terminal punctuation still counts as one sentence.
pub open spec fn sentence_tally(s: Seq<char>) -> nat {
    if boundary_runs(s) == 0 {
        1
    } else {
        boundary_runs(s)
    }
}

fn is_vowel_char(c: char) -> (b: bool)
    ensures
        b == is_vowel(c),
{
    c == 'a' || c == 'e' || c == 'i' || c == 'o' || c == 'u' || c == 'A' || c == 'E' || c == 'I'
        || c == 'O' || c == 'U'
}

fn is_boundary_char(c: char) -> (b: bool)
    ensures
        b == is_sentence_boundary(c),
{
    c == '.' || c == '?' || c == '!'
}

/// A run needs a character of its own plus a separating character before it,
/// so at most every other position can start one.
proof fn lemma_run_count_bound(s: Seq<char>, p: spec_fn(char) -> bool)
    ensures
        2 * run_count(s, p) <= s.len() + 1,
    decreases s.len(),
{
    if s.len() > 0 {
        if s.len() >= 2 && p(s.last()) && !p(s[s.len() - 2]) {
            assert(s.drop_last().last() == s[s.len() - 2]);
            lemma_run_count_drops_non_member_last(s.drop_last(), p);
            lemma_run_count_bound(s.drop_last().drop_last(), p);
        } else {
            lemma_run_count_bound(s.drop_last(), p);
        }
    }
}

/// Dropping a final character that does not satisfy `p` keeps the run count.
proof fn lemma_run_count_drops_non_member_last(s: Seq<char>, p: spec_fn(char) -> bool)
    requires
        s.len() > 0,
        !p(s.last()),
    ensures
        run_count(s, p) == run_count(s.drop_last(), p),
{
}

/// Counts the maximal vowel runs of `s`.
pub fn vowel_group_count(s: &str) -> (n: usize)
    ensures
        n == vowel_groups(s@),
        2 * n <= s@.len() + 1,
        s@.len() <= usize::MAX,
{
    let len = s.unicode_len();
    let mut n: usize = 0;
    let mut prev: bool = false;
    let mut i: usize = 0;
    while i < len
        invariant
            len == s@.len(),
            i <= len,
            n == run_count(s@.take(i as int), |c: char| is_vowel(c)),
            prev == (i > 0 && is_vowel(s@[i as int - 1])),
            2 * n <= i + 1,
            !prev ==> 2 * n <= i,
        decreases len - i,
    {
        let c = s.get_char(i);
        let v = is_vowel_char(c);
        proof {
            let pfx = s@.take(i + 1);
            assert(pfx.drop_last() =~= s@.take(i as int));
            assert(pfx.last() == s@[i as int]);
            if i > 0 {
                assert(pfx[pfx.len() - 2] == s@[i as int - 1]);
            }
            if !(v && !prev) {
                assert(run_count(pfx, |c: char| is_vowel(c)) == n);
            }
        }
        if v && !prev {
            n = n + 1;
        }
        prev = v;
        i = i + 1;
    }
    proof {
        assert(s@.take(len as int) =~= s@);
        lemma_run_count_bound(s@, |c: char| is_vowel(c));
    }
    n
}

/// Counts the maximal runs of sentence-boundary characters of `s`.
pub fn boundary_run_count(s: &str) -> (n: usize)
    ensures
        n == boundary_runs(s@),
        2 * n <= s@.len() + 1,
{
    let len = s.unicode_len();
    let mut n: usize = 0;
    let mut prev: bool = false;
    let mut i: usize = 0;
    while i < len
        invariant
            len == s@.len(),
            i <= len,
            n == run_count(s@.take(i as int), |c: char| is_sentence_boundary(c)),
            prev == (i > 0 && is_sentence_boundary(s@[i as int - 1])),
            2 * n <= i + 1,
            !prev ==> 2 * n <= i,
        decreases len - i,
    {
        let c = s.get_char(i);
        let v = is_boundary_char(c);
        proof {
            let pfx = s@.take(i + 1);
            assert(pfx.drop_last() =~= s@.take(i as int));
            assert(pfx.last() == s@[i as int]);
            if i > 0 {
                assert(pfx[pfx.len() - 2] == s@[i as int - 1]);
            }
            if !(v && !prev) {
                assert(run_count(pfx, |c: char| is_sentence_boundary(c)) == n);
            }
        }
        if v && !prev {
            n = n + 1;
        }
        prev = v;
        i = i + 1;
    }
    proof {
        assert(s@.take(len as int) =~= s@);
        lemma_run_count_bound(s@, |c: char| is_sentence_boundary(c));
    }
    n
}

} // verus!
