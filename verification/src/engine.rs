//! The readability engine: compiled matchers, word extraction and the
//! syllable estimate.

use vstd::prelude::*;

use crate::patterns::add_patterns;
use crate::patterns::spec_add_table;
use crate::patterns::spec_sub_table;
use crate::patterns::spec_word_pattern;
use crate::patterns::sub_patterns;
use crate::patterns::views_of;
use crate::patterns::word_pattern;
use crate::text::boundary_run_count;
use crate::text::sentence_tally;
use crate::text::vowel_group_count;
use crate::text::vowel_groups;

verus! {

#[verifier::external_type_specification]
#[verifier::external_body]
pub struct ExRegex(regex::Regex);

#[verifier::external_type_specification]
#[verifier::external_body]
pub struct ExRegexSet(regex::RegexSet);

/// Whether the regex crate accepts pattern `p` when compiled alone,
/// case-insensitively.
pub uninterp spec fn regex_accepts(p: Seq<char>) -> bool;

/// Whether the regex crate accepts the patterns `ps` when compiled as one
/// set, case-insensitively.
pub uninterp spec fn regex_set_accepts(ps: Seq<Seq<char>>) -> bool;

/// The word tokens that the fixed word pattern finds in `t`, in order of
/// appearance.
pub uninterp spec fn words_of(t: Seq<char>) -> Seq<Seq<char>>;

/// The number of distinct patterns of the fixed syllable-adding table that
/// match somewhere in `w`.
pub uninterp spec fn add_hits(w: Seq<char>) -> nat;

/// The number of distinct patterns of the fixed syllable-subtracting table
/// that match somewhere in `w`.
pub uninterp spec fn sub_hits(w: Seq<char>) -> nat;

/// Total length of a sequence of words.
pub open spec fn len_sum(ws: Seq<Seq<char>>) -> nat
    decreases ws.len(),
{
    if ws.len() == 0 {
        0
    } else {
        len_sum(ws.drop_last()) + ws.last().len()
    }
}

/// The estimated syllable count of one word: its vowel groups, plus one for
/// each distinct matching add-pattern, minus one for each distinct matching
/// sub-pattern. The floor of one is decided by comparing before subtracting,
/// exactly as the counts-based rule demands.
pub open spec fn estimated_syllables(w: Seq<char>) -> nat {
    if vowel_groups(w) + add_hits(w) < sub_hits(w) + 1 {
        1
    } else {
        (vowel_groups(w) + add_hits(w) - sub_hits(w)) as nat
    }
}

/// The estimated syllable count of a sequence of words.
pub open spec fn syllable_sum(ws: Seq<Seq<char>>) -> nat
    decreases ws.len(),
{
    if ws.len() == 0 {
        0
    } else {
        syllable_sum(ws.drop_last()) + estimated_syllables(ws.last())
    }
}

/// The estimated syllable count of a whole chunk of text: the sum over its
/// word tokens.
pub open spec fn text_syllables(t: Seq<char>) -> nat {
    syllable_sum(words_of(t))
}

/// Relies on Clone for regex::Regex (regex 1.13): a clone matches exactly
/// as the original. Nothing is assumed of the clone; the engine's derived
/// `Clone` goes through it.
pub assume_specification[ <regex::Regex as Clone>::clone ](r: &regex::Regex) -> regex::Regex;

/// Relies on Clone for regex::RegexSet (regex 1.13), as for the single
/// matcher.
pub assume_specification[ <regex::RegexSet as Clone>::clone ](s: &regex::RegexSet) -> regex::RegexSet;

/// Relies on regex::RegexBuilder::build (regex 1.13): compiles `pattern`
/// with case-insensitive matching; `None` exactly where the crate refuses
/// the pattern. Whether a pattern compiles depends on the pattern alone,
/// named `regex_accepts`; nothing is assumed of the compiled matcher
/// itself.
#[verifier::external_body]
fn compile_matcher(pattern: &str) -> (r: Option<regex::Regex>)
    ensures
        r is Some <==> regex_accepts(pattern@),
{
    regex::RegexBuilder::new(pattern).case_insensitive(true).build().ok()
}

/// Relies on regex::RegexSetBuilder::build (regex 1.13): compiles the
/// patterns as one set, case-insensitively; `None` exactly where the crate
/// refuses one of them. Whether the set compiles depends on the patterns
/// alone, named `regex_set_accepts`; nothing is assumed of the compiled
/// set itself.
#[verifier::external_body]
fn compile_matcher_set(patterns: &Vec<&str>) -> (r: Option<regex::RegexSet>)
    ensures
        r is Some <==> regex_set_accepts(views_of(patterns@)),
{
    regex::RegexSetBuilder::new(patterns).case_insensitive(true).build().ok()
}

/// The readability engine: the compiled word matcher and the two compiled
/// exception-pattern sets. Built once by [`Kincaid::new`] from the fixed
/// tables in this crate, and immutable afterwards; every engine therefore
/// holds the same matchers.
#[derive(Clone, Debug)]
pub struct Kincaid {
    word: regex::Regex,
    add: regex::RegexSet,
    sub: regex::RegexSet,
}

impl Kincaid {
    /// Builds the engine by compiling the fixed word pattern and the two
    /// exception tables, succeeding exactly when the regex crate accepts
    /// all three. A refusal would be a configuration fault, not a runtime
    /// condition: the shipped tables compile, as the tests witness.
    pub fn new() -> (r: Option<Kincaid>)
        ensures
            r is Some <==> (regex_accepts(spec_word_pattern()) && regex_set_accepts(
                spec_add_table(),
            ) && regex_set_accepts(spec_sub_table())),
    {
        let word = compile_matcher(word_pattern());
        let add = compile_matcher_set(&add_patterns());
        let sub = compile_matcher_set(&sub_patterns());
        match (word, add, sub) {
            (Some(word), Some(add), Some(sub)) => Some(Kincaid { word, add, sub }),
            _ => None,
        }
    }

    /// Relies on regex::Regex::find_iter (regex 1.13): yields the successive
    /// non-overlapping matches of the word pattern in `text`, in order; each
    /// match is a nonempty substring of `text` (the pattern demands at least
    /// one letter) and the matches do not overlap, so their number and total
    /// length are bounded by the text's length. The word matcher is the same
    /// fixed pattern in every engine (private fields, a single constructor
    /// that compiles the fixed tables), so the tokens are a function of
    /// `text` alone, named `words_of`.
    #[verifier::external_body]
    fn find_words(&self, text: &str) -> (v: Vec<String>)
        ensures
            v@.map_values(|s: String| s@) == words_of(text@),
            v@.len() <= text@.len(),
            forall|i: int| 0 <= i < v@.len() ==> 1 <= (#[trigger] v@[i])@.len(),
            len_sum(v@.map_values(|s: String| s@)) <= text@.len(),
    {
        self.word.find_iter(text).map(|m| m.as_str().to_string()).collect()
    }

    /// Relies on regex::RegexSet::matches and regex::SetMatches::iter
    /// (regex 1.13): the iterator yields the index of each pattern of the
    /// set that matches in `w`, each index once, so the count is the number
    /// of distinct matching patterns, at most the 133 patterns of the fixed
    /// add table. The set is the same in every engine (private fields, a
    /// single constructor that compiles the fixed tables), so the count is a
    /// function of `w` alone, named `add_hits`.
    #[verifier::external_body]
    fn add_match_count(&self, w: &str) -> (n: usize)
        ensures
            n == add_hits(w@),
            n <= 133,
    {
        self.add.matches(w).iter().count()
    }

    /// Relies on regex::RegexSet::matches and regex::SetMatches::iter
    /// (regex 1.13), as for the add table: the count of distinct matching
    /// patterns out of the fixed 74-pattern sub table, a function of `w`
    /// alone, named `sub_hits`.
    #[verifier::external_body]
    fn sub_match_count(&self, w: &str) -> (n: usize)
        ensures
            n == sub_hits(w@),
            n <= 74,
    {
        self.sub.matches(w).iter().count()
    }

    /// Number of word tokens in `text`.
    pub fn word_count(&self, text: &str) -> (n: usize)
        ensures
            n == words_of(text@).len(),
            n <= text@.len(),
    {
        let words = self.find_words(text);
        words.len()
    }

    /// Number of sentences in `text`: its runs of `.`, `?` and `!`, and at
    /// least one even without terminal punctuation.
    pub fn sentence_count(&self, text: &str) -> (n: usize)
        ensures
            n == sentence_tally(text@),
            1 <= n,
            2 * n <= text@.len() + 2,
    {
        let runs = boundary_run_count(text);
        if runs == 0 {
            1
        } else {
            runs
        }
    }

    /// The estimated syllable count of one word, at least one.
    pub fn syllables_in_word(&self, word: &str) -> (n: usize)
        ensures
            n == estimated_syllables(word@),
            1 <= n,
            n <= (word@.len() + 1) / 2 + 133,
    {
        let count = vowel_group_count(word);
        let add = self.add_match_count(word);
        let sub = self.sub_match_count(word);
        proof {
            assert(count + add <= (usize::MAX + 1) / 2 + 133);
        }
        if count + add < sub + 1 {
            1
        } else {
            count + add - sub
        }
    }

    /// The estimated syllable count of `text`: the sum of the estimates of
    /// its word tokens.
    pub fn syllable_count(&self, text: &str) -> (n: usize)
        requires
            150 * text@.len() <= usize::MAX,
        ensures
            n == text_syllables(text@),
            n <= 150 * text@.len(),
    {
        let words = self.find_words(text);
        let ghost ws = words@.map_values(|s: String| s@);
        let mut total: usize = 0;
        let mut i: usize = 0;
        while i < words.len()
            invariant
                ws == words@.map_values(|s: String| s@),
                ws == words_of(text@),
                forall|j: int| 0 <= j < words@.len() ==> 1 <= (#[trigger] words@[j])@.len(),
                len_sum(ws) <= text@.len(),
                150 * text@.len() <= usize::MAX,
                i <= words@.len(),
                total == syllable_sum(ws.take(i as int)),
                total <= 150 * len_sum(ws.take(i as int)),
            decreases words@.len() - i,
        {
            let n_i = self.syllables_in_word(words[i].as_str());
            proof {
                lemma_take_succ(ws, i as int);
                lemma_len_sum_take_le(ws, i + 1);
                assert(ws[i as int] == words@[i as int]@);
                assert(n_i <= 150 * ws[i as int].len()) by {
                    assert(1 <= ws[i as int].len());
                    assert((ws[i as int].len() + 1) / 2 <= ws[i as int].len());
                };
            }
            total = total + n_i;
            i = i + 1;
        }
        proof {
            assert(ws.take(words@.len() as int) =~= ws);
        }
        total
    }
}

/// Taking one more word adds that word's length and syllables to the sums.
proof fn lemma_take_succ(ws: Seq<Seq<char>>, i: int)
    requires
        0 <= i < ws.len(),
    ensures
        len_sum(ws.take(i + 1)) == len_sum(ws.take(i)) + ws[i].len(),
        syllable_sum(ws.take(i + 1)) == syllable_sum(ws.take(i)) + estimated_syllables(ws[i]),
{
    assert(ws.take(i + 1).drop_last() =~= ws.take(i));
    assert(ws.take(i + 1).last() == ws[i]);
}

/// The length sum of a prefix is at most the length sum of the whole.
proof fn lemma_len_sum_take_le(ws: Seq<Seq<char>>, i: int)
    requires
        0 <= i <= ws.len(),
    ensures
        len_sum(ws.take(i)) <= len_sum(ws),
    decreases ws.len() - i,
{
    if i < ws.len() {
        lemma_take_succ(ws, i);
        lemma_len_sum_take_le(ws, i + 1);
    } else {
        assert(ws.take(i) =~= ws);
    }
}

} // verus!
