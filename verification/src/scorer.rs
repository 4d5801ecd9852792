//! The accumulator: running totals over chunks of text, and the score
//! computations over those totals.

use vstd::prelude::*;

use crate::engine::Kincaid;
use crate::engine::text_syllables;
use crate::engine::words_of;
use crate::score::DEN_LIMIT;
use crate::score::GradeLevel;
use crate::score::ReadingEase;
use crate::score::clamped_ease;
use crate::score::clamped_grade;
use crate::text::sentence_tally;

verus! {

/// Every total the accumulator may hold stays at or below this, so the
/// score numerators and denominators fit an `i128` exactly.
pub const TOTAL_LIMIT: u64 = 9007199254740992;

/// Running totals of words, syllables and sentences over the chunks added
/// so far.
pub struct Totals {
    pub words: nat,
    pub syllables: nat,
    pub sentences: nat,
}

/// The totals of a scorer with nothing added yet.
pub open spec fn empty_totals() -> Totals {
    Totals { words: 0, syllables: 0, sentences: 0 }
}

/// The totals after one more chunk of text: each count grows by the
/// chunk's own count, so the order of chunks never matters.
pub open spec fn accumulate(t: Totals, chunk: Seq<char>) -> Totals {
    Totals {
        words: t.words + words_of(chunk).len(),
        syllables: t.syllables + text_syllables(chunk),
        sentences: t.sentences + sentence_tally(chunk),
    }
}

/// Totals the accumulator can hold: they fit the host word and stay in the
/// range over which the score arithmetic is exact.
pub open spec fn totals_ok(t: Totals) -> bool {
    &&& t.words <= TOTAL_LIMIT
    &&& t.syllables <= TOTAL_LIMIT
    &&& t.sentences <= TOTAL_LIMIT
    &&& t.words <= usize::MAX
    &&& t.syllables <= usize::MAX
    &&& t.sentences <= usize::MAX
}

/// Allows scoring of multi-part text: accumulates the counts of the chunks
/// added so far. Borrows the engine it is bound to.
pub struct Scorer<'a> {
    kincaid: &'a Kincaid,
    words: usize,
    syllables: usize,
    sentences: usize,
}

impl<'a> Scorer<'a> {
    /// The running totals.
    pub closed spec fn totals(&self) -> Totals {
        Totals {
            words: self.words as nat,
            syllables: self.syllables as nat,
            sentences: self.sentences as nat,
        }
    }

    /// A valid scorer: the totals are in range, and any chunk that brought
    /// words also brought at least one sentence.
    pub open spec fn wf(&self) -> bool {
        totals_ok(self.totals()) && (self.totals().words > 0 ==> self.totals().sentences > 0)
    }

    /// A fresh scorer with zero totals.
    pub fn new(kincaid: &'a Kincaid) -> (s: Scorer<'a>)
        ensures
            s.totals() == empty_totals(),
            s.wf(),
    {
        Scorer { kincaid, words: 0, syllables: 0, sentences: 0 }
    }

    /// Total words added so far.
    pub fn words(&self) -> (n: usize)
        ensures
            n == self.totals().words,
    {
        self.words
    }

    /// Total syllables added so far.
    pub fn syllables(&self) -> (n: usize)
        ensures
            n == self.totals().syllables,
    {
        self.syllables
    }

    /// Total sentences added so far.
    pub fn sentences(&self) -> (n: usize)
        ensures
            n == self.totals().sentences,
    {
        self.sentences
    }

    /// Add a text: its word, syllable and sentence counts join the totals.
    pub fn add(&mut self, text: &str)
        requires
            old(self).wf(),
            150 * text@.len() <= usize::MAX,
            totals_ok(accumulate(old(self).totals(), text@)),
        ensures
            final(self).wf(),
            final(self).totals() == accumulate(old(self).totals(), text@),
    {
        let w = self.kincaid.word_count(text);
        let y = self.kincaid.syllable_count(text);
        let s = self.kincaid.sentence_count(text);
        self.words = self.words + w;
        self.syllables = self.syllables + y;
        self.sentences = self.sentences + s;
    }

    /// Add a text if the new totals stay in range; `true` exactly when the
    /// chunk was taken. Unlike [`Scorer::add`], this asks nothing of the
    /// text, checking its size at run time instead.
    pub fn try_add(&mut self, text: &str) -> (ok: bool)
        requires
            old(self).wf(),
        ensures
            final(self).wf(),
            ok ==> final(self).totals() == accumulate(old(self).totals(), text@),
            !ok ==> *final(self) == *old(self),
            ok <==> (150 * text@.len() <= usize::MAX && totals_ok(
                accumulate(old(self).totals(), text@),
            )),
    {
        let len = text.unicode_len();
        if (len as u128) * 150 > (usize::MAX as u128) {
            return false;
        }
        let w = self.kincaid.word_count(text);
        let y = self.kincaid.syllable_count(text);
        let s = self.kincaid.sentence_count(text);
        let tw = (self.words as u128) + (w as u128);
        let ty = (self.syllables as u128) + (y as u128);
        let ts = (self.sentences as u128) + (s as u128);
        let limit = TOTAL_LIMIT as u128;
        let host = usize::MAX as u128;
        if tw <= limit && ty <= limit && ts <= limit && tw <= host && ty <= host && ts <= host {
            self.add(text);
            true
        } else {
            false
        }
    }

    /// Calculate the reading ease of everything added so far, as an exact
    /// fraction clamped to [0, 100]. At least one word must have been
    /// accumulated: with none the formula would divide by zero, so callers
    /// check `words()` first.
    pub fn reading_ease(&self) -> (r: ReadingEase)
        requires
            self.wf(),
            self.totals().words >= 1,
        ensures
            r.wf(),
            (r.num(), r.den()) == clamped_ease(
                self.totals().words as int,
                self.totals().sentences as int,
                self.totals().syllables as int,
            ),
    {
        let w = self.words as i128;
        let s = self.sentences as i128;
        let y = self.syllables as i128;
        proof {
            lemma_products_fit(w as int, s as int, y as int);
            vstd::arithmetic::mul::lemma_mul_is_associative(1000, s as int, w as int);
            vstd::arithmetic::mul::lemma_mul_is_associative(206835, s as int, w as int);
            vstd::arithmetic::mul::lemma_mul_is_associative(1015, w as int, w as int);
            vstd::arithmetic::mul::lemma_mul_is_associative(84600, y as int, s as int);
        }
        let sw = s * w;
        let ww = w * w;
        let ys = y * s;
        let den = 1000 * sw;
        let num = 206835 * sw - 1015 * ww - 84600 * ys;
        let top = 100 * den;
        if num < 0 {
            ReadingEase::from_fraction(0, den)
        } else if num > top {
            ReadingEase::from_fraction(top, den)
        } else {
            ReadingEase::from_fraction(num, den)
        }
    }

    /// Calculate the grade level of everything added so far, as an exact
    /// fraction floored at 1. As for the reading ease, at least one word
    /// must have been accumulated.
    pub fn grade_level(&self) -> (r: GradeLevel)
        requires
            self.wf(),
            self.totals().words >= 1,
        ensures
            r.wf(),
            (r.num(), r.den()) == clamped_grade(
                self.totals().words as int,
                self.totals().sentences as int,
                self.totals().syllables as int,
            ),
    {
        let w = self.words as i128;
        let s = self.sentences as i128;
        let y = self.syllables as i128;
        proof {
            lemma_products_fit(w as int, s as int, y as int);
            vstd::arithmetic::mul::lemma_mul_is_associative(1000, s as int, w as int);
            vstd::arithmetic::mul::lemma_mul_is_associative(390, w as int, w as int);
            vstd::arithmetic::mul::lemma_mul_is_associative(11800, y as int, s as int);
            vstd::arithmetic::mul::lemma_mul_is_associative(15900, s as int, w as int);
        }
        let sw = s * w;
        let ww = w * w;
        let ys = y * s;
        let den = 1000 * sw;
        let num = 390 * ww + 11800 * ys - 15900 * sw;
        if num < den {
            GradeLevel::from_fraction(den, den)
        } else {
            GradeLevel::from_fraction(num, den)
        }
    }
}

impl Kincaid {
    /// A fresh scorer bound to this engine.
    pub fn scorer<'b>(&'b self) -> (s: Scorer<'b>)
        ensures
            s.totals() == empty_totals(),
            s.wf(),
    {
        Scorer::new(self)
    }

    /// Scores `text` alone: a fresh scorer, one add, then the reading
    /// ease. `text` must hold at least one word, and its counts must be in
    /// range; [`Kincaid::try_reading_ease`] checks both at run time.
    pub fn reading_ease(&self, text: &str) -> (r: ReadingEase)
        requires
            150 * text@.len() <= usize::MAX,
            totals_ok(accumulate(empty_totals(), text@)),
            words_of(text@).len() >= 1,
        ensures
            r.wf(),
            (r.num(), r.den()) == clamped_ease(
                words_of(text@).len() as int,
                sentence_tally(text@) as int,
                text_syllables(text@) as int,
            ),
    {
        let mut scorer = self.scorer();
        scorer.add(text);
        scorer.reading_ease()
    }

    /// Scores `text` alone: a fresh scorer, one add, then the grade
    /// level. `text` must hold at least one word, and its counts must be in
    /// range; [`Kincaid::try_grade_level`] checks both at run time.
    pub fn grade_level(&self, text: &str) -> (r: GradeLevel)
        requires
            150 * text@.len() <= usize::MAX,
            totals_ok(accumulate(empty_totals(), text@)),
            words_of(text@).len() >= 1,
        ensures
            r.wf(),
            (r.num(), r.den()) == clamped_grade(
                words_of(text@).len() as int,
                sentence_tally(text@) as int,
                text_syllables(text@) as int,
            ),
    {
        let mut scorer = self.scorer();
        scorer.add(text);
        scorer.grade_level()
    }

    /// Scores `text` alone where possible: `None` when `text` holds no word
    /// (the formula would divide by zero on it) or its counts are out of
    /// range.
    pub fn try_reading_ease(&self, text: &str) -> (r: Option<ReadingEase>)
        ensures
            r matches Some(e) ==> e.wf() && (e.num(), e.den()) == clamped_ease(
                words_of(text@).len() as int,
                sentence_tally(text@) as int,
                text_syllables(text@) as int,
            ),
            r is Some <==> (150 * text@.len() <= usize::MAX && totals_ok(
                accumulate(empty_totals(), text@),
            ) && words_of(text@).len() >= 1),
    {
        let mut scorer = self.scorer();
        if !scorer.try_add(text) {
            return None;
        }
        if scorer.words() == 0 {
            return None;
        }
        Some(self.reading_ease(text))
    }

    /// Scores `text` alone where possible: `None` exactly as for
    /// [`Kincaid::try_reading_ease`].
    pub fn try_grade_level(&self, text: &str) -> (r: Option<GradeLevel>)
        ensures
            r matches Some(g) ==> g.wf() && (g.num(), g.den()) == clamped_grade(
                words_of(text@).len() as int,
                sentence_tally(text@) as int,
                text_syllables(text@) as int,
            ),
            r is Some <==> (150 * text@.len() <= usize::MAX && totals_ok(
                accumulate(empty_totals(), text@),
            ) && words_of(text@).len() >= 1),
    {
        let mut scorer = self.scorer();
        if !scorer.try_add(text) {
            return None;
        }
        if scorer.words() == 0 {
            return None;
        }
        Some(self.grade_level(text))
    }
}

/// Bounds on the products of in-range totals: every term of the formulas
/// fits an `i128`, and the denominator is positive and within the band
/// limit.
proof fn lemma_products_fit(w: int, s: int, y: int)
    requires
        1 <= w <= TOTAL_LIMIT,
        1 <= s <= TOTAL_LIMIT,
        0 <= y <= TOTAL_LIMIT,
    ensures
        1 <= s * w <= TOTAL_LIMIT * TOTAL_LIMIT,
        1 <= w * w <= TOTAL_LIMIT * TOTAL_LIMIT,
        0 <= y * s <= TOTAL_LIMIT * TOTAL_LIMIT,
        1000 <= 1000 * (s * w) <= DEN_LIMIT,
{
    assert(1 <= s * w <= TOTAL_LIMIT * TOTAL_LIMIT && 1 <= w * w <= TOTAL_LIMIT * TOTAL_LIMIT && 0
        <= y * s <= TOTAL_LIMIT * TOTAL_LIMIT) by (nonlinear_arith)
        requires
            1 <= w <= TOTAL_LIMIT,
            1 <= s <= TOTAL_LIMIT,
            0 <= y <= TOTAL_LIMIT,
    ;
}

} // verus!
