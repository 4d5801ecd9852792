//! The two scores and their descriptors.
//!
//! Each score is an exact fraction `num / den` of the accumulated counts, so
//! the clamp, the floor and the descriptor bands are decided by exact
//! integer comparisons rather than rounded arithmetic.

use vstd::prelude::*;

verus! {

/// Largest denominator a score may carry: band comparisons multiply the
/// denominator by at most 100, which then still fits an `i128`.
pub const DEN_LIMIT: i128 = 1329227995784915872903807060280344576;

/// Numerator of the reading-ease formula
/// `206.835 - 1.015 * (words / sentences) - 84.6 * (syllables / words)`
/// over the common denominator `1000 * sentences * words`.
pub open spec fn ease_num(words: int, sentences: int, syllables: int) -> int {
    206835 * sentences * words - 1015 * words * words - 84600 * syllables * sentences
}

/// Numerator of the grade-level formula
/// `0.39 * (words / sentences) + 11.8 * (syllables / words) - 15.9`
/// over the same denominator.
pub open spec fn grade_num(words: int, sentences: int, syllables: int) -> int {
    390 * words * words + 11800 * syllables * sentences - 15900 * sentences * words
}

/// The common denominator of both formulas.
pub open spec fn score_den(words: int, sentences: int) -> int {
    1000 * sentences * words
}

/// The reading-ease score as a fraction, clamped to [0, 100]: the raw value
/// is not meaningful outside that range.
pub open spec fn clamped_ease(words: int, sentences: int, syllables: int) -> (int, int) {
    let n = ease_num(words, sentences, syllables);
    let d = score_den(words, sentences);
    if n < 0 {
        (0, d)
    } else if n > 100 * d {
        (100 * d, d)
    } else {
        (n, d)
    }
}

/// The grade-level score as a fraction, floored at 1: no grade below the
/// 1st is reported.
pub open spec fn clamped_grade(words: int, sentences: int, syllables: int) -> (int, int) {
    let n = grade_num(words, sentences, syllables);
    let d = score_den(words, sentences);
    if n < d {
        (d, d)
    } else {
        (n, d)
    }
}

/// Index of the descriptor band holding the value `num / den`: eight
/// contiguous half-open bands over [0, 100], the last closed at 100. A
/// boundary value belongs to the band above it.
pub open spec fn ease_band(num: int, den: int) -> int {
    if num < 10 * den {
        0
    } else if num < 30 * den {
        1
    } else if num < 50 * den {
        2
    } else if num < 60 * den {
        3
    } else if num < 70 * den {
        4
    } else if num < 80 * den {
        5
    } else if num < 90 * den {
        6
    } else {
        7
    }
}

/// The short descriptor of a band.
pub open spec fn band_short(b: int) -> Seq<char> {
    if b == 0 {
        "Professional"@
    } else if b == 1 {
        "College graduate"@
    } else if b == 2 {
        "College"@
    } else if b == 3 {
        "10th to 12th grade"@
    } else if b == 4 {
        "8th & 9th grade"@
    } else if b == 5 {
        "7th grade"@
    } else if b == 6 {
        "6th grade"@
    } else {
        "5th grade"@
    }
}

/// The detailed descriptor of a band.
pub open spec fn band_long(b: int) -> Seq<char> {
    if b == 0 {
        "Extremely difficult to read. Best understood by university graduates."@
    } else if b == 1 {
        "Very difficult to read. Best understood by university graduates."@
    } else if b == 2 {
        "Difficult to read."@
    } else if b == 3 {
        "Fairly difficult to read."@
    } else if b == 4 {
        "Plain English. Easily understood by 13- to 15-year-old students."@
    } else if b == 5 {
        "Fairly easy to read."@
    } else if b == 6 {
        "Easy to read. Conversational English for consumers."@
    } else {
        "Very easy to read. Easily understood by an average 11-year-old student."@
    }
}

/// The character for one decimal digit.
pub open spec fn digit_char(d: nat) -> char {
    if d == 0 {
        '0'
    } else if d == 1 {
        '1'
    } else if d == 2 {
        '2'
    } else if d == 3 {
        '3'
    } else if d == 4 {
        '4'
    } else if d == 5 {
        '5'
    } else if d == 6 {
        '6'
    } else if d == 7 {
        '7'
    } else if d == 8 {
        '8'
    } else {
        '9'
    }
}

/// The decimal digits of `n`, most significant first.
pub open spec fn decimal_digits(n: nat) -> Seq<char>
    decreases n,
{
    if n < 10 {
        seq![digit_char(n)]
    } else {
        decimal_digits(n / 10).push(digit_char(n % 10))
    }
}

/// The ordinal label of a grade with integer part `k`: "1st", "2nd" and
/// "3rd" grade are special; every later grade takes "th", with no special
/// handling of 11 to 13.
pub open spec fn grade_label(k: int) -> Seq<char> {
    if k == 1 {
        "1st grade"@
    } else if k == 2 {
        "2nd grade"@
    } else if k == 3 {
        "3rd grade"@
    } else {
        decimal_digits(k as nat) + "th grade"@
    }
}

/// A Flesch reading-ease score: an exact fraction in [0, 100]. Higher is
/// easier to read.
pub struct ReadingEase {
    num: i128,
    den: i128,
}

impl ReadingEase {
    /// The numerator of the score fraction.
    pub closed spec fn num(&self) -> int {
        self.num as int
    }

    /// The denominator of the score fraction.
    pub closed spec fn den(&self) -> int {
        self.den as int
    }

    /// A valid score: a positive, bounded denominator and a value in
    /// [0, 100].
    pub open spec fn wf(&self) -> bool {
        0 < self.den() <= DEN_LIMIT && 0 <= self.num() <= 100 * self.den()
    }

    /// Wraps an already-clamped fraction.
    pub(crate) fn from_fraction(num: i128, den: i128) -> (r: ReadingEase)
        requires
            0 < den <= DEN_LIMIT,
            0 <= num <= 100 * den,
        ensures
            r.num() == num,
            r.den() == den,
            r.wf(),
    {
        ReadingEase { num, den }
    }

    /// Builds a score from a fraction computed elsewhere, so that its
    /// descriptors can be looked up; `None` unless the fraction is a valid
    /// clamped score.
    pub fn new(num: i128, den: i128) -> (r: Option<ReadingEase>)
        ensures
            r matches Some(e) ==> e.num() == num && e.den() == den && e.wf(),
            r is Some <==> (0 < den <= DEN_LIMIT && 0 <= num <= 100 * den),
    {
        if 0 < den && den <= DEN_LIMIT && 0 <= num && num <= 100 * den {
            Some(ReadingEase { num, den })
        } else {
            None
        }
    }

    /// The numerator of the score fraction.
    pub fn numerator(&self) -> (n: i128)
        ensures
            n == self.num(),
    {
        self.num
    }

    /// The denominator of the score fraction.
    pub fn denominator(&self) -> (d: i128)
        ensures
            d == self.den(),
    {
        self.den
    }

    /// Provide descriptors for this reading level.
    ///
    /// The first descriptor is short; the second is more detailed. The
    /// clamp to [0, 100] guarantees that the score falls into exactly one
    /// of the eight bands.
    pub fn description(self) -> (r: (&'static str, &'static str))
        requires
            self.wf(),
        ensures
            r.0@ == band_short(ease_band(self.num(), self.den())),
            r.1@ == band_long(ease_band(self.num(), self.den())),
    {
        let num = self.num;
        let den = self.den;
        if num < 10 * den {
            ("Professional", "Extremely difficult to read. Best understood by university graduates.")
        } else if num < 30 * den {
            ("College graduate", "Very difficult to read. Best understood by university graduates.")
        } else if num < 50 * den {
            ("College", "Difficult to read.")
        } else if num < 60 * den {
            ("10th to 12th grade", "Fairly difficult to read.")
        } else if num < 70 * den {
            ("8th & 9th grade", "Plain English. Easily understood by 13- to 15-year-old students.")
        } else if num < 80 * den {
            ("7th grade", "Fairly easy to read.")
        } else if num < 90 * den {
            ("6th grade", "Easy to read. Conversational English for consumers.")
        } else {
            ("5th grade", "Very easy to read. Easily understood by an average 11-year-old student.")
        }
    }
}

/// A Flesch-Kincaid grade level: an exact fraction of at least 1, the
/// approximate U.S. school grade needed to follow the text.
pub struct GradeLevel {
    num: i128,
    den: i128,
}

impl GradeLevel {
    /// The numerator of the score fraction.
    pub closed spec fn num(&self) -> int {
        self.num as int
    }

    /// The denominator of the score fraction.
    pub closed spec fn den(&self) -> int {
        self.den as int
    }

    /// A valid grade: a positive denominator and a value of at least 1.
    pub open spec fn wf(&self) -> bool {
        0 < self.den() && self.den() <= self.num()
    }

    /// The integer part of the grade.
    pub open spec fn whole_grades(&self) -> int {
        self.num() / self.den()
    }

    /// Wraps an already-floored fraction.
    pub(crate) fn from_fraction(num: i128, den: i128) -> (r: GradeLevel)
        requires
            0 < den <= num,
        ensures
            r.num() == num,
            r.den() == den,
            r.wf(),
    {
        GradeLevel { num, den }
    }

    /// Builds a grade from a fraction computed elsewhere, so that its label
    /// can be looked up; `None` unless the fraction is a valid floored
    /// grade.
    pub fn new(num: i128, den: i128) -> (r: Option<GradeLevel>)
        ensures
            r matches Some(g) ==> g.num() == num && g.den() == den && g.wf(),
            r is Some <==> (0 < den <= num),
    {
        if 0 < den && den <= num {
            Some(GradeLevel { num, den })
        } else {
            None
        }
    }

    /// The numerator of the score fraction.
    pub fn numerator(&self) -> (n: i128)
        ensures
            n == self.num(),
    {
        self.num
    }

    /// The denominator of the score fraction.
    pub fn denominator(&self) -> (d: i128)
        ensures
            d == self.den(),
    {
        self.den
    }

    /// The ordinal label of the grade's integer part, such as "1st grade"
    /// or "11th grade".
    pub fn description(&self) -> (r: String)
        requires
            self.wf(),
        ensures
            r@ == grade_label(self.whole_grades()),
    {
        let num = self.num as u128;
        let den = self.den as u128;
        let k = num / den;
        proof {
            assert(k == self.whole_grades());
            assert(k >= 1) by {
                vstd::arithmetic::div_mod::lemma_div_is_ordered(
                    self.den(),
                    self.num(),
                    self.den(),
                );
                vstd::arithmetic::div_mod::lemma_div_by_self(self.den());
            };
        }
        if k == 1 {
            String::from_str("1st grade")
        } else if k == 2 {
            String::from_str("2nd grade")
        } else if k == 3 {
            String::from_str("3rd grade")
        } else {
            let mut s = String::new();
            push_decimal(&mut s, k);
            s.append("th grade");
            proof {
                assert(s@ =~= decimal_digits(k as nat) + "th grade"@);
            }
            s
        }
    }
}

/// Appends the digit character for `d`.
fn append_digit(s: &mut String, d: u128)
    requires
        d < 10,
    ensures
        final(s)@ == old(s)@.push(digit_char(d as nat)),
{
    if d == 0 {
        s.append("0");
        proof {
            reveal_strlit("0");
            assert(s@ =~= old(s)@.push('0'));
        }
    } else if d == 1 {
        s.append("1");
        proof {
            reveal_strlit("1");
            assert(s@ =~= old(s)@.push('1'));
        }
    } else if d == 2 {
        s.append("2");
        proof {
            reveal_strlit("2");
            assert(s@ =~= old(s)@.push('2'));
        }
    } else if d == 3 {
        s.append("3");
        proof {
            reveal_strlit("3");
            assert(s@ =~= old(s)@.push('3'));
        }
    } else if d == 4 {
        s.append("4");
        proof {
            reveal_strlit("4");
            assert(s@ =~= old(s)@.push('4'));
        }
    } else if d == 5 {
        s.append("5");
        proof {
            reveal_strlit("5");
            assert(s@ =~= old(s)@.push('5'));
        }
    } else if d == 6 {
        s.append("6");
        proof {
            reveal_strlit("6");
            assert(s@ =~= old(s)@.push('6'));
        }
    } else if d == 7 {
        s.append("7");
        proof {
            reveal_strlit("7");
            assert(s@ =~= old(s)@.push('7'));
        }
    } else if d == 8 {
        s.append("8");
        proof {
            reveal_strlit("8");
            assert(s@ =~= old(s)@.push('8'));
        }
    } else {
        s.append("9");
        proof {
            reveal_strlit("9");
            assert(s@ =~= old(s)@.push('9'));
        }
    }
}

/// Appends the decimal digits of `n`, most significant first.
fn push_decimal(s: &mut String, n: u128)
    ensures
        final(s)@ == old(s)@ + decimal_digits(n as nat),
    decreases n,
{
    if n >= 10 {
        push_decimal(s, n / 10);
        append_digit(s, n % 10);
        proof {
            assert(s@ =~= old(s)@ + decimal_digits(n as nat));
        }
    } else {
        append_digit(s, n);
        proof {
            assert(s@ =~= old(s)@ + decimal_digits(n as nat));
        }
    }
}

} // verus!
