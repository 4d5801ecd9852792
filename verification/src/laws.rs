//! Library-wide laws, each stated over the same spec functions that the
//! executable functions' contracts use.

use vstd::prelude::*;

use crate::engine::estimated_syllables;
use crate::score::clamped_ease;
use crate::score::clamped_grade;
use crate::score::decimal_digits;
use crate::score::ease_band;
use crate::score::grade_label;
use crate::scorer::Totals;
use crate::scorer::accumulate;
use crate::text::sentence_tally;

verus! {

/// Every chunk of text counts as at least one sentence, punctuated or not.
pub proof fn lemma_sentence_floor(t: Seq<char>)
    ensures
        sentence_tally(t) >= 1,
{
}

/// Every word is estimated at one syllable or more.
pub proof fn lemma_syllable_floor(w: Seq<char>)
    ensures
        estimated_syllables(w) >= 1,
{
}

/// Accumulation is order-independent: adding chunks `a` then `b` reaches
/// the same totals as adding `b` then `a`. (Joining two chunks into one is
/// a different operation: words and sentence runs can merge at the seam.)
pub proof fn lemma_accumulate_commutes(t: Totals, a: Seq<char>, b: Seq<char>)
    ensures
        accumulate(accumulate(t, a), b) == accumulate(accumulate(t, b), a),
{
}

/// The clamped reading ease lies in [0, 100] whatever the count ratios.
pub proof fn lemma_ease_in_range(words: int, sentences: int, syllables: int)
    requires
        words >= 1,
        sentences >= 1,
        syllables >= 0,
    ensures
        ({
            let (num, den) = clamped_ease(words, sentences, syllables);
            0 < den && 0 <= num <= 100 * den
        }),
{
    assert(1000 * sentences * words >= 1000) by (nonlinear_arith)
        requires
            sentences >= 1,
            words >= 1,
    ;
}

/// The floored grade level is at least 1 whatever the count ratios.
pub proof fn lemma_grade_at_least_one(words: int, sentences: int, syllables: int)
    requires
        words >= 1,
        sentences >= 1,
        syllables >= 0,
    ensures
        ({
            let (num, den) = clamped_grade(words, sentences, syllables);
            0 < den <= num
        }),
{
    assert(1000 * sentences * words >= 1000) by (nonlinear_arith)
        requires
            sentences >= 1,
            words >= 1,
    ;
}

/// The value `num / den` lies in band `b` of the descriptor table: eight
/// contiguous half-open bands over [0, 100], the last closed above.
pub open spec fn in_band(b: int, num: int, den: int) -> bool {
    if b == 0 {
        0 * den <= num < 10 * den
    } else if b == 1 {
        10 * den <= num < 30 * den
    } else if b == 2 {
        30 * den <= num < 50 * den
    } else if b == 3 {
        50 * den <= num < 60 * den
    } else if b == 4 {
        60 * den <= num < 70 * den
    } else if b == 5 {
        70 * den <= num < 80 * den
    } else if b == 6 {
        80 * den <= num < 90 * den
    } else if b == 7 {
        90 * den <= num <= 100 * den
    } else {
        false
    }
}

/// Descriptor lookup is total and unambiguous: every clamped score falls
/// into exactly one band, and a value on a boundary belongs to the band
/// above it, which is the one the lookup picks.
pub proof fn lemma_bands_partition(num: int, den: int)
    requires
        den > 0,
        0 <= num <= 100 * den,
    ensures
        0 <= ease_band(num, den) < 8,
        forall|b: int| in_band(b, num, den) <==> b == ease_band(num, den),
{
}

/// The grade labels of the first grades and of grade 11: "1st", "2nd" and
/// "3rd" are special, while 11 takes the plain "th" suffix.
pub proof fn lemma_grade_ordinals()
    ensures
        grade_label(1) == "1st grade"@,
        grade_label(2) == "2nd grade"@,
        grade_label(3) == "3rd grade"@,
        grade_label(11) == "11th grade"@,
{
    reveal_strlit("11th grade");
    reveal_strlit("th grade");
    reveal_strlit("1");
    assert(decimal_digits(1) == seq!['1']);
    assert(decimal_digits(11) =~= seq!['1', '1']);
    assert(grade_label(11) =~= "11th grade"@);
}

} // verus!
