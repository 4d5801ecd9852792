//! Tests for the readability engine: counting, scoring and descriptors.

use kincaid::GradeLevel;
use kincaid::Kincaid;
use kincaid::ReadingEase;

#[test]
fn test_syllables_in_text() {
    let kincaid = Kincaid::new().unwrap();
    assert_eq!(kincaid.syllable_count(""), 0);
    assert_eq!(kincaid.syllable_count("Hello"), 2);
    assert_eq!(kincaid.syllable_count("Hello World"), 3);
    assert_eq!(kincaid.syllable_count("Test-case"), 2);
    assert_eq!(kincaid.syllable_count("Hello, World! This is a test"), 7);
    assert_eq!(kincaid.syllable_count("Zylka"), 2);
}

#[test]
fn test_syllables_in_word() {
    let kincaid = Kincaid::new().unwrap();
    assert_eq!(kincaid.syllables_in_word("unaware"), 3);
    assert_eq!(kincaid.syllables_in_word("sum"), 1);
    assert_eq!(kincaid.syllables_in_word("some"), 1);
    assert_eq!(kincaid.syllables_in_word("pernicious"), 3);
    assert_eq!(kincaid.syllables_in_word("egregious"), 3);
}

#[test]
fn test_word_count() {
    let kincaid = Kincaid::new().unwrap();
    assert_eq!(kincaid.word_count("sample text"), 2);
    assert_eq!(kincaid.word_count("$5 only"), 1);
    assert_eq!(kincaid.word_count("This is noted in the book(1)"), 6);
    assert_eq!(
        kincaid.word_count(
            "A sentence that's long\u{e2}\u{20ac}\u{201d}very-long, and contains some real world stuff;funny!"
        ),
        12
    );
}

#[test]
fn test_sentence_count() {
    let kincaid = Kincaid::new().unwrap();
    assert_eq!(kincaid.sentence_count(""), 1);
    assert_eq!(kincaid.sentence_count("no terminal punctuation"), 1);
    assert_eq!(kincaid.sentence_count("One. Two! Three?? Four"), 3);
    assert_eq!(kincaid.sentence_count("Wait... what?!"), 2);
}

#[test]
fn test_word_count_empty_and_numbers() {
    let kincaid = Kincaid::new().unwrap();
    assert_eq!(kincaid.word_count(""), 0);
    assert_eq!(kincaid.word_count("12 34 56"), 0);
}

#[test]
fn test_accumulation_order_irrelevant() {
    let kincaid = Kincaid::new().unwrap();
    let mut ab = kincaid.scorer();
    assert!(ab.try_add("Hello, World! This is a test"));
    assert!(ab.try_add("Another sentence. And one more?"));
    let mut ba = kincaid.scorer();
    assert!(ba.try_add("Another sentence. And one more?"));
    assert!(ba.try_add("Hello, World! This is a test"));
    assert_eq!(ab.words(), ba.words());
    assert_eq!(ab.syllables(), ba.syllables());
    assert_eq!(ab.sentences(), ba.sentences());
}

#[test]
fn test_scorer_totals() {
    let kincaid = Kincaid::new().unwrap();
    let mut scorer = kincaid.scorer();
    assert_eq!(scorer.words(), 0);
    assert_eq!(scorer.syllables(), 0);
    assert_eq!(scorer.sentences(), 0);
    assert!(scorer.try_add("Hello World"));
    assert_eq!(scorer.words(), 2);
    assert_eq!(scorer.syllables(), 3);
    assert_eq!(scorer.sentences(), 1);
    assert!(scorer.try_add("Hello, World! This is a test"));
    assert_eq!(scorer.words(), 8);
    assert_eq!(scorer.syllables(), 10);
    assert_eq!(scorer.sentences(), 2);
}

#[test]
fn test_empty_chunk_still_counts_a_sentence() {
    let kincaid = Kincaid::new().unwrap();
    let mut scorer = kincaid.scorer();
    assert!(scorer.try_add(""));
    assert_eq!(scorer.words(), 0);
    assert_eq!(scorer.sentences(), 1);
}

#[test]
fn test_reading_ease_exact_fraction() {
    let kincaid = Kincaid::new().unwrap();
    // "Hello World": 2 words, 1 sentence, 3 syllables.
    // 206.835 - 1.015 * 2 - 84.6 * 3 / 2 = 77.905.
    let ease = kincaid.try_reading_ease("Hello World").unwrap();
    assert_eq!(ease.numerator(), 155810);
    assert_eq!(ease.denominator(), 2000);
    assert_eq!(ease.numerator() as f64 / ease.denominator() as f64, 77.905);
    assert_eq!(ease.description().0, "7th grade");
}

#[test]
fn test_grade_level_exact_fraction() {
    let kincaid = Kincaid::new().unwrap();
    // "Hello World": 0.39 * 2 + 11.8 * 3 / 2 - 15.9 = 2.58.
    let grade = kincaid.try_grade_level("Hello World").unwrap();
    assert_eq!(grade.numerator(), 5160);
    assert_eq!(grade.denominator(), 2000);
    assert_eq!(grade.numerator() as f64 / grade.denominator() as f64, 2.58);
    assert_eq!(grade.description(), "2nd grade");
}

#[test]
fn test_single_short_word_scores() {
    let kincaid = Kincaid::new().unwrap();
    // One word, one syllable, and the sentence floor of 1 keeps the
    // formulas defined; the raw ease exceeds 100 and is clamped, the raw
    // grade is negative and is floored.
    let ease = kincaid.try_reading_ease("sum").unwrap();
    assert_eq!(ease.numerator(), 100 * ease.denominator());
    assert_eq!(ease.description().0, "5th grade");
    let grade = kincaid.try_grade_level("sum").unwrap();
    assert_eq!(grade.numerator(), grade.denominator());
    assert_eq!(grade.description(), "1st grade");
}

#[test]
fn test_wordless_text_has_no_score() {
    let kincaid = Kincaid::new().unwrap();
    assert!(kincaid.try_reading_ease("").is_none());
    assert!(kincaid.try_reading_ease("1234 ...").is_none());
    assert!(kincaid.try_grade_level("").is_none());
    assert!(kincaid.try_grade_level("$5 + $6").is_none());
}

#[test]
fn test_ease_band_boundaries() {
    // A value on a band boundary belongs to the band above it.
    let cases: [(i128, &str); 9] = [
        (0, "Professional"),
        (10, "College graduate"),
        (30, "College"),
        (50, "10th to 12th grade"),
        (60, "8th & 9th grade"),
        (70, "7th grade"),
        (80, "6th grade"),
        (90, "5th grade"),
        (100, "5th grade"),
    ];
    for (value, short) in cases {
        let ease = ReadingEase::new(value * 1000, 1000).unwrap();
        assert_eq!(ease.description().0, short);
    }
}

#[test]
fn test_ease_band_interiors() {
    let descriptors = ReadingEase::new(9999, 1000).unwrap().description();
    assert_eq!(descriptors.0, "Professional");
    assert_eq!(
        descriptors.1,
        "Extremely difficult to read. Best understood by university graduates."
    );
    let descriptors = ReadingEase::new(29999, 1000).unwrap().description();
    assert_eq!(descriptors.0, "College graduate");
    let descriptors = ReadingEase::new(65432, 1000).unwrap().description();
    assert_eq!(descriptors.0, "8th & 9th grade");
    assert_eq!(
        descriptors.1,
        "Plain English. Easily understood by 13- to 15-year-old students."
    );
}

#[test]
fn test_ease_rejects_out_of_range_fractions() {
    assert!(ReadingEase::new(-1, 1000).is_none());
    assert!(ReadingEase::new(100001, 1000).is_none());
    assert!(ReadingEase::new(50, 0).is_none());
    assert!(ReadingEase::new(50, -10).is_none());
    assert!(ReadingEase::new(100000, 1000).is_some());
}

#[test]
fn test_grade_labels() {
    let cases: [(i128, &str); 7] = [
        (1000, "1st grade"),
        (2500, "2nd grade"),
        (3999, "3rd grade"),
        (4000, "4th grade"),
        (11500, "11th grade"),
        (13000, "13th grade"),
        (21000, "21th grade"),
    ];
    for (num, label) in cases {
        let grade = GradeLevel::new(num, 1000).unwrap();
        assert_eq!(grade.description(), label);
    }
}

#[test]
fn test_grade_rejects_out_of_range_fractions() {
    assert!(GradeLevel::new(999, 1000).is_none());
    assert!(GradeLevel::new(1000, 0).is_none());
    assert!(GradeLevel::new(-2000, -1000).is_none());
    assert!(GradeLevel::new(1000, 1000).is_some());
}

#[test]
fn test_cloned_engine_scores_alike() {
    let kincaid = Kincaid::new().unwrap();
    let copy = kincaid.clone();
    assert_eq!(
        kincaid.syllable_count("Hello, World! This is a test"),
        copy.syllable_count("Hello, World! This is a test")
    );
    assert_eq!(kincaid.word_count("sample text"), copy.word_count("sample text"));
}

#[test]
fn test_one_shot_matches_scorer_path() {
    let kincaid = Kincaid::new().unwrap();
    let mut scorer = kincaid.scorer();
    assert!(scorer.try_add("Hello, World! This is a test"));
    let one_shot = kincaid.try_reading_ease("Hello, World! This is a test").unwrap();
    let stepped = scorer.reading_ease();
    assert_eq!(one_shot.numerator(), stepped.numerator());
    assert_eq!(one_shot.denominator(), stepped.denominator());
    let one_shot = kincaid.try_grade_level("Hello, World! This is a test").unwrap();
    let stepped = scorer.grade_level();
    assert_eq!(one_shot.numerator(), stepped.numerator());
    assert_eq!(one_shot.denominator(), stepped.denominator());
}
