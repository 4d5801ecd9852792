//! The fixed matcher patterns: the word pattern and the two hand-tuned
//! exception-pattern tables for the syllable estimate.
//!
//! The tables are a tuned data asset: the score depends on these exact
//! strings, their order-independent "count of distinct matching patterns"
//! use, and case-insensitive matching. Each table is pinned to a spec
//! constant, so the engine's construction contract can name exactly what
//! is compiled.

use vstd::prelude::*;

verus! {

/// The views of a sequence of pattern strings.
pub open spec fn views_of(ps: Seq<&str>) -> Seq<Seq<char>> {
    ps.map_values(|s: &str| s@)
}

/// The word pattern as the contracts speak of it: a maximal run of Unicode
/// letters, optionally two runs joined by one hyphen or apostrophe.
pub open spec fn spec_word_pattern() -> Seq<char> {
    r"\b(\p{L}+(?:[-']\p{L}+)?)\b"@
}

/// The word pattern handed to the matcher builder.
pub(crate) fn word_pattern() -> (p: &'static str)
    ensures
        p@ == spec_word_pattern(),
{
    r"\b(\p{L}+(?:[-']\p{L}+)?)\b"
}

spec fn spec_add_table_part0() -> Seq<Seq<char>> {
    seq![r"-in\b"@, r"[bcdfgkopt]led\b"@, r"[bdprz]ion"@, r"[cdehlorn]ue\b"@, r"[drv]ious"@, r"[eior]ed\b"@, r"[il]e\b"@, r"[io]er\b"@, r"\bcoe"@, r"\bcyp"@]
}

spec fn spec_add_table_part1() -> Seq<Seq<char>> {
    seq![r"\bdya"@, r"\bhy"@, r"\bio"@, r"\bmc"@, r"\breali"@, r"\breass"@, r"\breen"@, r"\brein"@, r"\breun"@, r"ae\b"@]
}

spec fn spec_add_table_part2() -> Seq<Seq<char>> {
    seq![r"aic\b"@, r"aue"@, r"bre\b"@, r"bys"@, r"ce's"@, r"ch'"@, r"ciano"@, r"ciat"@, r"coordi"@, r"cre\b"@]
}

spec fn spec_add_table_part3() -> Seq<Seq<char>> {
    seq![r"creat"@, r"croat"@, r"cua"@, r"ded\b"@, r"dien"@, r"dl\b"@, r"dre\b"@, r"dua"@, r"dys"@, r"ea\b"@]
}

spec fn spec_add_table_part4() -> Seq<Seq<char>> {
    seq![r"eact"@, r"eand"@, r"ee\b"@, r"eely\b"@, r"eeman\b"@, r"eemp"@, r"eex"@, r"eing\b"@, r"eo"@, r"eum\b"@]
}

spec fn spec_add_table_part5() -> Seq<Seq<char>> {
    seq![r"fluen"@, r"fred\b"@, r"ge's"@, r"gyp"@, r"he'"@, r"heroi"@, r"ia"@, r"iale\b"@, r"iello\b"@, r"ienn"@]
}

spec fn spec_add_table_part6() -> Seq<Seq<char>> {
    seq![r"iest\b"@, r"iet"@, r"ifiers"@, r"io[mpr]"@, r"io\b"@, r"ioc"@, r"iod"@, r"iog"@, r"iol"@, r"ione\b"@]
}

spec fn spec_add_table_part7() -> Seq<Seq<char>> {
    seq![r"iore\b"@, r"ios"@, r"iot"@, r"iu"@, r"leman\b"@, r"lement"@, r"linea"@, r"lione"@, r"loui"@, r"lua"@]
}

spec fn spec_add_table_part8() -> Seq<Seq<char>> {
    seq![r"ly[dehops]"@, r"mye"@, r"nte\b"@, r"ntes\b"@, r"nua"@, r"nucle"@, r"nyd"@, r"nys"@, r"oa\b"@, r"oe\b"@]
}

spec fn spec_add_table_part9() -> Seq<Seq<char>> {
    seq![r"oers\b"@, r"oincid"@, r"oing"@, r"oniou"@, r"oua"@, r"phys"@, r"pre\b"@, r"rean"@, r"reapp"@, r"rearr"@]
}

spec fn spec_add_table_part10() -> Seq<Seq<char>> {
    seq![r"rient"@, r"rua"@, r"rya"@, r"ryd"@, r"rye"@, r"ryo"@, r"ryp"@, r"rys"@, r"s'"@, r"scien"@]
}

spec fn spec_add_table_part11() -> Seq<Seq<char>> {
    seq![r"se's"@, r"sh's\b"@, r"sms?\b"@, r"ted\b"@, r"theat"@, r"tke\b"@, r"tl\b"@, r"tre\b"@, r"tres\b"@, r"tua"@]
}

spec fn spec_add_table_part12() -> Seq<Seq<char>> {
    seq![r"tui"@, r"typ"@, r"tys"@, r"uing"@, r"uou"@, r"x'"@, r"xual"@, r"y[bckglmnrstwxv]"@, r"y\b"@, r"ying\b"@]
}

spec fn spec_add_table_part13() -> Seq<Seq<char>> {
    seq![r"yst"@, r"yz"@, r"z's\b"@]
}

/// The syllable-adding table as the contracts speak of it.
pub closed spec fn spec_add_table() -> Seq<Seq<char>> {
    spec_add_table_part0() + spec_add_table_part1() + spec_add_table_part2() + spec_add_table_part3() + spec_add_table_part4() + spec_add_table_part5() + spec_add_table_part6() + spec_add_table_part7() + spec_add_table_part8() + spec_add_table_part9() + spec_add_table_part10() + spec_add_table_part11() + spec_add_table_part12() + spec_add_table_part13()
}

fn push_add_part0(pats: &mut Vec<&'static str>)
    ensures
        views_of(final(pats)@) == views_of(old(pats)@) + spec_add_table_part0(),
{
    pats.push(r"-in\b");
    pats.push(r"[bcdfgkopt]led\b");
    pats.push(r"[bdprz]ion");
    pats.push(r"[cdehlorn]ue\b");
    pats.push(r"[drv]ious");
    pats.push(r"[eior]ed\b");
    pats.push(r"[il]e\b");
    pats.push(r"[io]er\b");
    pats.push(r"\bcoe");
    pats.push(r"\bcyp");
    proof {
        assert(views_of(pats@) =~= views_of(old(pats)@) + spec_add_table_part0());
    }
}

fn push_add_part1(pats: &mut Vec<&'static str>)
    ensures
        views_of(final(pats)@) == views_of(old(pats)@) + spec_add_table_part1(),
{
    pats.push(r"\bdya");
    pats.push(r"\bhy");
    pats.push(r"\bio");
    pats.push(r"\bmc");
    pats.push(r"\breali");
    pats.push(r"\breass");
    pats.push(r"\breen");
    pats.push(r"\brein");
    pats.push(r"\breun");
    pats.push(r"ae\b");
    proof {
        assert(views_of(pats@) =~= views_of(old(pats)@) + spec_add_table_part1());
    }
}

fn push_add_part2(pats: &mut Vec<&'static str>)
    ensures
        views_of(final(pats)@) == views_of(old(pats)@) + spec_add_table_part2(),
{
    pats.push(r"aic\b");
    pats.push(r"aue");
    pats.push(r"bre\b");
    pats.push(r"bys");
    pats.push(r"ce's");
    pats.push(r"ch'");
    pats.push(r"ciano");
    pats.push(r"ciat");
    pats.push(r"coordi");
    pats.push(r"cre\b");
    proof {
        assert(views_of(pats@) =~= views_of(old(pats)@) + spec_add_table_part2());
    }
}

fn push_add_part3(pats: &mut Vec<&'static str>)
    ensures
        views_of(final(pats)@) == views_of(old(pats)@) + spec_add_table_part3(),
{
    pats.push(r"creat");
    pats.push(r"croat");
    pats.push(r"cua");
    pats.push(r"ded\b");
    pats.push(r"dien");
    pats.push(r"dl\b");
    pats.push(r"dre\b");
    pats.push(r"dua");
    pats.push(r"dys");
    pats.push(r"ea\b");
    proof {
        assert(views_of(pats@) =~= views_of(old(pats)@) + spec_add_table_part3());
    }
}

fn push_add_part4(pats: &mut Vec<&'static str>)
    ensures
        views_of(final(pats)@) == views_of(old(pats)@) + spec_add_table_part4(),
{
    pats.push(r"eact");
    pats.push(r"eand");
    pats.push(r"ee\b");
    pats.push(r"eely\b");
    pats.push(r"eeman\b");
    pats.push(r"eemp");
    pats.push(r"eex");
    pats.push(r"eing\b");
    pats.push(r"eo");
    pats.push(r"eum\b");
    proof {
        assert(views_of(pats@) =~= views_of(old(pats)@) + spec_add_table_part4());
    }
}

fn push_add_part5(pats: &mut Vec<&'static str>)
    ensures
        views_of(final(pats)@) == views_of(old(pats)@) + spec_add_table_part5(),
{
    pats.push(r"fluen");
    pats.push(r"fred\b");
    pats.push(r"ge's");
    pats.push(r"gyp");
    pats.push(r"he'");
    pats.push(r"heroi");
    pats.push(r"ia");
    pats.push(r"iale\b");
    pats.push(r"iello\b");
    pats.push(r"ienn");
    proof {
        assert(views_of(pats@) =~= views_of(old(pats)@) + spec_add_table_part5());
    }
}

fn push_add_part6(pats: &mut Vec<&'static str>)
    ensures
        views_of(final(pats)@) == views_of(old(pats)@) + spec_add_table_part6(),
{
    pats.push(r"iest\b");
    pats.push(r"iet");
    pats.push(r"ifiers");
    pats.push(r"io[mpr]");
    pats.push(r"io\b");
    pats.push(r"ioc");
    pats.push(r"iod");
    pats.push(r"iog");
    pats.push(r"iol");
    pats.push(r"ione\b");
    proof {
        assert(views_of(pats@) =~= views_of(old(pats)@) + spec_add_table_part6());
    }
}

fn push_add_part7(pats: &mut Vec<&'static str>)
    ensures
        views_of(final(pats)@) == views_of(old(pats)@) + spec_add_table_part7(),
{
    pats.push(r"iore\b");
    pats.push(r"ios");
    pats.push(r"iot");
    pats.push(r"iu");
    pats.push(r"leman\b");
    pats.push(r"lement");
    pats.push(r"linea");
    pats.push(r"lione");
    pats.push(r"loui");
    pats.push(r"lua");
    proof {
        assert(views_of(pats@) =~= views_of(old(pats)@) + spec_add_table_part7());
    }
}

fn push_add_part8(pats: &mut Vec<&'static str>)
    ensures
        views_of(final(pats)@) == views_of(old(pats)@) + spec_add_table_part8(),
{
    pats.push(r"ly[dehops]");
    pats.push(r"mye");
    pats.push(r"nte\b");
    pats.push(r"ntes\b");
    pats.push(r"nua");
    pats.push(r"nucle");
    pats.push(r"nyd");
    pats.push(r"nys");
    pats.push(r"oa\b");
    pats.push(r"oe\b");
    proof {
        assert(views_of(pats@) =~= views_of(old(pats)@) + spec_add_table_part8());
    }
}

fn push_add_part9(pats: &mut Vec<&'static str>)
    ensures
        views_of(final(pats)@) == views_of(old(pats)@) + spec_add_table_part9(),
{
    pats.push(r"oers\b");
    pats.push(r"oincid");
    pats.push(r"oing");
    pats.push(r"oniou");
    pats.push(r"oua");
    pats.push(r"phys");
    pats.push(r"pre\b");
    pats.push(r"rean");
    pats.push(r"reapp");
    pats.push(r"rearr");
    proof {
        assert(views_of(pats@) =~= views_of(old(pats)@) + spec_add_table_part9());
    }
}

fn push_add_part10(pats: &mut Vec<&'static str>)
    ensures
        views_of(final(pats)@) == views_of(old(pats)@) + spec_add_table_part10(),
{
    pats.push(r"rient");
    pats.push(r"rua");
    pats.push(r"rya");
    pats.push(r"ryd");
    pats.push(r"rye");
    pats.push(r"ryo");
    pats.push(r"ryp");
    pats.push(r"rys");
    pats.push(r"s'");
    pats.push(r"scien");
    proof {
        assert(views_of(pats@) =~= views_of(old(pats)@) + spec_add_table_part10());
    }
}

fn push_add_part11(pats: &mut Vec<&'static str>)
    ensures
        views_of(final(pats)@) == views_of(old(pats)@) + spec_add_table_part11(),
{
    pats.push(r"se's");
    pats.push(r"sh's\b");
    pats.push(r"sms?\b");
    pats.push(r"ted\b");
    pats.push(r"theat");
    pats.push(r"tke\b");
    pats.push(r"tl\b");
    pats.push(r"tre\b");
    pats.push(r"tres\b");
    pats.push(r"tua");
    proof {
        assert(views_of(pats@) =~= views_of(old(pats)@) + spec_add_table_part11());
    }
}

fn push_add_part12(pats: &mut Vec<&'static str>)
    ensures
        views_of(final(pats)@) == views_of(old(pats)@) + spec_add_table_part12(),
{
    pats.push(r"tui");
    pats.push(r"typ");
    pats.push(r"tys");
    pats.push(r"uing");
    pats.push(r"uou");
    pats.push(r"x'");
    pats.push(r"xual");
    pats.push(r"y[bckglmnrstwxv]");
    pats.push(r"y\b");
    pats.push(r"ying\b");
    proof {
        assert(views_of(pats@) =~= views_of(old(pats)@) + spec_add_table_part12());
    }
}

fn push_add_part13(pats: &mut Vec<&'static str>)
    ensures
        views_of(final(pats)@) == views_of(old(pats)@) + spec_add_table_part13(),
{
    pats.push(r"yst");
    pats.push(r"yz");
    pats.push(r"z's\b");
    proof {
        assert(views_of(pats@) =~= views_of(old(pats)@) + spec_add_table_part13());
    }
}

/// Spelling patterns that mark a syllable the vowel-group count misses.
/// Each matching pattern adds one to a word's estimate.
pub(crate) fn add_patterns() -> (v: Vec<&'static str>)
    ensures
        views_of(v@) == spec_add_table(),
{
    let mut pats: Vec<&'static str> = Vec::new();
    proof {
        assert(views_of(pats@) =~= Seq::<Seq<char>>::empty());
    }
    push_add_part0(&mut pats);
    push_add_part1(&mut pats);
    push_add_part2(&mut pats);
    push_add_part3(&mut pats);
    push_add_part4(&mut pats);
    push_add_part5(&mut pats);
    push_add_part6(&mut pats);
    push_add_part7(&mut pats);
    push_add_part8(&mut pats);
    push_add_part9(&mut pats);
    push_add_part10(&mut pats);
    push_add_part11(&mut pats);
    push_add_part12(&mut pats);
    push_add_part13(&mut pats);
    proof {
        assert(views_of(pats@) =~= spec_add_table());
    }
    pats
}
spec fn spec_sub_table_part0() -> Seq<Seq<char>> {
    seq![r"[aeilouy]le\b"@, r"[aeo]ym"@, r"[ao]les\b"@, r"[kmrpbdtnvrw]es\b"@, r"\bey"@, r"\bfore"@, r"\bgia"@, r"\bhome"@, r"\bhym"@, r"\blife"@]
}

spec fn spec_sub_table_part1() -> Seq<Seq<char>> {
    seq![r"\breine"@, r"\bspace"@, r"\bstone"@, r"\bwhite"@, r"arriag"@, r"ay[bclntrw]"@, r"ay\b"@, r"aying\b"@, r"busine"@, r"cia"@]
}

spec fn spec_sub_table_part2() -> Seq<Seq<char>> {
    seq![r"e\b"@, r"ed\b"@, r"eful"@, r"ehol"@, r"ehou"@, r"ekeep"@, r"eless"@, r"ely\b"@, r"eman\b"@, r"ement"@]
}

spec fn spec_sub_table_part3() -> Seq<Seq<char>> {
    seq![r"eness\b"@, r"eout"@, r"eover"@, r"estone"@, r"esvil"@, r"every"@, r"eway"@, r"ey\b"@, r"eyb"@, r"eyc"@]
}

spec fn spec_sub_table_part4() -> Seq<Seq<char>> {
    seq![r"eyin"@, r"eyl"@, r"eyn"@, r"eyw"@, r"geon"@, r"georg"@, r"geou"@, r"gior"@, r"giu"@, r"gues\b"@]
}

spec fn spec_sub_table_part5() -> Seq<Seq<char>> {
    seq![r"ically"@, r"iles\b"@, r"iliar"@, r"illia"@, r"lles\b"@, r"lyst"@, r"oseb"@, r"oy[cln]"@, r"oy\b"@, r"oying\b"@]
}

spec fn spec_sub_table_part6() -> Seq<Seq<char>> {
    seq![r"oyk"@, r"people"@, r"piet"@, r"ques\b"@, r"ryst"@, r"sewo"@, r"sian\b"@, r"somet"@, r"tia([nl]s)?\b"@, r"tia[nl]?\b"@]
}

spec fn spec_sub_table_part7() -> Seq<Seq<char>> {
    seq![r"ules\b"@, r"velan"@, r"vior"@, r"yles"@]
}

/// The syllable-subtracting table as the contracts speak of it.
pub closed spec fn spec_sub_table() -> Seq<Seq<char>> {
    spec_sub_table_part0() + spec_sub_table_part1() + spec_sub_table_part2() + spec_sub_table_part3() + spec_sub_table_part4() + spec_sub_table_part5() + spec_sub_table_part6() + spec_sub_table_part7()
}

fn push_sub_part0(pats: &mut Vec<&'static str>)
    ensures
        views_of(final(pats)@) == views_of(old(pats)@) + spec_sub_table_part0(),
{
    pats.push(r"[aeilouy]le\b");
    pats.push(r"[aeo]ym");
    pats.push(r"[ao]les\b");
    pats.push(r"[kmrpbdtnvrw]es\b");
    pats.push(r"\bey");
    pats.push(r"\bfore");
    pats.push(r"\bgia");
    pats.push(r"\bhome");
    pats.push(r"\bhym");
    pats.push(r"\blife");
    proof {
        assert(views_of(pats@) =~= views_of(old(pats)@) + spec_sub_table_part0());
    }
}

fn push_sub_part1(pats: &mut Vec<&'static str>)
    ensures
        views_of(final(pats)@) == views_of(old(pats)@) + spec_sub_table_part1(),
{
    pats.push(r"\breine");
    pats.push(r"\bspace");
    pats.push(r"\bstone");
    pats.push(r"\bwhite");
    pats.push(r"arriag");
    pats.push(r"ay[bclntrw]");
    pats.push(r"ay\b");
    pats.push(r"aying\b");
    pats.push(r"busine");
    pats.push(r"cia");
    proof {
        assert(views_of(pats@) =~= views_of(old(pats)@) + spec_sub_table_part1());
    }
}

fn push_sub_part2(pats: &mut Vec<&'static str>)
    ensures
        views_of(final(pats)@) == views_of(old(pats)@) + spec_sub_table_part2(),
{
    pats.push(r"e\b");
    pats.push(r"ed\b");
    pats.push(r"eful");
    pats.push(r"ehol");
    pats.push(r"ehou");
    pats.push(r"ekeep");
    pats.push(r"eless");
    pats.push(r"ely\b");
    pats.push(r"eman\b");
    pats.push(r"ement");
    proof {
        assert(views_of(pats@) =~= views_of(old(pats)@) + spec_sub_table_part2());
    }
}

fn push_sub_part3(pats: &mut Vec<&'static str>)
    ensures
        views_of(final(pats)@) == views_of(old(pats)@) + spec_sub_table_part3(),
{
    pats.push(r"eness\b");
    pats.push(r"eout");
    pats.push(r"eover");
    pats.push(r"estone");
    pats.push(r"esvil");
    pats.push(r"every");
    pats.push(r"eway");
    pats.push(r"ey\b");
    pats.push(r"eyb");
    pats.push(r"eyc");
    proof {
        assert(views_of(pats@) =~= views_of(old(pats)@) + spec_sub_table_part3());
    }
}

fn push_sub_part4(pats: &mut Vec<&'static str>)
    ensures
        views_of(final(pats)@) == views_of(old(pats)@) + spec_sub_table_part4(),
{
    pats.push(r"eyin");
    pats.push(r"eyl");
    pats.push(r"eyn");
    pats.push(r"eyw");
    pats.push(r"geon");
    pats.push(r"georg");
    pats.push(r"geou");
    pats.push(r"gior");
    pats.push(r"giu");
    pats.push(r"gues\b");
    proof {
        assert(views_of(pats@) =~= views_of(old(pats)@) + spec_sub_table_part4());
    }
}

fn push_sub_part5(pats: &mut Vec<&'static str>)
    ensures
        views_of(final(pats)@) == views_of(old(pats)@) + spec_sub_table_part5(),
{
    pats.push(r"ically");
    pats.push(r"iles\b");
    pats.push(r"iliar");
    pats.push(r"illia");
    pats.push(r"lles\b");
    pats.push(r"lyst");
    pats.push(r"oseb");
    pats.push(r"oy[cln]");
    pats.push(r"oy\b");
    pats.push(r"oying\b");
    proof {
        assert(views_of(pats@) =~= views_of(old(pats)@) + spec_sub_table_part5());
    }
}

fn push_sub_part6(pats: &mut Vec<&'static str>)
    ensures
        views_of(final(pats)@) == views_of(old(pats)@) + spec_sub_table_part6(),
{
    pats.push(r"oyk");
    pats.push(r"people");
    pats.push(r"piet");
    pats.push(r"ques\b");
    pats.push(r"ryst");
    pats.push(r"sewo");
    pats.push(r"sian\b");
    pats.push(r"somet");
    pats.push(r"tia([nl]s)?\b");
    pats.push(r"tia[nl]?\b");
    proof {
        assert(views_of(pats@) =~= views_of(old(pats)@) + spec_sub_table_part6());
    }
}

fn push_sub_part7(pats: &mut Vec<&'static str>)
    ensures
        views_of(final(pats)@) == views_of(old(pats)@) + spec_sub_table_part7(),
{
    pats.push(r"ules\b");
    pats.push(r"velan");
    pats.push(r"vior");
    pats.push(r"yles");
    proof {
        assert(views_of(pats@) =~= views_of(old(pats)@) + spec_sub_table_part7());
    }
}

/// Spelling patterns that mark a vowel group erroneously counted as a
/// syllable. Each matching pattern subtracts one from a word's estimate.
pub(crate) fn sub_patterns() -> (v: Vec<&'static str>)
    ensures
        views_of(v@) == spec_sub_table(),
{
    let mut pats: Vec<&'static str> = Vec::new();
    proof {
        assert(views_of(pats@) =~= Seq::<Seq<char>>::empty());
    }
    push_sub_part0(&mut pats);
    push_sub_part1(&mut pats);
    push_sub_part2(&mut pats);
    push_sub_part3(&mut pats);
    push_sub_part4(&mut pats);
    push_sub_part5(&mut pats);
    push_sub_part6(&mut pats);
    push_sub_part7(&mut pats);
    proof {
        assert(views_of(pats@) =~= spec_sub_table());
    }
    pats
}
} // verus!
