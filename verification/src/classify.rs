//! Per-character classification of the Hebrew Unicode block.
//!
//! The executable classification itself is delegated to the
//! `hebrew_unicode_script` crate; this module states, as spec
//! predicates over the character's code point, exactly which characters
//! each of its predicates accepts, so that every string operation built
//! on top of them can carry an exact contract.

use hebrew_unicode_script::HebrewUnicodeScript;
use vstd::prelude::*;

verus! {

// ---------------------------------------------------------------------------
// Spec predicates: one per leaf category, mirroring the code-point ranges
// of the Hebrew Unicode block.
// ---------------------------------------------------------------------------

/// Cantillation accents, U+0591 ..= U+05AE.
pub open spec fn is_accent(c: char) -> bool {
    0x0591 <= c as u32 <= 0x05AE
}

/// Combining marks: lower dot U+05AF, upper dot U+05C4, masora circle U+05C5.
pub open spec fn is_mark(c: char) -> bool {
    c as u32 == 0x05AF || c as u32 == 0x05C4 || c as u32 == 0x05C5
}

/// Vowel points: hiriq through qubuts U+05B4 ..= U+05BB, and qamats qatan U+05C7.
pub open spec fn is_point_vowel(c: char) -> bool {
    0x05B4 <= c as u32 <= 0x05BB || c as u32 == 0x05C7
}

/// Semi-vowel points: sheva and the hataf points, U+05B0 ..= U+05B3.
pub open spec fn is_point_semi_vowel(c: char) -> bool {
    0x05B0 <= c as u32 <= 0x05B3
}

/// Reading signs: dagesh/mapiq U+05BC, meteg U+05BD, rafe U+05BF,
/// shin dot U+05C1, sin dot U+05C2.
pub open spec fn is_point_reading_sign(c: char) -> bool {
    c as u32 == 0x05BC || c as u32 == 0x05BD || c as u32 == 0x05BF || c as u32 == 0x05C1 || c
        as u32 == 0x05C2
}

/// A point of any kind; always derived from the three sub-kinds.
pub open spec fn is_point(c: char) -> bool {
    is_point_vowel(c) || is_point_semi_vowel(c) || is_point_reading_sign(c)
}

/// Punctuation: maqaf U+05BE, paseq U+05C0, sof pasuq U+05C3,
/// nun hafukha U+05C6, geresh U+05F3, gershayim U+05F4.
pub open spec fn is_punctuation(c: char) -> bool {
    c as u32 == 0x05BE || c as u32 == 0x05C0 || c as u32 == 0x05C3 || c as u32 == 0x05C6 || c
        as u32 == 0x05F3 || c as u32 == 0x05F4
}

/// The twenty-two normal consonants: U+05D0 ..= U+05EA minus the five
/// final forms.
pub open spec fn is_consonant_normal(c: char) -> bool {
    0x05D0 <= c as u32 <= 0x05D9 || c as u32 == 0x05DB || c as u32 == 0x05DC || c as u32 == 0x05DE
        || 0x05E0 <= c as u32 <= 0x05E2 || c as u32 == 0x05E4 || 0x05E6 <= c as u32 <= 0x05EA
}

/// The five final consonant forms: kaf U+05DA, mem U+05DD, nun U+05DF,
/// pe U+05E3, tsadi U+05E5.
pub open spec fn is_consonant_final(c: char) -> bool {
    c as u32 == 0x05DA || c as u32 == 0x05DD || c as u32 == 0x05DF || c as u32 == 0x05E3 || c
        as u32 == 0x05E5
}

/// A consonant of either form; always derived from the two sub-kinds.
pub open spec fn is_consonant(c: char) -> bool {
    is_consonant_normal(c) || is_consonant_final(c)
}

/// The yod triangle ligature, U+05EF.
pub open spec fn is_yod_triangle(c: char) -> bool {
    c as u32 == 0x05EF
}

/// The Yiddish digraph ligatures, U+05F0 ..= U+05F2.
pub open spec fn is_ligature_yiddish(c: char) -> bool {
    0x05F0 <= c as u32 <= 0x05F2
}

/// Membership in the Hebrew block: the union of every leaf category.
/// A character outside the block matches no Hebrew predicate at all.
pub open spec fn is_block(c: char) -> bool {
    is_accent(c) || is_mark(c) || is_point(c) || is_punctuation(c) || is_consonant(c)
        || is_yod_triangle(c) || is_ligature_yiddish(c)
}

// ---------------------------------------------------------------------------
// Trusted boundary: the classification calls, one wrapper per predicate.
// ---------------------------------------------------------------------------

/// Relies on `hebrew_unicode_script::HebrewUnicodeScript::is_hbr_accent`:
/// true exactly for the cantillation accents U+0591 ..= U+05AE.
#[verifier::external_body]
pub(crate) fn char_is_accent(c: char) -> (r: bool)
    ensures
        r == is_accent(c),
{
    c.is_hbr_accent()
}

/// Relies on `hebrew_unicode_script::HebrewUnicodeScript::is_hbr_mark`:
/// true exactly for U+05AF, U+05C4 and U+05C5.
#[verifier::external_body]
pub(crate) fn char_is_mark(c: char) -> (r: bool)
    ensures
        r == is_mark(c),
{
    c.is_hbr_mark()
}

/// Relies on `hebrew_unicode_script::HebrewUnicodeScript::is_hbr_point_vowel`:
/// true exactly for U+05B4 ..= U+05BB and U+05C7.
#[verifier::external_body]
pub(crate) fn char_is_point_vowel(c: char) -> (r: bool)
    ensures
        r == is_point_vowel(c),
{
    c.is_hbr_point_vowel()
}

/// Relies on `hebrew_unicode_script::HebrewUnicodeScript::is_hbr_point_semi_vowel`:
/// true exactly for U+05B0 ..= U+05B3.
#[verifier::external_body]
pub(crate) fn char_is_point_semi_vowel(c: char) -> (r: bool)
    ensures
        r == is_point_semi_vowel(c),
{
    c.is_hbr_point_semi_vowel()
}

/// Relies on `hebrew_unicode_script::HebrewUnicodeScript::is_hbr_point_reading_sign`:
/// true exactly for U+05BC, U+05BD, U+05BF, U+05C1 and U+05C2.
#[verifier::external_body]
pub(crate) fn char_is_point_reading_sign(c: char) -> (r: bool)
    ensures
        r == is_point_reading_sign(c),
{
    c.is_hbr_point_reading_sign()
}

/// Relies on `hebrew_unicode_script::HebrewUnicodeScript::is_hbr_point`:
/// the union of the vowel, semi-vowel and reading-sign points.
#[verifier::external_body]
pub(crate) fn char_is_point(c: char) -> (r: bool)
    ensures
        r == is_point(c),
{
    c.is_hbr_point()
}

/// Relies on `hebrew_unicode_script::HebrewUnicodeScript::is_hbr_punctuation`:
/// true exactly for U+05BE, U+05C0, U+05C3, U+05C6, U+05F3 and U+05F4.
#[verifier::external_body]
pub(crate) fn char_is_punctuation(c: char) -> (r: bool)
    ensures
        r == is_punctuation(c),
{
    c.is_hbr_punctuation()
}

/// Relies on `hebrew_unicode_script::HebrewUnicodeScript::is_hbr_consonant_normal`:
/// true exactly for the twenty-two normal consonants.
#[verifier::external_body]
pub(crate) fn char_is_consonant_normal(c: char) -> (r: bool)
    ensures
        r == is_consonant_normal(c),
{
    c.is_hbr_consonant_normal()
}

/// Relies on `hebrew_unicode_script::HebrewUnicodeScript::is_hbr_consonant_final`:
/// true exactly for the five final consonant forms.
#[verifier::external_body]
pub(crate) fn char_is_consonant_final(c: char) -> (r: bool)
    ensures
        r == is_consonant_final(c),
{
    c.is_hbr_consonant_final()
}

/// Relies on `hebrew_unicode_script::HebrewUnicodeScript::is_hbr_consonant`:
/// the union of the normal and final consonants.
#[verifier::external_body]
pub(crate) fn char_is_consonant(c: char) -> (r: bool)
    ensures
        r == is_consonant(c),
{
    c.is_hbr_consonant()
}

/// Relies on `hebrew_unicode_script::HebrewUnicodeScript::is_hbr_yod_triangle`:
/// true exactly for U+05EF.
#[verifier::external_body]
pub(crate) fn char_is_yod_triangle(c: char) -> (r: bool)
    ensures
        r == is_yod_triangle(c),
{
    c.is_hbr_yod_triangle()
}

/// Relies on `hebrew_unicode_script::HebrewUnicodeScript::is_hbr_ligature_yiddish`:
/// true exactly for U+05F0 ..= U+05F2.
#[verifier::external_body]
pub(crate) fn char_is_ligature_yiddish(c: char) -> (r: bool)
    ensures
        r == is_ligature_yiddish(c),
{
    c.is_hbr_ligature_yiddish()
}

/// Relies on `hebrew_unicode_script::HebrewUnicodeScript::is_hbr_block`:
/// the union of every leaf category of the block.
#[verifier::external_body]
pub(crate) fn char_is_block(c: char) -> (r: bool)
    ensures
        r == is_block(c),
{
    c.is_hbr_block()
}

/// Whether a character counts as whitespace; a fact of the character alone.
pub uninterp spec fn is_unicode_whitespace(c: char) -> bool;

/// Relies on `char::is_whitespace`: whether the character has the Unicode
/// `White_Space` property, which depends on the character alone.
#[verifier::external_body]
pub(crate) fn char_is_whitespace(c: char) -> (r: bool)
    ensures
        r == is_unicode_whitespace(c),
{
    c.is_whitespace()
}

// ---------------------------------------------------------------------------
// The category taxonomy as a value, so that each traversal is written and
// verified once and instantiated per category.
// ---------------------------------------------------------------------------

/// The thirteen sub-categories a Hebrew-block character can be filtered by.
#[derive(Clone, Copy, PartialEq, Eq, Structural, Debug)]
pub enum HebrewCategory {
    Block,
    Accent,
    Mark,
    Point,
    PointVowel,
    PointSemiVowel,
    PointReadingSign,
    Punctuation,
    Consonant,
    ConsonantNormal,
    ConsonantFinal,
    YodTriangle,
    LigatureYiddish,
}

/// Which characters a category covers.
pub open spec fn category_matches(cat: HebrewCategory, c: char) -> bool {
    match cat {
        HebrewCategory::Block => is_block(c),
        HebrewCategory::Accent => is_accent(c),
        HebrewCategory::Mark => is_mark(c),
        HebrewCategory::Point => is_point(c),
        HebrewCategory::PointVowel => is_point_vowel(c),
        HebrewCategory::PointSemiVowel => is_point_semi_vowel(c),
        HebrewCategory::PointReadingSign => is_point_reading_sign(c),
        HebrewCategory::Punctuation => is_punctuation(c),
        HebrewCategory::Consonant => is_consonant(c),
        HebrewCategory::ConsonantNormal => is_consonant_normal(c),
        HebrewCategory::ConsonantFinal => is_consonant_final(c),
        HebrewCategory::YodTriangle => is_yod_triangle(c),
        HebrewCategory::LigatureYiddish => is_ligature_yiddish(c),
    }
}

/// Decides membership of one character in one category, through the
/// classification boundary above.
pub fn char_in_category(cat: HebrewCategory, c: char) -> (r: bool)
    ensures
        r == category_matches(cat, c),
{
    match cat {
        HebrewCategory::Block => char_is_block(c),
        HebrewCategory::Accent => char_is_accent(c),
        HebrewCategory::Mark => char_is_mark(c),
        HebrewCategory::Point => char_is_point(c),
        HebrewCategory::PointVowel => char_is_point_vowel(c),
        HebrewCategory::PointSemiVowel => char_is_point_semi_vowel(c),
        HebrewCategory::PointReadingSign => char_is_point_reading_sign(c),
        HebrewCategory::Punctuation => char_is_punctuation(c),
        HebrewCategory::Consonant => char_is_consonant(c),
        HebrewCategory::ConsonantNormal => char_is_consonant_normal(c),
        HebrewCategory::ConsonantFinal => char_is_consonant_final(c),
        HebrewCategory::YodTriangle => char_is_yod_triangle(c),
        HebrewCategory::LigatureYiddish => char_is_ligature_yiddish(c),
    }
}

/// Every category only ever covers characters of the Hebrew block.
pub proof fn lemma_category_in_block(cat: HebrewCategory, c: char)
    ensures
        category_matches(cat, c) ==> is_block(c),
{
}

} // verus!
