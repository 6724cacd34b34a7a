//! Removal engine: for each sub-category, a copy of the input with every
//! character of that category deleted and all other characters kept in
//! their original order.

use std::borrow::Cow;
use vstd::prelude::*;

use crate::classify::HebrewCategory;
use crate::classify::category_matches;
use crate::classify::char_in_category;

verus! {

/// The characters of `s` that do not belong to `cat`, in order.
pub open spec fn removed(s: Seq<char>, cat: HebrewCategory) -> Seq<char> {
    s.filter(|c: char| !category_matches(cat, c))
}

/// Removal looks at one character at a time: extending the input by one
/// character extends the result by that character, or not, depending only
/// on that character's category.
pub proof fn lemma_removed_push(s: Seq<char>, cat: HebrewCategory, c: char)
    ensures
        removed(s.push(c), cat) == if category_matches(cat, c) {
            removed(s, cat)
        } else {
            removed(s, cat).push(c)
        },
{
    reveal(Seq::filter);
    assert(s.push(c).drop_last() =~= s);
    assert(s.push(c).last() == c);
}

/// Relies on `String::from_iter`: collecting a vector of characters
/// yields the string of exactly those characters, in order.
#[verifier::external_body]
pub(crate) fn chars_to_string(v: Vec<char>) -> (r: String)
    ensures
        r@ == v@,
{
    String::from_iter(v)
}

/// One linear pass dropping every character of the chosen category.
fn drop_category<'a>(string: &'a str, cat: HebrewCategory) -> (r: Cow<'a, str>)
    ensures
        r@ == removed(string@, cat),
{
    let len = string.unicode_len();
    let mut kept: Vec<char> = Vec::new();
    let mut i: usize = 0;
    while i < len
        invariant
            len == string@.len(),
            i <= len,
            kept@ == removed(string@.subrange(0, i as int), cat),
        decreases len - i,
    {
        let c = string.get_char(i);
        if !char_in_category(cat, c) {
            kept.push(c);
        }
        proof {
            let pre = string@.subrange(0, i as int);
            assert(string@.subrange(0, i + 1) == pre.push(c));
            lemma_removed_push(pre, cat, c);
        }
        i = i + 1;
    }
    proof {
        assert(string@.subrange(0, len as int) == string@);
    }
    Cow::Owned(chars_to_string(kept))
}

/// Removes every character of the Hebrew block from the given string.
pub fn remove_hbr_block(string: &str) -> (r: Cow<'_, str>)
    ensures
        r@ == removed(string@, HebrewCategory::Block),
{
    drop_category(string, HebrewCategory::Block)
}

/// Removes every Hebrew accent from the given string.
pub fn remove_hbr_accent(string: &str) -> (r: Cow<'_, str>)
    ensures
        r@ == removed(string@, HebrewCategory::Accent),
{
    drop_category(string, HebrewCategory::Accent)
}

/// Removes every Hebrew mark from the given string.
pub fn remove_hbr_mark(string: &str) -> (r: Cow<'_, str>)
    ensures
        r@ == removed(string@, HebrewCategory::Mark),
{
    drop_category(string, HebrewCategory::Mark)
}

/// Removes every Hebrew point from the given string.
pub fn remove_hbr_point(string: &str) -> (r: Cow<'_, str>)
    ensures
        r@ == removed(string@, HebrewCategory::Point),
{
    drop_category(string, HebrewCategory::Point)
}

/// Removes every Hebrew vowel point from the given string.
pub fn remove_hbr_point_vowel(string: &str) -> (r: Cow<'_, str>)
    ensures
        r@ == removed(string@, HebrewCategory::PointVowel),
{
    drop_category(string, HebrewCategory::PointVowel)
}

/// Removes every Hebrew semi-vowel point from the given string.
pub fn remove_hbr_point_semi_vowel(string: &str) -> (r: Cow<'_, str>)
    ensures
        r@ == removed(string@, HebrewCategory::PointSemiVowel),
{
    drop_category(string, HebrewCategory::PointSemiVowel)
}

/// Removes every Hebrew reading sign from the given string.
pub fn remove_hbr_point_reading_sign(string: &str) -> (r: Cow<'_, str>)
    ensures
        r@ == removed(string@, HebrewCategory::PointReadingSign),
{
    drop_category(string, HebrewCategory::PointReadingSign)
}

/// Removes every Hebrew punctuation character from the given string.
pub fn remove_hbr_punctuation(string: &str) -> (r: Cow<'_, str>)
    ensures
        r@ == removed(string@, HebrewCategory::Punctuation),
{
    drop_category(string, HebrewCategory::Punctuation)
}

/// Removes every Hebrew consonant (normal and final) from the given string.
pub fn remove_hbr_consonant(string: &str) -> (r: Cow<'_, str>)
    ensures
        r@ == removed(string@, HebrewCategory::Consonant),
{
    drop_category(string, HebrewCategory::Consonant)
}

/// Removes every normal Hebrew consonant from the given string.
pub fn remove_hbr_consonant_normal(string: &str) -> (r: Cow<'_, str>)
    ensures
        r@ == removed(string@, HebrewCategory::ConsonantNormal),
{
    drop_category(string, HebrewCategory::ConsonantNormal)
}

/// Removes every final Hebrew consonant from the given string.
pub fn remove_hbr_consonant_final(string: &str) -> (r: Cow<'_, str>)
    ensures
        r@ == removed(string@, HebrewCategory::ConsonantFinal),
{
    drop_category(string, HebrewCategory::ConsonantFinal)
}

/// Removes every yod triangle from the given string.
pub fn remove_hbr_yod_triangle(string: &str) -> (r: Cow<'_, str>)
    ensures
        r@ == removed(string@, HebrewCategory::YodTriangle),
{
    drop_category(string, HebrewCategory::YodTriangle)
}

/// Removes every Yiddish ligature from the given string.
pub fn remove_hbr_ligature_yiddish(string: &str) -> (r: Cow<'_, str>)
    ensures
        r@ == removed(string@, HebrewCategory::LigatureYiddish),
{
    drop_category(string, HebrewCategory::LigatureYiddish)
}

} // verus!
