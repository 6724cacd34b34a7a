//! Display engine: for each sub-category, a copy of the input where a
//! Hebrew-block character survives only if it is a consonant or belongs
//! to the chosen sub-category; characters outside the block always pass
//! through unchanged.

use std::borrow::Cow;
use vstd::prelude::*;

use crate::classify::HebrewCategory;
use crate::classify::category_matches;
use crate::classify::char_in_category;
use crate::classify::char_is_block;
use crate::classify::char_is_consonant;
use crate::classify::is_block;
use crate::classify::is_consonant;
use crate::removing::chars_to_string;

verus! {

/// Whether the target of a display pass is itself a consonant category;
/// those passes use the target predicate alone, so that, say, a pass for
/// the normal consonants really drops the final ones.
pub open spec fn targets_consonants(cat: HebrewCategory) -> bool {
    cat is Consonant || cat is ConsonantNormal || cat is ConsonantFinal
}

/// Whether a character survives a display pass for `cat`: everything
/// outside the Hebrew block does, and inside the block only consonants
/// and the characters of `cat` do.
pub open spec fn shown_char(cat: HebrewCategory, c: char) -> bool {
    if targets_consonants(cat) {
        !is_block(c) || category_matches(cat, c)
    } else {
        !is_block(c) || is_consonant(c) || category_matches(cat, c)
    }
}

/// The characters of `s` that survive a display pass for `cat`, in order.
pub open spec fn shown(s: Seq<char>, cat: HebrewCategory) -> Seq<char> {
    s.filter(|c: char| shown_char(cat, c))
}

/// Display looks at one character at a time: extending the input by one
/// character extends the result by that character, or not, depending only
/// on that character.
pub proof fn lemma_shown_push(s: Seq<char>, cat: HebrewCategory, c: char)
    ensures
        shown(s.push(c), cat) == if shown_char(cat, c) {
            shown(s, cat).push(c)
        } else {
            shown(s, cat)
        },
{
    reveal(Seq::filter);
    assert(s.push(c).drop_last() =~= s);
    assert(s.push(c).last() == c);
}

/// One linear pass keeping non-Hebrew characters, consonants, and the
/// characters of the chosen category.
fn keep_category<'a>(string: &'a str, cat: HebrewCategory) -> (r: Cow<'a, str>)
    ensures
        r@ == shown(string@, cat),
{
    let len = string.unicode_len();
    let mut kept: Vec<char> = Vec::new();
    let mut i: usize = 0;
    while i < len
        invariant
            len == string@.len(),
            i <= len,
            kept@ == shown(string@.subrange(0, i as int), cat),
        decreases len - i,
    {
        let c = string.get_char(i);
        let keep = match cat {
            HebrewCategory::Consonant | HebrewCategory::ConsonantNormal
                | HebrewCategory::ConsonantFinal => !char_is_block(c) || char_in_category(cat, c),
            _ => !char_is_block(c) || char_is_consonant(c) || char_in_category(cat, c),
        };
        if keep {
            kept.push(c);
        }
        proof {
            let pre = string@.subrange(0, i as int);
            assert(string@.subrange(0, i + 1) == pre.push(c));
            lemma_shown_push(pre, cat, c);
        }
        i = i + 1;
    }
    proof {
        assert(string@.subrange(0, len as int) == string@);
    }
    Cow::Owned(chars_to_string(kept))
}

/// Shows the consonants and every Hebrew accent of the given string.
pub fn show_hbr_accent(string: &str) -> (r: Cow<'_, str>)
    ensures
        r@ == shown(string@, HebrewCategory::Accent),
{
    keep_category(string, HebrewCategory::Accent)
}

/// Shows the consonants and every Hebrew mark of the given string.
pub fn show_hbr_mark(string: &str) -> (r: Cow<'_, str>)
    ensures
        r@ == shown(string@, HebrewCategory::Mark),
{
    keep_category(string, HebrewCategory::Mark)
}

/// Shows the consonants and every Hebrew point of the given string.
pub fn show_hbr_point(string: &str) -> (r: Cow<'_, str>)
    ensures
        r@ == shown(string@, HebrewCategory::Point),
{
    keep_category(string, HebrewCategory::Point)
}

/// Shows the consonants and every Hebrew vowel point of the given string.
pub fn show_hbr_point_vowel(string: &str) -> (r: Cow<'_, str>)
    ensures
        r@ == shown(string@, HebrewCategory::PointVowel),
{
    keep_category(string, HebrewCategory::PointVowel)
}

/// Shows the consonants and every Hebrew semi-vowel point of the given string.
pub fn show_hbr_point_semi_vowel(string: &str) -> (r: Cow<'_, str>)
    ensures
        r@ == shown(string@, HebrewCategory::PointSemiVowel),
{
    keep_category(string, HebrewCategory::PointSemiVowel)
}

/// Shows the consonants and every Hebrew reading sign of the given string.
pub fn show_hbr_point_reading_sign(string: &str) -> (r: Cow<'_, str>)
    ensures
        r@ == shown(string@, HebrewCategory::PointReadingSign),
{
    keep_category(string, HebrewCategory::PointReadingSign)
}

/// Shows the consonants and every Hebrew punctuation character of the
/// given string.
pub fn show_hbr_punctuation(string: &str) -> (r: Cow<'_, str>)
    ensures
        r@ == shown(string@, HebrewCategory::Punctuation),
{
    keep_category(string, HebrewCategory::Punctuation)
}

/// Shows only the consonants (normal and final) of the given string.
pub fn show_hbr_consonant(string: &str) -> (r: Cow<'_, str>)
    ensures
        r@ == shown(string@, HebrewCategory::Consonant),
{
    keep_category(string, HebrewCategory::Consonant)
}

/// Shows only the normal consonants of the given string.
pub fn show_hbr_consonant_normal(string: &str) -> (r: Cow<'_, str>)
    ensures
        r@ == shown(string@, HebrewCategory::ConsonantNormal),
{
    keep_category(string, HebrewCategory::ConsonantNormal)
}

/// Shows only the final consonants of the given string.
pub fn show_hbr_consonant_final(string: &str) -> (r: Cow<'_, str>)
    ensures
        r@ == shown(string@, HebrewCategory::ConsonantFinal),
{
    keep_category(string, HebrewCategory::ConsonantFinal)
}

/// Shows the consonants and every yod triangle of the given string.
pub fn show_hbr_yod_triangle(string: &str) -> (r: Cow<'_, str>)
    ensures
        r@ == shown(string@, HebrewCategory::YodTriangle),
{
    keep_category(string, HebrewCategory::YodTriangle)
}

/// Shows the consonants and every Yiddish ligature of the given string.
pub fn show_hbr_ligature_yiddish(string: &str) -> (r: Cow<'_, str>)
    ensures
        r@ == shown(string@, HebrewCategory::LigatureYiddish),
{
    keep_category(string, HebrewCategory::LigatureYiddish)
}

} // verus!
