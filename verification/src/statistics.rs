//! Statistics engine: which sub-categories occur in a string, and how
//! often each Hebrew-block character occurs.

use vstd::hash_map::StringHashMap;
use vstd::prelude::*;

use crate::classify::char_is_accent;
use crate::classify::char_is_block;
use crate::classify::char_is_consonant_final;
use crate::classify::char_is_consonant_normal;
use crate::classify::char_is_ligature_yiddish;
use crate::classify::char_is_mark;
use crate::classify::char_is_point_reading_sign;
use crate::classify::char_is_point_semi_vowel;
use crate::classify::char_is_point_vowel;
use crate::classify::char_is_punctuation;
use crate::classify::char_is_whitespace;
use crate::classify::char_is_yod_triangle;
use crate::classify::is_accent;
use crate::classify::is_block;
use crate::classify::is_consonant_final;
use crate::classify::is_consonant_normal;
use crate::classify::is_ligature_yiddish;
use crate::classify::is_mark;
use crate::classify::is_point_reading_sign;
use crate::classify::is_point_semi_vowel;
use crate::classify::is_point_vowel;
use crate::classify::is_punctuation;
use crate::classify::is_unicode_whitespace;
use crate::classify::is_yod_triangle;

verus! {

// ---------------------------------------------------------------------------
// Category presence.
// ---------------------------------------------------------------------------

/// The leaf class a single character contributes to, under the fixed
/// precedence order; each character contributes to exactly one.
pub enum CharClass {
    Accent,
    ConsonantNormal,
    ConsonantFinal,
    LigatureYiddish,
    Mark,
    PointVowel,
    PointSemiVowel,
    PointReadingSign,
    Punctuation,
    YodTriangle,
    Whitespace,
    NonHebrew,
}

/// The fixed precedence order of the summary pass: the first matching
/// predicate decides; whitespace is looked at only after every Hebrew
/// predicate, and what matches nothing at all counts as non-Hebrew.
pub open spec fn char_class(c: char) -> CharClass {
    if is_accent(c) {
        CharClass::Accent
    } else if is_consonant_normal(c) {
        CharClass::ConsonantNormal
    } else if is_consonant_final(c) {
        CharClass::ConsonantFinal
    } else if is_ligature_yiddish(c) {
        CharClass::LigatureYiddish
    } else if is_mark(c) {
        CharClass::Mark
    } else if is_point_vowel(c) {
        CharClass::PointVowel
    } else if is_point_semi_vowel(c) {
        CharClass::PointSemiVowel
    } else if is_point_reading_sign(c) {
        CharClass::PointReadingSign
    } else if is_punctuation(c) {
        CharClass::Punctuation
    } else if is_yod_triangle(c) {
        CharClass::YodTriangle
    } else if is_unicode_whitespace(c) {
        CharClass::Whitespace
    } else {
        CharClass::NonHebrew
    }
}

/// Whether some character of `s` falls in class `cl`.
pub open spec fn class_seen(s: Seq<char>, cl: CharClass) -> bool {
    exists|i: int| 0 <= i < s.len() && char_class(s[i]) == cl
}

/// Extending the input by one character extends each presence flag by
/// exactly that character's class.
pub proof fn lemma_class_seen_push(s: Seq<char>, cl: CharClass, c: char)
    ensures
        class_seen(s.push(c), cl) == (class_seen(s, cl) || char_class(c) == cl),
{
    let t = s.push(c);
    assert(t[s.len() as int] == c);
    if class_seen(s, cl) {
        let i = choose|i: int| 0 <= i < s.len() && char_class(s[i]) == cl;
        assert(t[i] == s[i]);
        assert(class_seen(t, cl));
    }
    if char_class(c) == cl {
        assert(class_seen(t, cl));
    }
    if class_seen(t, cl) {
        let i = choose|i: int| 0 <= i < t.len() && char_class(t[i]) == cl;
        if i < s.len() {
            assert(t[i] == s[i]);
            assert(class_seen(s, cl));
        } else {
            assert(t[i] == c);
        }
    }
}

/// Which character classes occur in a string: one flag per leaf class,
/// with `consonant` and `point` always derived from their sub-kinds.
#[derive(Debug)]
pub struct HebrewCharacterTypes {
    pub accent: bool,
    pub consonant: bool,
    pub consonant_normal: bool,
    pub consonant_final: bool,
    pub ligature_yiddish: bool,
    pub mark: bool,
    pub point: bool,
    pub point_vowel: bool,
    pub point_semi_vowel: bool,
    pub point_reading_sign: bool,
    pub punctuation: bool,
    pub yod_triangle: bool,
    pub whitespace: bool,
    pub non_hebrew: bool,
}

/// One pass over the string, classifying each character by the fixed
/// precedence order, then deriving `consonant` and `point` from their
/// sub-kinds.
pub fn get_hbr_character_types(text: &str) -> (r: HebrewCharacterTypes)
    ensures
        r.accent == class_seen(text@, CharClass::Accent),
        r.consonant_normal == class_seen(text@, CharClass::ConsonantNormal),
        r.consonant_final == class_seen(text@, CharClass::ConsonantFinal),
        r.ligature_yiddish == class_seen(text@, CharClass::LigatureYiddish),
        r.mark == class_seen(text@, CharClass::Mark),
        r.point_vowel == class_seen(text@, CharClass::PointVowel),
        r.point_semi_vowel == class_seen(text@, CharClass::PointSemiVowel),
        r.point_reading_sign == class_seen(text@, CharClass::PointReadingSign),
        r.punctuation == class_seen(text@, CharClass::Punctuation),
        r.yod_triangle == class_seen(text@, CharClass::YodTriangle),
        r.whitespace == class_seen(text@, CharClass::Whitespace),
        r.non_hebrew == class_seen(text@, CharClass::NonHebrew),
        r.consonant == (r.consonant_normal || r.consonant_final),
        r.point == (r.point_vowel || r.point_semi_vowel || r.point_reading_sign),
{
    let mut found = HebrewCharacterTypes {
        accent: false,
        consonant: false,
        consonant_normal: false,
        consonant_final: false,
        ligature_yiddish: false,
        mark: false,
        point: false,
        point_vowel: false,
        point_semi_vowel: false,
        point_reading_sign: false,
        punctuation: false,
        yod_triangle: false,
        whitespace: false,
        non_hebrew: false,
    };
    let len = text.unicode_len();
    let mut i: usize = 0;
    while i < len
        invariant
            len == text@.len(),
            i <= len,
            found.accent == class_seen(text@.subrange(0, i as int), CharClass::Accent),
            found.consonant_normal == class_seen(
                text@.subrange(0, i as int),
                CharClass::ConsonantNormal,
            ),
            found.consonant_final == class_seen(
                text@.subrange(0, i as int),
                CharClass::ConsonantFinal,
            ),
            found.ligature_yiddish == class_seen(
                text@.subrange(0, i as int),
                CharClass::LigatureYiddish,
            ),
            found.mark == class_seen(text@.subrange(0, i as int), CharClass::Mark),
            found.point_vowel == class_seen(text@.subrange(0, i as int), CharClass::PointVowel),
            found.point_semi_vowel == class_seen(
                text@.subrange(0, i as int),
                CharClass::PointSemiVowel,
            ),
            found.point_reading_sign == class_seen(
                text@.subrange(0, i as int),
                CharClass::PointReadingSign,
            ),
            found.punctuation == class_seen(text@.subrange(0, i as int), CharClass::Punctuation),
            found.yod_triangle == class_seen(text@.subrange(0, i as int), CharClass::YodTriangle),
            found.whitespace == class_seen(text@.subrange(0, i as int), CharClass::Whitespace),
            found.non_hebrew == class_seen(text@.subrange(0, i as int), CharClass::NonHebrew),
            !found.consonant,
            !found.point,
        decreases len - i,
    {
        let c = text.get_char(i);
        if char_is_accent(c) {
            found.accent = true;
        } else if char_is_consonant_normal(c) {
            found.consonant_normal = true;
        } else if char_is_consonant_final(c) {
            found.consonant_final = true;
        } else if char_is_ligature_yiddish(c) {
            found.ligature_yiddish = true;
        } else if char_is_mark(c) {
            found.mark = true;
        } else if char_is_point_vowel(c) {
            found.point_vowel = true;
        } else if char_is_point_semi_vowel(c) {
            found.point_semi_vowel = true;
        } else if char_is_point_reading_sign(c) {
            found.point_reading_sign = true;
        } else if char_is_punctuation(c) {
            found.punctuation = true;
        } else if char_is_yod_triangle(c) {
            found.yod_triangle = true;
        } else if char_is_whitespace(c) {
            found.whitespace = true;
        } else {
            found.non_hebrew = true;
        }
        proof {
            let pre = text@.subrange(0, i as int);
            assert(text@.subrange(0, i + 1) == pre.push(c));
            lemma_class_seen_push(pre, CharClass::Accent, c);
            lemma_class_seen_push(pre, CharClass::ConsonantNormal, c);
            lemma_class_seen_push(pre, CharClass::ConsonantFinal, c);
            lemma_class_seen_push(pre, CharClass::LigatureYiddish, c);
            lemma_class_seen_push(pre, CharClass::Mark, c);
            lemma_class_seen_push(pre, CharClass::PointVowel, c);
            lemma_class_seen_push(pre, CharClass::PointSemiVowel, c);
            lemma_class_seen_push(pre, CharClass::PointReadingSign, c);
            lemma_class_seen_push(pre, CharClass::Punctuation, c);
            lemma_class_seen_push(pre, CharClass::YodTriangle, c);
            lemma_class_seen_push(pre, CharClass::Whitespace, c);
            lemma_class_seen_push(pre, CharClass::NonHebrew, c);
        }
        i = i + 1;
    }
    proof {
        assert(text@.subrange(0, len as int) == text@);
    }
    found.consonant = found.consonant_normal || found.consonant_final;
    found.point = found.point_vowel || found.point_semi_vowel || found.point_reading_sign;
    found
}

// ---------------------------------------------------------------------------
// Character frequency.
// ---------------------------------------------------------------------------

/// How often character `c` occurs in `s`.
pub open spec fn count_char(s: Seq<char>, c: char) -> nat {
    s.filter(|x: char| x == c).len()
}

/// How many characters of `s` lie in the Hebrew block.
pub open spec fn block_count(s: Seq<char>) -> nat {
    s.filter(|x: char| is_block(x)).len()
}

/// The frequency table of `s`: one entry per distinct Hebrew-block
/// character that occurs, keyed by its one-character string, holding its
/// number of occurrences.
pub open spec fn frequency_of(s: Seq<char>) -> Map<Seq<char>, usize> {
    Map::new(
        |k: Seq<char>| k.len() == 1 && is_block(k[0]) && count_char(s, k[0]) > 0,
        |k: Seq<char>| count_char(s, k[0]) as usize,
    )
}

/// Extending the input by one character raises that character's count by
/// one and leaves every other count alone.
pub proof fn lemma_count_push(s: Seq<char>, c: char, d: char)
    ensures
        count_char(s.push(d), c) == count_char(s, c) + (if d == c {
            1int
        } else {
            0int
        }),
{
    reveal(Seq::filter);
    assert(s.push(d).drop_last() =~= s);
    assert(s.push(d).last() == d);
}

/// A character cannot occur more often than the string is long.
pub proof fn lemma_count_le_len(s: Seq<char>, c: char)
    ensures
        count_char(s, c) <= s.len(),
    decreases s.len(),
{
    reveal(Seq::filter);
    if s.len() > 0 {
        lemma_count_le_len(s.drop_last(), c);
    }
}

/// Likewise for the number of Hebrew-block characters.
pub proof fn lemma_block_count_push(s: Seq<char>, d: char)
    ensures
        block_count(s.push(d)) == block_count(s) + (if is_block(d) {
            1int
        } else {
            0int
        }),
{
    reveal(Seq::filter);
    assert(s.push(d).drop_last() =~= s);
    assert(s.push(d).last() == d);
}

/// Extending the input by one character updates the frequency table at
/// that character's key alone, and only for Hebrew-block characters.
pub proof fn lemma_frequency_push(s: Seq<char>, c: char)
    ensures
        frequency_of(s.push(c)) == if is_block(c) {
            frequency_of(s).insert(seq![c], (count_char(s, c) + 1) as usize)
        } else {
            frequency_of(s)
        },
{
    let m1 = frequency_of(s.push(c));
    lemma_count_le_len(s, c);
    if is_block(c) {
        let m2 = frequency_of(s).insert(seq![c], (count_char(s, c) + 1) as usize);
        assert forall|k: Seq<char>| m1.dom().contains(k) == m2.dom().contains(k) by {
            if k.len() == 1 {
                lemma_count_push(s, k[0], c);
                if k[0] == c {
                    assert(k =~= seq![c]);
                }
            }
        }
        assert forall|k: Seq<char>| m1.dom().contains(k) implies m1[k] == m2[k] by {
            lemma_count_push(s, k[0], c);
            lemma_count_le_len(s, k[0]);
            if k[0] == c {
                assert(k =~= seq![c]);
            } else {
                assert(k != seq![c]);
            }
        }
        assert(m1 =~= m2);
    } else {
        let m2 = frequency_of(s);
        assert forall|k: Seq<char>| m1.dom().contains(k) == m2.dom().contains(k) by {
            if k.len() == 1 && is_block(k[0]) {
                lemma_count_push(s, k[0], c);
            }
        }
        assert forall|k: Seq<char>| m1.dom().contains(k) implies m1[k] == m2[k] by {
            lemma_count_push(s, k[0], c);
        }
        assert(m1 =~= m2);
    }
}

/// Relies on `char::to_string`: the string of exactly the one character.
#[verifier::external_body]
fn char_to_string(c: char) -> (r: String)
    ensures
        r@ == seq![c],
{
    c.to_string()
}

/// One pass over the string, counting each Hebrew-block character;
/// characters outside the block leave no entry at all.
pub fn get_hbr_character_frequency(s: &str) -> (r: StringHashMap<usize>)
    ensures
        r@ == frequency_of(s@),
{
    let mut freq = StringHashMap::<usize>::new();
    proof {
        assert(freq@ =~= frequency_of(s@.subrange(0, 0)));
    }
    let len = s.unicode_len();
    let mut i: usize = 0;
    while i < len
        invariant
            len == s@.len(),
            i <= len,
            freq@ == frequency_of(s@.subrange(0, i as int)),
        decreases len - i,
    {
        let c = s.get_char(i);
        proof {
            let pre = s@.subrange(0, i as int);
            assert(s@.subrange(0, i + 1) == pre.push(c));
            lemma_count_le_len(pre, c);
            lemma_frequency_push(pre, c);
        }
        if char_is_block(c) {
            let key = char_to_string(c);
            let count: usize = match freq.get(key.as_str()) {
                Some(n) => *n,
                None => 0,
            };
            proof {
                let pre = s@.subrange(0, i as int);
                assert(count == count_char(pre, c));
            }
            freq.insert(key, count + 1);
        }
        i = i + 1;
    }
    proof {
        assert(s@.subrange(0, len as int) == s@);
    }
    freq
}

} // verus!
