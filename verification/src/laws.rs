//! Whole-string laws of the three engines: what holds of removal,
//! display and the frequency table on every input.

use vstd::prelude::*;

use crate::classify::HebrewCategory;
use crate::classify::category_matches;
use crate::classify::is_block;
use crate::classify::is_consonant_final;
use crate::classify::lemma_category_in_block;
use crate::removing::lemma_removed_push;
use crate::removing::removed;
use crate::showing::lemma_shown_push;
use crate::showing::shown;
use crate::statistics::block_count;
use crate::statistics::count_char;
use crate::statistics::frequency_of;
use crate::statistics::lemma_block_count_push;
use crate::statistics::lemma_count_le_len;
use crate::statistics::lemma_frequency_push;

verus! {

/// Removal is idempotent: removing a category from a string it was
/// already removed from changes nothing, for every category.
pub proof fn lemma_removed_idempotent(s: Seq<char>, cat: HebrewCategory)
    ensures
        removed(removed(s, cat), cat) == removed(s, cat),
    decreases s.len(),
{
    if s.len() == 0 {
        reveal(Seq::filter);
    } else {
        let t = s.drop_last();
        let c = s.last();
        assert(t.push(c) =~= s);
        lemma_removed_idempotent(t, cat);
        lemma_removed_push(t, cat, c);
        if !category_matches(cat, c) {
            lemma_removed_push(removed(t, cat), cat, c);
        }
    }
}

/// No character of the removed category survives a removal pass.
pub proof fn lemma_removed_excludes(s: Seq<char>, cat: HebrewCategory)
    ensures
        forall|i: int|
            0 <= i < removed(s, cat).len() ==> !category_matches(
                cat,
                #[trigger] removed(s, cat)[i],
            ),
    decreases s.len(),
{
    if s.len() == 0 {
        reveal(Seq::filter);
    } else {
        let t = s.drop_last();
        let c = s.last();
        assert(t.push(c) =~= s);
        lemma_removed_excludes(t, cat);
        lemma_removed_push(t, cat, c);
    }
}

/// A display pass only ever keeps characters of its input: any property
/// of every input character holds of every output character.
pub proof fn lemma_shown_preserves(s: Seq<char>, cat: HebrewCategory, p: spec_fn(char) -> bool)
    requires
        forall|i: int| 0 <= i < s.len() ==> p(#[trigger] s[i]),
    ensures
        forall|i: int| 0 <= i < shown(s, cat).len() ==> p(#[trigger] shown(s, cat)[i]),
    decreases s.len(),
{
    if s.len() == 0 {
        reveal(Seq::filter);
    } else {
        let t = s.drop_last();
        let c = s.last();
        assert(t.push(c) =~= s);
        assert(forall|i: int| 0 <= i < t.len() ==> p(#[trigger] t[i]));
        lemma_shown_preserves(t, cat, p);
        lemma_shown_push(t, cat, c);
    }
}

/// Removing the final consonants and then displaying the consonant
/// skeleton never reintroduces them: the composition holds no final
/// consonant.
pub proof fn lemma_show_consonant_after_remove_final(s: Seq<char>)
    ensures
        forall|i: int|
            0 <= i < shown(
                removed(s, HebrewCategory::ConsonantFinal),
                HebrewCategory::Consonant,
            ).len() ==> !is_consonant_final(
                #[trigger] shown(
                    removed(s, HebrewCategory::ConsonantFinal),
                    HebrewCategory::Consonant,
                )[i],
            ),
{
    let u = removed(s, HebrewCategory::ConsonantFinal);
    lemma_removed_excludes(s, HebrewCategory::ConsonantFinal);
    lemma_shown_preserves(u, HebrewCategory::Consonant, |c: char| !is_consonant_final(c));
}

/// On a string without Hebrew-block characters, every removal pass and
/// every display pass is the identity, and the frequency table is empty.
pub proof fn lemma_non_hebrew_passthrough(s: Seq<char>, cat: HebrewCategory)
    requires
        forall|i: int| 0 <= i < s.len() ==> !is_block(#[trigger] s[i]),
    ensures
        removed(s, cat) == s,
        shown(s, cat) == s,
        frequency_of(s) == Map::<Seq<char>, usize>::empty(),
    decreases s.len(),
{
    if s.len() == 0 {
        reveal(Seq::filter);
        assert(removed(s, cat) =~= s);
        assert(shown(s, cat) =~= s);
        assert(frequency_of(s) =~= Map::<Seq<char>, usize>::empty());
    } else {
        let t = s.drop_last();
        let c = s.last();
        assert(t.push(c) =~= s);
        assert(forall|i: int| 0 <= i < t.len() ==> !is_block(#[trigger] t[i]));
        lemma_non_hebrew_passthrough(t, cat);
        lemma_category_in_block(cat, c);
        lemma_removed_push(t, cat, c);
        lemma_shown_push(t, cat, c);
        lemma_frequency_push(t, c);
        assert(removed(s, cat) =~= s);
        assert(shown(s, cat) =~= s);
    }
}

/// The total of all counts in a frequency table.
pub open spec fn total_count(m: Map<Seq<char>, usize>) -> int
    decreases m.dom().len() when m.dom().finite()
{
    if m.dom().finite() && m.dom().len() > 0 {
        let k = m.dom().choose();
        m[k] + total_count(m.remove(k))
    } else {
        0
    }
}

/// The total may be split off at any key of the table, not only the one
/// the definition happens to pick.
pub proof fn lemma_total_count_remove(m: Map<Seq<char>, usize>, k: Seq<char>)
    requires
        m.dom().finite(),
        m.dom().contains(k),
    ensures
        total_count(m) == m[k] + total_count(m.remove(k)),
    decreases m.dom().len(),
{
    let k0 = m.dom().choose();
    assert(m.dom().remove(k).len() == m.dom().len() - 1);
    if k0 == k {
    } else {
        lemma_total_count_remove(m.remove(k0), k);
        lemma_total_count_remove(m.remove(k), k0);
        assert(m.remove(k0).remove(k) =~= m.remove(k).remove(k0));
    }
}

/// Frequency conservation: the counts in the frequency table add up to
/// the number of Hebrew-block characters of the string.
pub proof fn lemma_frequency_conservation(s: Seq<char>)
    requires
        s.len() <= usize::MAX,
    ensures
        frequency_of(s).dom().finite(),
        total_count(frequency_of(s)) == block_count(s),
    decreases s.len(),
{
    if s.len() == 0 {
        reveal(Seq::filter);
        assert(frequency_of(s).dom() =~= Set::<Seq<char>>::empty());
    } else {
        let t = s.drop_last();
        let c = s.last();
        assert(t.push(c) =~= s);
        lemma_frequency_conservation(t);
        lemma_frequency_push(t, c);
        lemma_block_count_push(t, c);
        if is_block(c) {
            let k = seq![c];
            let m = frequency_of(t);
            let v = (count_char(t, c) + 1) as usize;
            lemma_count_le_len(t, c);
            assert(frequency_of(s) == m.insert(k, v));
            assert(m.insert(k, v).dom() =~= m.dom().insert(k));
            lemma_total_count_remove(m.insert(k, v), k);
            if m.dom().contains(k) {
                lemma_total_count_remove(m, k);
                assert(m.insert(k, v).remove(k) =~= m.remove(k));
            } else {
                assert(m.insert(k, v).remove(k) =~= m);
            }
        }
    }
}

} // verus!
