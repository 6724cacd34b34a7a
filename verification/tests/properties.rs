use hebrew_unicode_utils::get_hbr_character_frequency;
use hebrew_unicode_utils::get_hbr_character_types;
use hebrew_unicode_utils::remove_hbr_accent;
use hebrew_unicode_utils::remove_hbr_block;
use hebrew_unicode_utils::remove_hbr_consonant;
use hebrew_unicode_utils::remove_hbr_consonant_final;
use hebrew_unicode_utils::remove_hbr_point;
use hebrew_unicode_utils::remove_hbr_punctuation;
use hebrew_unicode_utils::show_hbr_accent;
use hebrew_unicode_utils::show_hbr_consonant;
use hebrew_unicode_utils::show_hbr_point;

#[test]
fn removal_is_idempotent() {
    let input = "וַֽיְהִי־בֹ֖קֶר AאBףC";
    let once = remove_hbr_accent(input);
    let twice = remove_hbr_accent(once.as_ref());
    assert_eq!(once.as_ref(), twice.as_ref());
    let once = remove_hbr_consonant(input);
    let twice = remove_hbr_consonant(once.as_ref());
    assert_eq!(once.as_ref(), twice.as_ref());
    let once = remove_hbr_block(input);
    let twice = remove_hbr_block(once.as_ref());
    assert_eq!(once.as_ref(), twice.as_ref());
}

#[test]
fn summary_derives_consonant_and_point() {
    for input in ["", "AאBףC", "בְּרֵאשִׁ֖ית", "no hebrew", "ךםןףץ"] {
        let types = get_hbr_character_types(input);
        assert_eq!(types.consonant, types.consonant_normal || types.consonant_final);
        assert_eq!(
            types.point,
            types.point_vowel || types.point_semi_vowel || types.point_reading_sign
        );
    }
}

#[test]
fn show_consonant_after_remove_final_has_no_finals() {
    let input = "AאBףC ךם שָׁלוֹם";
    let stripped = remove_hbr_consonant_final(input);
    let skeleton = show_hbr_consonant(stripped.as_ref());
    for c in skeleton.as_ref().chars() {
        assert!(!matches!(c, 'ך' | 'ם' | 'ן' | 'ף' | 'ץ'));
    }
}

#[test]
fn frequency_counts_add_up_to_block_characters() {
    let input = "Xבהב ה!";
    let freq_map = get_hbr_character_frequency(input);
    let block_chars = 4;
    assert_eq!(freq_map.len(), 2);
    let total = freq_map.get("ב").copied().unwrap_or(0) + freq_map.get("ה").copied().unwrap_or(0);
    assert_eq!(total, block_chars);
}

#[test]
fn non_hebrew_text_passes_through() {
    let input = "The quick brown fox! 123";
    assert_eq!(remove_hbr_block(input).as_ref(), input);
    assert_eq!(remove_hbr_accent(input).as_ref(), input);
    assert_eq!(remove_hbr_point(input).as_ref(), input);
    assert_eq!(remove_hbr_punctuation(input).as_ref(), input);
    assert_eq!(remove_hbr_consonant(input).as_ref(), input);
    assert_eq!(show_hbr_accent(input).as_ref(), input);
    assert_eq!(show_hbr_point(input).as_ref(), input);
    assert_eq!(show_hbr_consonant(input).as_ref(), input);
    assert!(get_hbr_character_frequency(input).is_empty());
}

#[test]
fn consonant_removal_strips_both_forms() {
    assert_eq!(remove_hbr_consonant("AאBףC").as_ref(), "ABC");
    assert_eq!(remove_hbr_consonant_final("AאBףC").as_ref(), "AאBC");
}
