use hebrew_unicode_utils::remove_hbr_accent;
use hebrew_unicode_utils::remove_hbr_block;
use hebrew_unicode_utils::remove_hbr_consonant;
use hebrew_unicode_utils::remove_hbr_consonant_final;
use hebrew_unicode_utils::remove_hbr_consonant_normal;
use hebrew_unicode_utils::remove_hbr_ligature_yiddish;
use hebrew_unicode_utils::remove_hbr_mark;
use hebrew_unicode_utils::remove_hbr_point;
use hebrew_unicode_utils::remove_hbr_point_reading_sign;
use hebrew_unicode_utils::remove_hbr_point_semi_vowel;
use hebrew_unicode_utils::remove_hbr_point_vowel;
use hebrew_unicode_utils::remove_hbr_punctuation;
use hebrew_unicode_utils::remove_hbr_yod_triangle;

#[test]
fn rem_hbr_accent() {
    let test_str = "בְּרֵאשִׁ֖ית";
    let test_str_filtered = remove_hbr_accent(test_str);
    assert_eq!(test_str_filtered.as_ref(), "בְּרֵאשִׁית");
}

#[test]
fn rem_hbr_mark() {
    let test_str = "ה֯";
    let test_str_filtered = remove_hbr_mark(test_str);
    assert_eq!(test_str_filtered.as_ref(), "ה");
}

#[test]
fn rem_hbr_point() {
    let test_str = "בָ";
    let test_str_filtered = remove_hbr_point(test_str);
    assert_eq!(test_str_filtered.as_ref(), "ב");
}

#[test]
fn rem_hbr_point_vowel() {
    let test_str = "ִל";
    let test_str_filtered = remove_hbr_point_vowel(test_str);
    assert_eq!(test_str_filtered.as_ref(), "ל");
}

#[test]
fn rem_hbr_point_semi_vowel() {
    let test_str = "ֲדְגֱכֳע";
    let test_str_filtered = remove_hbr_point_semi_vowel(test_str);
    assert_eq!(test_str_filtered.as_ref(), "דגכע");
}

#[test]
fn rem_hbr_point_reading_sign() {
    let test_str = "םּ";
    let test_str_filtered = remove_hbr_point_reading_sign(test_str);
    assert_eq!(test_str_filtered.as_ref(), "ם");
}

#[test]
fn rem_hbr_punctuation() {
    let test_str = "וַֽיְהִי־בֹ֖קֶר";
    let test_str_filtered = remove_hbr_punctuation(test_str);
    assert_eq!(test_str_filtered.as_ref(), "וַֽיְהִיבֹ֖קֶר");
}

#[test]
fn rem_hbr_consonant() {
    let test_str = "AאBףC";
    let test_str_filtered = remove_hbr_consonant(test_str);
    assert_eq!(test_str_filtered.as_ref(), "ABC");
}

#[test]
fn rem_hbr_consonant_normal() {
    let test_str = "AאBףC";
    let test_str_filtered = remove_hbr_consonant_normal(test_str);
    assert_eq!(test_str_filtered.as_ref(), "ABףC");
}

#[test]
fn rem_hbr_consonant_final() {
    let test_str = "AאBףC";
    let test_str_filtered = remove_hbr_consonant_final(test_str);
    assert_eq!(test_str_filtered.as_ref(), "AאBC");
}

#[test]
fn rem_hbr_yod_triangle() {
    let test_str = format!("A{}Z", '\u{05EF}');
    let test_str_filtered = remove_hbr_yod_triangle(&test_str);
    assert_eq!(test_str_filtered.as_ref(), "AZ");
}

#[test]
fn rem_hbr_ligature_yiddish() {
    let test_str = "XװױײZ";
    let test_str_filtered = remove_hbr_ligature_yiddish(test_str);
    assert_eq!(test_str_filtered.as_ref(), "XZ");
}

#[test]
fn rem_hbr_block_mixed_text() {
    let test_str = "abcוַֽיְחִי־שֵׁ֗םאַֽחֲרֵי֙הוֹלִיד֣וֹאֶת־אַרְפַּכְשָׁ֔דחֲמֵ֥שׁמֵא֖וֹתשָׁנָ֑הוַdיּ֥וֹלֶדבָּנִ֖יםeוּבָfנֽוֹת׃";
    let test_str_filtered = remove_hbr_block(test_str);
    assert_eq!(test_str_filtered.as_ref(), "abcdef");
}

#[test]
fn rem_empty_input_stays_empty() {
    assert_eq!(remove_hbr_block("").as_ref(), "");
    assert_eq!(remove_hbr_consonant("").as_ref(), "");
    assert_eq!(remove_hbr_point("").as_ref(), "");
}
