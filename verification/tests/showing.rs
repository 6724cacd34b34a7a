use hebrew_unicode_utils::show_hbr_accent;
use hebrew_unicode_utils::show_hbr_consonant;
use hebrew_unicode_utils::show_hbr_consonant_final;
use hebrew_unicode_utils::show_hbr_consonant_normal;
use hebrew_unicode_utils::show_hbr_ligature_yiddish;
use hebrew_unicode_utils::show_hbr_mark;
use hebrew_unicode_utils::show_hbr_point;
use hebrew_unicode_utils::show_hbr_point_reading_sign;
use hebrew_unicode_utils::show_hbr_point_semi_vowel;
use hebrew_unicode_utils::show_hbr_point_vowel;
use hebrew_unicode_utils::show_hbr_punctuation;
use hebrew_unicode_utils::show_hbr_yod_triangle;

#[test]
fn test_showing_hbr_accent() {
    let input_str = "בְּרֵאשִׁ֖ית";
    let input_str_showed = show_hbr_accent(input_str);
    assert_eq!(input_str_showed.as_ref(), "בראש֖ית");
}

#[test]
fn test_showing_hbr_mark() {
    let input_str = "Q מִצְרָ֑יְמָה ה֯";
    let input_str_showed = show_hbr_mark(input_str);
    assert_eq!(input_str_showed.as_ref(), "Q מצרימה ה֯");
}

#[test]
fn test_showing_hbr_point() {
    let input_str = "שִׁבְעִ֣ים";
    let input_str_showed = show_hbr_point(input_str);
    assert_eq!(input_str_showed.as_ref(), "שִׁבְעִים");
}

#[test]
fn test_showing_hbr_point_vowel() {
    let input_str = "שִׁבְעִ֣יםֱ";
    let input_str_showed = show_hbr_point_vowel(input_str);
    assert_eq!(input_str_showed.as_ref(), "שִבעִים");
}

#[test]
fn test_showing_hbr_point_semi_vowel() {
    let input_str = "ֲדְ נָפֶשׁ גֱכֳע";
    let input_str_showed = show_hbr_point_semi_vowel(input_str);
    assert_eq!(input_str_showed.as_ref(), "ֲדְ נפש גֱכֳע");
}

#[test]
fn test_showing_hbr_point_reading_sign() {
    let input_str = "נִתְחַכְּמָה";
    let input_str_showed = show_hbr_point_reading_sign(input_str);
    assert_eq!(input_str_showed.as_ref(), "נתחכּמה");
}

#[test]
fn test_showing_hbr_punctuation() {
    let input_str = "וַֽיְהִי־בֹ֖קֶר";
    let input_str_showed = show_hbr_punctuation(input_str);
    assert_eq!(input_str_showed.as_ref(), "ויהי־בקר");
}

#[test]
fn test_showing_hbr_consonant() {
    let input_str = "A ֱאB ֵףC";
    let input_str_showed = show_hbr_consonant(input_str);
    assert_eq!(input_str_showed.as_ref(), "A אB ףC");
}

#[test]
fn test_showing_hbr_consonant_normal() {
    let input_str = "A ֱאB ָףC";
    let input_str_showed = show_hbr_consonant_normal(input_str);
    assert_eq!(input_str_showed.as_ref(), "A אB C");
}

#[test]
fn test_showing_hbr_consonant_final() {
    let input_str = "A ֱאB ָףC";
    let input_str_showed = show_hbr_consonant_final(input_str);
    assert_eq!(input_str_showed.as_ref(), "A B ףC");
}

#[test]
fn test_showing_hbr_yod_triangle() {
    let input_str = format!("A הָבָה {} Z", '\u{05EF}');
    let input_str_showed = show_hbr_yod_triangle(&input_str);
    let expected_output = format!("A הבה {} Z", '\u{05EF}');
    assert_eq!(input_str_showed.as_ref(), expected_output);
}

#[test]
fn test_showing_hbr_ligature_yiddish() {
    let input_str = "X נִֽתְחַכְּמָ֖ה װױײ Z";
    let input_str_showed = show_hbr_ligature_yiddish(input_str);
    assert_eq!(input_str_showed.as_ref(), "X נתחכמה װױײ Z");
}

#[test]
fn show_empty_input_stays_empty() {
    assert_eq!(show_hbr_accent("").as_ref(), "");
    assert_eq!(show_hbr_consonant("").as_ref(), "");
}
