//! Utilities for working with text written in the Hebrew Unicode block:
//! removing the characters of a chosen sub-category, displaying only the
//! consonantal skeleton plus one chosen sub-category, and gathering
//! per-string statistics, each with an exact contract over the
//! per-character classification stated in [`classify`].


pub mod classify;
pub mod laws;
pub mod removing;
pub mod showing;
pub mod statistics;

pub use removing::remove_hbr_accent;
pub use removing::remove_hbr_block;
pub use removing::remove_hbr_consonant;
pub use removing::remove_hbr_consonant_final;
pub use removing::remove_hbr_consonant_normal;
pub use removing::remove_hbr_ligature_yiddish;
pub use removing::remove_hbr_mark;
pub use removing::remove_hbr_point;
pub use removing::remove_hbr_point_reading_sign;
pub use removing::remove_hbr_point_semi_vowel;
pub use removing::remove_hbr_point_vowel;
pub use removing::remove_hbr_punctuation;
pub use removing::remove_hbr_yod_triangle;
pub use showing::show_hbr_accent;
pub use showing::show_hbr_consonant;
pub use showing::show_hbr_consonant_final;
pub use showing::show_hbr_consonant_normal;
pub use showing::show_hbr_ligature_yiddish;
pub use showing::show_hbr_mark;
pub use showing::show_hbr_point;
pub use showing::show_hbr_point_reading_sign;
pub use showing::show_hbr_point_semi_vowel;
pub use showing::show_hbr_point_vowel;
pub use showing::show_hbr_punctuation;
pub use showing::show_hbr_yod_triangle;
pub use statistics::HebrewCharacterTypes;
pub use statistics::get_hbr_character_frequency;
pub use statistics::get_hbr_character_types;
