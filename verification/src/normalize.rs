//! The normalizers of the two town fields.

pub mod clean;
pub mod expand;
pub mod fences;
pub mod laws;
pub mod pipeline;
pub mod rules;
pub mod town;
pub mod town_kana;

pub use town::normalize_utf_ken_all_record_town;
pub use town_kana::normalize_utf_ken_all_record_town_kana;
