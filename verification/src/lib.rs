//! Normalization of the town fields of Japan Post's `utf_ken_all` postal-code
//! records, with the contracts of every function proved by Verus.

pub mod decimal;
pub mod error;
pub mod infra;
pub mod model;
pub mod normalize;
pub mod pattern;
pub mod repo;
pub mod text;
pub mod usecase;
pub mod zenkaku;
