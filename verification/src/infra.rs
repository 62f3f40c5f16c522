//! Stores of postal-code records.

pub mod ephemeral;
