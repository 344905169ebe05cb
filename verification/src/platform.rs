//! Operating-system integration rules.

pub mod account;
