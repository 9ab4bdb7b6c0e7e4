//! Message monitoring rules.

pub mod rules;
