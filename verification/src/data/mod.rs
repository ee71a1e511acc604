//! The kinds of definitions that the library knows how to validate.

pub mod character_templates;
pub mod decisions;
pub mod regions;
pub mod scriptvalues;
