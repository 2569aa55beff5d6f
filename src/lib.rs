//! A check over type-checked blocks that asks for a `;` after a trailing
//! expression of unit type, with the text of the fix.
//!
//! `hir` models the blocks and expressions the check reads, `source_map` the
//! source text, `lint` the decision and the diagnostics, and `lemmas` states
//! what holds of every decision.
pub mod hir;
pub mod source_map;
pub mod lint;
pub mod lemmas;
