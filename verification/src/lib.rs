//! A verified demonstrator for ownership, borrowing and slicing rules.
//!
//! The library runs a fixed, ordered list of named scenarios. Each scenario
//! performs one illustrative operation on in-memory text values and returns
//! its narration as a string; `scenarios::run_all` concatenates them in
//! declaration order. Every scenario's output is pinned exactly by a spec
//! function, so a complete run is provably deterministic.

pub mod numbers;
pub mod ownership;
pub mod scenarios;
pub mod text;
