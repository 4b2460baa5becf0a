//! Intent routing and translation core of a conversational assistant.
//!
//! Every module holds executable code whose behaviour is stated in
//! `requires` / `ensures` clauses and proved by Verus.
pub mod text;
pub mod normalize;
pub mod detect;
pub mod math;
pub mod weather;
pub mod code;
pub mod chat;
pub mod translate;
pub mod knowledge;
pub mod cache;
pub mod dialog;
pub mod router;
pub mod memory;
pub mod planner;
pub mod utils;
pub mod config;
