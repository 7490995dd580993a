//! A fault-tolerant façade over a regular-expression engine.
//!
//! A caller constructs a pattern object from a string that may or may not be
//! a valid regular expression. Depending on the chosen policy, an invalid
//! pattern either fails construction with the engine's error, or silently
//! degrades into an inert matcher that never matches anything.

pub mod engine;
pub mod lazy;
pub mod pattern;
pub mod policy;
pub mod set;
