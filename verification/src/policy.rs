//! The tolerance policy: what construction does when a pattern fails to
//! compile.

use vstd::prelude::*;

verus! {

/// How a pattern object treats source strings that the engine rejects.
///
/// Exactly one policy is chosen at construction; it is fixed for the
/// lifetime of the constructed object.
#[derive(Clone, Copy, Debug, PartialEq, Eq, Structural)]
pub enum Policy {
    /// An invalid pattern is tolerated: construction succeeds and the
    /// object degrades into an inert matcher that never matches.
    Tolerant,
    /// An invalid pattern is an error: construction fails and reports the
    /// engine's compilation error.
    Strict,
}

/// A failed construction under [`Policy::Strict`]: the engine's own
/// compilation error, carried through unchanged.
#[derive(Debug)]
pub struct CompileError {
    /// The error exactly as the engine reported it.
    pub inner: regex::Error,
}

} // verus!
