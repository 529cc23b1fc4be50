//! Token-claim generation at the presentation boundary.
//!
//! Encoding and decoding of the tokens themselves is I/O-adjacent work of
//! the presentation binding; the domain core only fixes how claims are
//! derived from a boundary value.

use vstd::prelude::*;

verus! {

/// Creation of token claims from a boundary value, implemented by the
/// presentation binding that issues tokens.
pub trait ClaimsGenerator<T>: Sized {
    /// Derive the claims carried by a token for `value`.
    fn generate(value: &T) -> Self;
}

} // verus!
