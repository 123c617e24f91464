//! Kinds of content that a sphere stores.

use vstd::prelude::*;

verus! {

/// The content types that this crate tells apart.
#[derive(Clone, Copy, Debug, PartialEq, Eq, Structural)]
pub enum ContentKind {
    /// Plain text with light structure.
    Subtext,
    /// Structured data in the CBOR encoding.
    Cbor,
    /// Anything else.
    Other,
}

} // verus!
