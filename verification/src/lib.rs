//! A mutable text buffer with character-granular addressing.
//!
//! The buffer stores variable-width encoded text but is addressed purely by
//! logical character index (Unicode scalar values), never by storage units.
//! Two interchangeable backends satisfy the same contract: a rope backend
//! for large-document efficiency and a flat string backend as the simple
//! reference implementation.

use vstd::prelude::*;
use vstd::string::*;

pub mod flat;
pub mod laws;
pub mod model;
pub mod rope_text;
pub mod store;

pub use flat::FlatText;
pub use rope_text::CoreText;
pub use store::TextStore;

verus! {

/// Failure conditions for the buffer operations.
///
/// `IndexOutOfBounds`: a supplied logical character index exceeds the
/// buffer's current character count. `InvalidRange`: a range's start
/// exceeds its end.
#[derive(Clone, Copy, Debug, PartialEq, Eq, Structural)]
pub enum TextError {
    IndexOutOfBounds,
    InvalidRange,
}

/// The crate's name and version, for the embedding layer to report.
pub fn version() -> (r: String)
    ensures
        r@ == "kn-editor-core/0.1.0"@,
{
    String::from_str("kn-editor-core/0.1.0")
}

} // verus!
