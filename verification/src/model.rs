//! The mathematical model of the buffer: its content is a sequence of
//! Unicode scalar values, and every operation is specified as a function
//! on such sequences.

use vstd::prelude::*;

verus! {

/// The content after inserting `text` at logical character position `at`:
/// the head `[0, at)`, then `text`, then the tail `[at, ..)`.
pub open spec fn seq_inserted(content: Seq<char>, at: int, text: Seq<char>) -> Seq<char> {
    content.take(at) + text + content.skip(at)
}

/// The effective end of a deletion of `count` characters starting at `at`,
/// clamped to the buffer's length: a span that overruns the end is
/// truncated rather than rejected.
pub open spec fn clamp_end(len: int, at: int, count: int) -> int {
    if at + count <= len {
        at + count
    } else {
        len
    }
}

/// The content after deleting the closed-open character range
/// `[at, clamp_end(len, at, count))`.
pub open spec fn seq_deleted(content: Seq<char>, at: int, count: int) -> Seq<char> {
    content.take(at) + content.skip(clamp_end(content.len() as int, at, count))
}

} // verus!
