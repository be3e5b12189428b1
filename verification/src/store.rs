//! The abstract contract that every backend satisfies.
//!
//! Callers address the buffer only by logical character index; which storage
//! strategy is in effect is invisible to them, because both backends
//! implement this one trait and its contract is stated purely over the
//! model: the buffer's view as a sequence of Unicode scalar values.

use vstd::prelude::*;

use crate::model::{seq_deleted, seq_inserted};
use crate::TextError;

verus! {

/// The five fundamental operations of the text buffer: construct empty,
/// construct from text, measure, insert, delete, and slice, with their full
/// contract. The backend is selected by constructing the implementing type.
pub trait TextStore: Sized + View<V = Seq<char>> {
    /// An empty buffer, of length 0.
    fn new() -> (r: Self)
        ensures
            r@ == Seq::<char>::empty(),
    ;

    /// A buffer initialized with the full content of `s`.
    fn from_string(s: &str) -> (r: Self)
        ensures
            r@ == s@,
    ;

    /// The number of Unicode scalar values currently stored, independent of
    /// the storage-unit count.
    fn len_chars(&self) -> (n: usize)
        ensures
            n == self@.len(),
    ;

    /// Inserts `text` at logical character position `char_idx`, so that the
    /// content becomes head ++ text ++ tail. A position greater than the
    /// current length is rejected before any mutation.
    fn insert(&mut self, char_idx: usize, text: &str) -> (r: Result<(), TextError>)
        ensures
            r is Ok <==> char_idx <= old(self)@.len(),
            char_idx <= old(self)@.len() ==> final(self)@ == seq_inserted(
                old(self)@,
                char_idx as int,
                text@,
            ),
            char_idx > old(self)@.len() ==> r == Err::<(), TextError>(TextError::IndexOutOfBounds)
                && final(self)@ == old(self)@,
    ;

    /// Removes up to `count` characters starting at position `char_idx`.
    /// The end of the span saturates at the buffer's end, but `char_idx`
    /// itself must be in bounds; otherwise nothing is mutated.
    fn delete(&mut self, char_idx: usize, count: usize) -> (r: Result<(), TextError>)
        ensures
            r is Ok <==> char_idx <= old(self)@.len(),
            char_idx <= old(self)@.len() ==> final(self)@ == seq_deleted(
                old(self)@,
                char_idx as int,
                count as int,
            ),
            char_idx > old(self)@.len() ==> r == Err::<(), TextError>(TextError::IndexOutOfBounds)
                && final(self)@ == old(self)@,
    ;

    /// The text of the closed-open character range `[start_char, end_char)`,
    /// as an independent copy. A start past the end of the range is an
    /// invalid range; an end past the buffer's length is out of bounds.
    fn slice(&self, start_char: usize, end_char: usize) -> (r: Result<String, TextError>)
        ensures
            start_char > end_char ==> r == Err::<String, TextError>(TextError::InvalidRange),
            start_char <= end_char && end_char > self@.len() ==> r == Err::<String, TextError>(
                TextError::IndexOutOfBounds,
            ),
            start_char <= end_char <= self@.len() ==> r is Ok && r->Ok_0@ == self@.subrange(
                start_char as int,
                end_char as int,
            ),
    ;
}

} // verus!
