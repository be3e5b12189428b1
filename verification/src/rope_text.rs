//! The rope backend: a balanced-tree text store addressed by logical
//! character index, efficient for large documents.
//!
//! The tree itself comes from the `ropey` crate and is held behind trusted
//! wrappers; everything around it — bounds checks, the clamping policy for
//! deletion, and the error reporting — is verified against the model in
//! `model`.

use vstd::prelude::*;

use crate::model::seq_inserted;
use crate::store::TextStore;
use crate::TextError;

verus! {

#[verifier::external_type_specification]
#[verifier::external_body]
pub struct ExRope(ropey::Rope);

/// The characters a rope holds, in order.
pub uninterp spec fn rope_chars(r: ropey::Rope) -> Seq<char>;

/// Relies on ropey::Rope::new: creates an empty rope.
#[verifier::external_body]
fn rope_new() -> (r: ropey::Rope)
    ensures
        rope_chars(r) == Seq::<char>::empty(),
{
    ropey::Rope::new()
}

/// Relies on ropey::Rope::from_str: creates a rope holding exactly the
/// characters of the given string slice.
#[verifier::external_body]
fn rope_from_str(s: &str) -> (r: ropey::Rope)
    ensures
        rope_chars(r) == s@,
{
    ropey::Rope::from_str(s)
}

/// Relies on ropey::Rope::len_chars: the total number of chars in the rope.
#[verifier::external_body]
fn rope_len_chars(r: &ropey::Rope) -> (n: usize)
    ensures
        n == rope_chars(*r).len(),
{
    r.len_chars()
}

/// Relies on ropey::Rope::insert: inserts `text` at char index `char_idx`.
/// It panics when `char_idx > len_chars()`, so that case is excluded here.
#[verifier::external_body]
fn rope_insert(r: &mut ropey::Rope, char_idx: usize, text: &str)
    requires
        char_idx <= rope_chars(*old(r)).len(),
    ensures
        rope_chars(*final(r)) == seq_inserted(rope_chars(*old(r)), char_idx as int, text@),
{
    r.insert(char_idx, text)
}

/// Relies on ropey::Rope::remove: removes the text in the char index range
/// `start..end`. It panics when `start > end` or `end > len_chars()`, so
/// those cases are excluded here.
#[verifier::external_body]
fn rope_remove(r: &mut ropey::Rope, start: usize, end: usize)
    requires
        start <= end <= rope_chars(*old(r)).len(),
    ensures
        rope_chars(*final(r)) == rope_chars(*old(r)).take(start as int) + rope_chars(
            *old(r),
        ).skip(end as int),
{
    r.remove(start..end)
}

/// Relies on ropey::Rope::slice and String::from(RopeSlice): the slice of
/// the char index range `start..end`, copied out as an owned string.
/// Rope::slice panics when `start > end` or `end > len_chars()`, so those
/// cases are excluded here.
#[verifier::external_body]
fn rope_slice_string(r: &ropey::Rope, start: usize, end: usize) -> (out: String)
    requires
        start <= end <= rope_chars(*r).len(),
    ensures
        out@ == rope_chars(*r).subrange(start as int, end as int),
{
    String::from(r.slice(start..end))
}

/// A text buffer backed by a balanced rope. Addressed externally only by
/// logical character index; the mapping to the encoding's storage units is
/// internal to the rope.
pub struct CoreText {
    rope: ropey::Rope,
}

impl View for CoreText {
    type V = Seq<char>;

    closed spec fn view(&self) -> Seq<char> {
        rope_chars(self.rope)
    }
}

impl TextStore for CoreText {
    fn new() -> (r: CoreText) {
        CoreText { rope: rope_new() }
    }

    fn from_string(s: &str) -> (r: CoreText) {
        CoreText { rope: rope_from_str(s) }
    }

    fn len_chars(&self) -> (n: usize) {
        rope_len_chars(&self.rope)
    }

    fn insert(&mut self, char_idx: usize, text: &str) -> (r: Result<(), TextError>) {
        let len = rope_len_chars(&self.rope);
        if char_idx > len {
            Err(TextError::IndexOutOfBounds)
        } else {
            rope_insert(&mut self.rope, char_idx, text);
            Ok(())
        }
    }

    fn delete(&mut self, char_idx: usize, count: usize) -> (r: Result<(), TextError>) {
        let len = rope_len_chars(&self.rope);
        if char_idx > len {
            Err(TextError::IndexOutOfBounds)
        } else {
            let remaining = len - char_idx;
            let end = if count >= remaining {
                len
            } else {
                char_idx + count
            };
            rope_remove(&mut self.rope, char_idx, end);
            Ok(())
        }
    }

    fn slice(&self, start_char: usize, end_char: usize) -> (r: Result<String, TextError>) {
        if start_char > end_char {
            Err(TextError::InvalidRange)
        } else if end_char > rope_len_chars(&self.rope) {
            Err(TextError::IndexOutOfBounds)
        } else {
            Ok(rope_slice_string(&self.rope, start_char, end_char))
        }
    }
}

} // verus!
