//! The flat-buffer backend: the simple reference implementation of the same
//! contract as the rope backend.
//!
//! The content is one contiguous variable-width encoded string; every
//! operation translates its logical character indices to physical storage
//! offsets by walking the characters from the start, which is linear but
//! straightforward. This backend is verified end to end, with no trusted
//! wrappers of its own.

use vstd::prelude::*;
use vstd::string::*;

use crate::model::seq_deleted;
use crate::model::seq_inserted;
use crate::store::TextStore;
use crate::TextError;

verus! {

/// A text buffer backed by a single flat string, addressed externally only
/// by logical character index.
pub struct FlatText {
    content: String,
}

impl View for FlatText {
    type V = Seq<char>;

    closed spec fn view(&self) -> Seq<char> {
        self.content@
    }
}

impl TextStore for FlatText {
    fn new() -> (r: FlatText) {
        FlatText { content: String::new() }
    }

    fn from_string(s: &str) -> (r: FlatText) {
        FlatText { content: String::from_str(s) }
    }

    fn len_chars(&self) -> (n: usize) {
        self.content.as_str().unicode_len()
    }

    fn insert(&mut self, char_idx: usize, text: &str) -> (r: Result<(), TextError>) {
        let len = self.content.as_str().unicode_len();
        if char_idx > len {
            Err(TextError::IndexOutOfBounds)
        } else {
            let head = self.content.as_str().substring_char(0, char_idx);
            let tail = self.content.as_str().substring_char(char_idx, len);
            let mut acc = String::from_str(head);
            acc.append(text);
            acc.append(tail);
            assert(acc@ =~= seq_inserted(old(self)@, char_idx as int, text@));
            self.content = acc;
            Ok(())
        }
    }

    fn delete(&mut self, char_idx: usize, count: usize) -> (r: Result<(), TextError>) {
        let len = self.content.as_str().unicode_len();
        if char_idx > len {
            Err(TextError::IndexOutOfBounds)
        } else {
            let remaining = len - char_idx;
            let end = if count >= remaining {
                len
            } else {
                char_idx + count
            };
            let head = self.content.as_str().substring_char(0, char_idx);
            let tail = self.content.as_str().substring_char(end, len);
            let mut acc = String::from_str(head);
            acc.append(tail);
            assert(acc@ =~= seq_deleted(old(self)@, char_idx as int, count as int));
            self.content = acc;
            Ok(())
        }
    }

    fn slice(&self, start_char: usize, end_char: usize) -> (r: Result<String, TextError>) {
        if start_char > end_char {
            Err(TextError::InvalidRange)
        } else if end_char > self.content.as_str().unicode_len() {
            Err(TextError::IndexOutOfBounds)
        } else {
            Ok(String::from_str(self.content.as_str().substring_char(start_char, end_char)))
        }
    }
}

} // verus!
