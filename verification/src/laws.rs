//! The laws that hold of every buffer, stated over the model and proved
//! once; both backends satisfy them because their contracts are given in
//! terms of the same model functions.

use vstd::prelude::*;

use crate::model::{clamp_end, seq_deleted, seq_inserted};

verus! {

/// Length invariant for insertion: inserting `text` at any valid position
/// grows the character count by exactly the character count of `text`.
pub proof fn lemma_insert_length(content: Seq<char>, at: int, text: Seq<char>)
    requires
        0 <= at <= content.len(),
    ensures
        seq_inserted(content, at, text).len() == content.len() + text.len(),
{
}

/// Length invariant for deletion: deleting `count` characters at a valid
/// position shrinks the character count by the clamped span's width, never
/// below zero.
pub proof fn lemma_delete_length(content: Seq<char>, at: int, count: int)
    requires
        0 <= at <= content.len(),
        0 <= count,
    ensures
        seq_deleted(content, at, count).len() == content.len() - (clamp_end(
            content.len() as int,
            at,
            count,
        ) - at),
{
}

/// Round-trip: the slice of the full range `[0, length)` is the entire
/// current content.
pub proof fn lemma_slice_full_is_content(content: Seq<char>)
    ensures
        content.subrange(0, content.len() as int) == content,
{
    assert(content.subrange(0, content.len() as int) =~= content);
}

/// Insert-then-slice: after inserting `text` at a valid position `at`, the
/// slice `[at, at + |text|)` is exactly `text`.
pub proof fn lemma_insert_then_slice(content: Seq<char>, at: int, text: Seq<char>)
    requires
        0 <= at <= content.len(),
    ensures
        seq_inserted(content, at, text).subrange(at, at + text.len()) == text,
{
    assert(seq_inserted(content, at, text).subrange(at, at + text.len()) =~= text);
}

/// Deletion is insertion's inverse: inserting `text` at a valid position
/// `at` and then deleting `|text|` characters at `at` restores the original
/// content.
pub proof fn lemma_delete_undoes_insert(content: Seq<char>, at: int, text: Seq<char>)
    requires
        0 <= at <= content.len(),
    ensures
        seq_deleted(seq_inserted(content, at, text), at, text.len() as int) == content,
{
    assert(seq_deleted(seq_inserted(content, at, text), at, text.len() as int) =~= content);
}

/// Boundary: inserting at position `length` is valid and appends, so the
/// one-past-end position behaves as the end of the buffer.
pub proof fn lemma_insert_at_end_appends(content: Seq<char>, text: Seq<char>)
    ensures
        seq_inserted(content, content.len() as int, text) == content + text,
{
    assert(seq_inserted(content, content.len() as int, text) =~= content + text);
}

/// Clamped delete: deleting from position 0 any count at least the buffer's
/// length empties the buffer.
pub proof fn lemma_delete_all_empties(content: Seq<char>, count: int)
    requires
        count >= content.len(),
    ensures
        seq_deleted(content, 0, count) == Seq::<char>::empty(),
{
    assert(seq_deleted(content, 0, count) =~= Seq::<char>::empty());
}

} // verus!
