use kn_editor_core::CoreText;
use kn_editor_core::FlatText;
use kn_editor_core::TextError;
use kn_editor_core::TextStore;

fn new_is_empty<T: TextStore>() {
    let b = T::new();
    assert_eq!(b.len_chars(), 0);
    assert_eq!(b.slice(0, 0).unwrap(), "");
}

#[test]
fn new_is_empty_rope() {
    new_is_empty::<CoreText>();
}

#[test]
fn new_is_empty_flat() {
    new_is_empty::<FlatText>();
}

fn editing_scenario<T: TextStore>() {
    let mut b = T::from_string("hello");
    assert_eq!(b.len_chars(), 5);
    b.insert(5, " world").unwrap();
    assert_eq!(b.slice(0, b.len_chars()).unwrap(), "hello world");
    assert_eq!(b.len_chars(), 11);
    b.delete(0, 6).unwrap();
    assert_eq!(b.slice(0, b.len_chars()).unwrap(), "world");
    assert_eq!(b.len_chars(), 5);
    assert_eq!(b.slice(0, 5).unwrap(), "world");
}

#[test]
fn editing_scenario_rope() {
    editing_scenario::<CoreText>();
}

#[test]
fn editing_scenario_flat() {
    editing_scenario::<FlatText>();
}

fn multi_unit_characters<T: TextStore>() {
    let b = T::from_string("café");
    // "é" occupies two storage units but one character position.
    assert_eq!(b.len_chars(), 4);
    assert_eq!(b.slice(3, 4).unwrap(), "é");
    assert_eq!(b.slice(0, 4).unwrap(), "café");
}

#[test]
fn multi_unit_characters_rope() {
    multi_unit_characters::<CoreText>();
}

#[test]
fn multi_unit_characters_flat() {
    multi_unit_characters::<FlatText>();
}

fn insert_then_slice_returns_text<T: TextStore>() {
    let mut b = T::from_string("ab\u{1F600}cd");
    let text = "x\u{0301}\u{1F601}";
    let text_chars = text.chars().count();
    b.insert(3, text).unwrap();
    assert_eq!(b.slice(3, 3 + text_chars).unwrap(), text);
}

#[test]
fn insert_then_slice_rope() {
    insert_then_slice_returns_text::<CoreText>();
}

#[test]
fn insert_then_slice_flat() {
    insert_then_slice_returns_text::<FlatText>();
}

fn delete_undoes_insert<T: TextStore>() {
    let mut b = T::from_string("naïve\u{1F914}");
    let before = b.slice(0, b.len_chars()).unwrap();
    let len_before = b.len_chars();
    let text = "été";
    b.insert(2, text).unwrap();
    b.delete(2, text.chars().count()).unwrap();
    assert_eq!(b.len_chars(), len_before);
    assert_eq!(b.slice(0, b.len_chars()).unwrap(), before);
}

#[test]
fn delete_undoes_insert_rope() {
    delete_undoes_insert::<CoreText>();
}

#[test]
fn delete_undoes_insert_flat() {
    delete_undoes_insert::<FlatText>();
}

fn boundary_insert<T: TextStore>() {
    let mut b = T::from_string("abc");
    b.insert(3, "def").unwrap();
    assert_eq!(b.slice(0, 6).unwrap(), "abcdef");
    let r = b.insert(7, "x");
    assert_eq!(r, Err(TextError::IndexOutOfBounds));
    assert_eq!(b.slice(0, 6).unwrap(), "abcdef");
}

#[test]
fn boundary_insert_rope() {
    boundary_insert::<CoreText>();
}

#[test]
fn boundary_insert_flat() {
    boundary_insert::<FlatText>();
}

fn clamped_delete_empties<T: TextStore>() {
    let mut b = T::from_string("hello");
    b.delete(0, usize::MAX).unwrap();
    assert_eq!(b.len_chars(), 0);
    let mut b2 = T::from_string("hello");
    b2.delete(0, 5).unwrap();
    assert_eq!(b2.len_chars(), 0);
}

#[test]
fn clamped_delete_empties_rope() {
    clamped_delete_empties::<CoreText>();
}

#[test]
fn clamped_delete_empties_flat() {
    clamped_delete_empties::<FlatText>();
}

fn delete_edge_cases<T: TextStore>() {
    let mut b = T::from_string("abc");
    // Zero-length deletions are valid no-ops.
    b.delete(1, 0).unwrap();
    b.delete(3, 7).unwrap();
    assert_eq!(b.slice(0, 3).unwrap(), "abc");
    // The start position itself is strictly validated.
    assert_eq!(b.delete(4, 0), Err(TextError::IndexOutOfBounds));
    assert_eq!(b.slice(0, 3).unwrap(), "abc");
}

#[test]
fn delete_edge_cases_rope() {
    delete_edge_cases::<CoreText>();
}

#[test]
fn delete_edge_cases_flat() {
    delete_edge_cases::<FlatText>();
}

fn slice_errors<T: TextStore>() {
    let b = T::from_string("abcde");
    assert_eq!(b.slice(3, 2), Err(TextError::InvalidRange));
    assert_eq!(b.slice(2, 6), Err(TextError::IndexOutOfBounds));
    assert_eq!(b.slice(6, 6), Err(TextError::IndexOutOfBounds));
    assert_eq!(b.slice(2, 2).unwrap(), "");
    assert_eq!(b.slice(5, 5).unwrap(), "");
}

#[test]
fn slice_errors_rope() {
    slice_errors::<CoreText>();
}

#[test]
fn slice_errors_flat() {
    slice_errors::<FlatText>();
}

fn slice_is_independent_copy<T: TextStore>() {
    let mut b = T::from_string("abcde");
    let s = b.slice(1, 4).unwrap();
    b.delete(0, usize::MAX).unwrap();
    assert_eq!(s, "bcd");
}

#[test]
fn slice_is_independent_copy_rope() {
    slice_is_independent_copy::<CoreText>();
}

#[test]
fn slice_is_independent_copy_flat() {
    slice_is_independent_copy::<FlatText>();
}

fn length_tracks_operations<T: TextStore>() {
    let mut b = T::new();
    let mut expected: usize = 0;
    b.insert(0, "one").unwrap();
    expected += 3;
    b.insert(1, "\u{1F680}\u{1F680}").unwrap();
    expected += 2;
    b.delete(2, 2).unwrap();
    expected -= 2;
    b.insert(expected, "end").unwrap();
    expected += 3;
    b.delete(0, 1).unwrap();
    expected -= 1;
    assert_eq!(b.len_chars(), expected);
}

#[test]
fn length_tracks_operations_rope() {
    length_tracks_operations::<CoreText>();
}

#[test]
fn length_tracks_operations_flat() {
    length_tracks_operations::<FlatText>();
}

fn empty_text_insert_is_noop<T: TextStore>() {
    let mut b = T::from_string("xyz");
    b.insert(1, "").unwrap();
    assert_eq!(b.len_chars(), 3);
    assert_eq!(b.slice(0, 3).unwrap(), "xyz");
}

#[test]
fn empty_text_insert_is_noop_rope() {
    empty_text_insert_is_noop::<CoreText>();
}

#[test]
fn empty_text_insert_is_noop_flat() {
    empty_text_insert_is_noop::<FlatText>();
}

#[test]
fn version_names_the_crate() {
    assert_eq!(kn_editor_core::version(), "kn-editor-core/0.1.0");
}
