use vstd::prelude::*;
use crate::editor::{appended, deleted_last, file_bytes, Disk, Editor};

verus! {

broadcast use vstd::utf8::encode_utf8_decode_utf8;

/// One edit of a buffer's content.
pub enum Edit {
    Insert(char),
    DeleteLast,
}

/// The content after one edit, as `Editor::insert_char` and
/// `Editor::delete_last_char` state it.
pub open spec fn apply_edit(content: Seq<char>, e: Edit) -> Seq<char> {
    match e {
        Edit::Insert(c) => appended(content, c),
        Edit::DeleteLast => deleted_last(content),
    }
}

/// The content after a sequence of edits, applied in order.
pub open spec fn apply_edits(content: Seq<char>, edits: Seq<Edit>) -> Seq<char>
    decreases edits.len(),
{
    if edits.len() == 0 {
        content
    } else {
        apply_edit(apply_edits(content, edits.drop_last()), edits.last())
    }
}

/// How many of the edits are insertions.
pub open spec fn insert_count(edits: Seq<Edit>) -> nat
    decreases edits.len(),
{
    if edits.len() == 0 {
        0
    } else {
        insert_count(edits.drop_last()) + if edits.last() is Insert { 1nat } else { 0nat }
    }
}

/// How many of the deletions found a character to remove.
pub open spec fn removal_count(content: Seq<char>, edits: Seq<Edit>) -> nat
    decreases edits.len(),
{
    if edits.len() == 0 {
        0
    } else {
        let before = apply_edits(content, edits.drop_last());
        removal_count(content, edits.drop_last()) + if edits.last() is DeleteLast
            && before.len() > 0 { 1nat } else { 0nat }
    }
}

/// After any sequence of insertions and deletions, the length of the content
/// is its first length plus the insertions minus the deletions that removed a
/// character; a deletion on empty content removes nothing.
pub proof fn lemma_length_after_edits(content: Seq<char>, edits: Seq<Edit>)
    ensures
        apply_edits(content, edits).len() + removal_count(content, edits)
            == content.len() + insert_count(edits),
        content.len() == 0 ==> apply_edit(content, Edit::DeleteLast) == content,
    decreases edits.len(),
{
    if edits.len() > 0 {
        lemma_length_after_edits(content, edits.drop_last());
    }
}

/// A save to a file-backed buffer stores bytes that read back as exactly its
/// content.
pub proof fn lemma_save_round_trip(e: Editor, disk: Disk)
    requires
        e.target() is Some,
    ensures
        e.saved_to(disk).contains_key(e.target()->0),
        vstd::utf8::decode_utf8(e.saved_to(disk)[e.target()->0]) == e.content(),
{
}

/// Saving twice with no edit in between leaves the same files as saving once.
pub proof fn lemma_save_idempotent(e: Editor, disk: Disk)
    ensures
        e.saved_to(e.saved_to(disk)) == e.saved_to(disk),
{
    if e.target() is Some {
        assert(e.saved_to(e.saved_to(disk)) =~= e.saved_to(disk));
    }
}

/// The file system after `n` saves of the same editor.
pub open spec fn saved_times(e: Editor, disk: Disk, n: nat) -> Disk
    decreases n,
{
    if n == 0 {
        disk
    } else {
        e.saved_to(saved_times(e, disk, (n - 1) as nat))
    }
}

/// A buffer without a file never changes the file system, however often it
/// is saved.
pub proof fn lemma_unsaved_never_writes(e: Editor, disk: Disk, n: nat)
    requires
        e.target() is None,
    ensures
        saved_times(e, disk, n) == disk,
    decreases n,
{
    if n > 0 {
        lemma_unsaved_never_writes(e, disk, (n - 1) as nat);
    }
}

} // verus!
