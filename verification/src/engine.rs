//! Edit synthesis and aggregation: one edit per occurrence, the module
//! rename bundle, and the top-level entry that validates the candidate
//! name and branches between the module path and the generic path.

use vstd::prelude::*;
use crate::change::{FileSystemEdit, ModuleAtCursor, RangeInfo, Reference, ReferenceKind,
    ReferenceSearchResult, SourceChange, SourceFileEdit, TextEdit, TextRange};
use crate::change::{colon_space, field_shorthand_edit_for, is_edit_for, is_module_change,
    is_reference_change, local_shorthand_edit_for, normal_edit_for};
use crate::ident::{is_ident_start, is_valid_new_name, underscore_token, validate_new_name};

verus! {

/// What the whole generic-reference path returns: absent when nothing was
/// resolved or the occurrence set is empty, else the declared name's range
/// and a change with exactly one edit per occurrence.
pub open spec fn rename_reference_post(
    refs: Option<ReferenceSearchResult>,
    new_name: Seq<char>,
    r: Option<RangeInfo>,
) -> bool {
    match refs {
        None => r is None,
        Some(rr) => {
            if rr.references@.len() == 0 {
                r is None
            } else {
                match r {
                    Some(ri) => ri.range == rr.range && is_reference_change(rr, new_name, ri.info),
                    None => false,
                }
            }
        },
    }
}

/// Turns one occurrence into its text edit, keyed by the occurrence kind.
pub fn source_edit_from_reference(reference: &Reference, new_name: &str) -> (r: SourceFileEdit)
    ensures
        is_edit_for(*reference, new_name@, r),
{
    match reference.kind {
        ReferenceKind::FieldShorthandForField => {
            let mut text = String::from_str(new_name);
            text.append(": ");
            SourceFileEdit {
                file_id: reference.file_id,
                edit: TextEdit {
                    delete: TextRange {
                        start: reference.range.start,
                        end: reference.range.start,
                    },
                    insert: text,
                },
            }
        },
        ReferenceKind::FieldShorthandForLocal => {
            let mut text = String::from_str(": ");
            text.append(new_name);
            SourceFileEdit {
                file_id: reference.file_id,
                edit: TextEdit {
                    delete: TextRange { start: reference.range.end, end: reference.range.end },
                    insert: text,
                },
            }
        },
        ReferenceKind::Normal => {
            SourceFileEdit {
                file_id: reference.file_id,
                edit: TextEdit { delete: reference.range, insert: String::from_str(new_name) },
            }
        },
    }
}

/// Appends one edit per resolved occurrence to `edits`.
fn push_reference_edits(
    edits: &mut Vec<SourceFileEdit>,
    rr: &ReferenceSearchResult,
    new_name: &str,
)
    ensures
        final(edits)@.len() == old(edits)@.len() + rr.references@.len(),
        forall|j: int|
            0 <= j < old(edits)@.len() ==> final(edits)@[j] == old(edits)@[j],
        forall|j: int|
            0 <= j < rr.references@.len() ==> is_edit_for(
                rr.references@[j],
                new_name@,
                #[trigger] final(edits)@[old(edits)@.len() + j],
            ),
{
    let base: usize = edits.len();
    let n: usize = rr.references.len();
    let mut i: usize = 0;
    while i < n
        invariant
            n == rr.references@.len(),
            0 <= i <= n,
            edits@.len() == base + i,
            base == old(edits)@.len(),
            forall|j: int| 0 <= j < base ==> edits@[j] == old(edits)@[j],
            forall|j: int|
                0 <= j < i ==> is_edit_for(
                    rr.references@[j],
                    new_name@,
                    #[trigger] edits@[base + j],
                ),
        decreases n - i,
    {
        let e = source_edit_from_reference(&rr.references[i], new_name);
        edits.push(e);
        i += 1;
    }
}

/// The module-rename bundle: the declaration edit, one edit per resolved
/// occurrence of the module's name, and — exactly when the module is
/// file-backed — the one move of its backing file to the planned path.
pub fn rename_mod(
    m: &ModuleAtCursor,
    refs: &Option<ReferenceSearchResult>,
    new_name: &str,
) -> (c: SourceChange)
    ensures
        is_module_change(*m, *refs, new_name@, c),
{
    let mut file_system_edits: Vec<FileSystemEdit> = Vec::new();
    match &m.backing {
        None => {},
        Some(b) => {
            let dst = crate::paths::mod_dst_path(b.path.as_str(), new_name);
            file_system_edits.push(FileSystemEdit {
                src: b.file_id,
                dst_source_root: m.dst_source_root,
                dst_path: dst,
            });
        },
    }
    let mut source_file_edits: Vec<SourceFileEdit> = Vec::new();
    source_file_edits.push(SourceFileEdit {
        file_id: m.decl_file,
        edit: TextEdit { delete: m.decl_range, insert: String::from_str(new_name) },
    });
    match refs {
        None => {},
        Some(rr) => {
            push_reference_edits(&mut source_file_edits, rr, new_name);
            proof {
                assert forall|i: int| 0 <= i < rr.references@.len() implies is_edit_for(
                    rr.references@[i],
                    new_name@,
                    #[trigger] source_file_edits@[i + 1],
                ) by {
                    assert(is_edit_for(rr.references@[i], new_name@, source_file_edits@[1 + i]));
                }
            }
        },
    }
    SourceChange {
        label: String::from_str("Rename"),
        source_file_edits,
        file_system_edits,
        cursor_position: None,
    }
}

/// The generic path: every resolved occurrence becomes one edit; an
/// unresolved position or an empty occurrence set yields the absent
/// result, never an empty change.
pub fn rename_reference(
    refs: &Option<ReferenceSearchResult>,
    new_name: &str,
) -> (r: Option<RangeInfo>)
    ensures
        rename_reference_post(*refs, new_name@, r),
{
    match refs {
        None => None,
        Some(rr) => {
            if rr.references.len() == 0 {
                return None;
            }
            let mut source_file_edits: Vec<SourceFileEdit> = Vec::new();
            push_reference_edits(&mut source_file_edits, rr, new_name);
            proof {
                assert forall|i: int| 0 <= i < rr.references@.len() implies is_edit_for(
                    rr.references@[i],
                    new_name@,
                    #[trigger] source_file_edits@[i],
                ) by {
                    assert(is_edit_for(rr.references@[i], new_name@, source_file_edits@[0 + i]));
                }
            }
            Some(RangeInfo {
                range: rr.range,
                info: SourceChange {
                    label: String::from_str("Rename"),
                    source_file_edits,
                    file_system_edits: Vec::new(),
                    cursor_position: None,
                },
            })
        },
    }
}

/// The exposed operation.  A candidate that fails lexical validation
/// aborts the whole request.  A cursor on a module's declared name takes
/// the module path — by priority, even where the position could also
/// resolve as an ordinary reference; any other cursor takes the generic
/// path.  The caller supplies what its resolver and parser found: the
/// module declaration at the cursor, if any, and the resolved occurrence
/// set.
pub fn rename(
    new_name: &str,
    module: &Option<ModuleAtCursor>,
    refs: &Option<ReferenceSearchResult>,
) -> (r: Option<RangeInfo>)
    ensures
        !is_valid_new_name(new_name@) ==> r is None,
        is_valid_new_name(new_name@) ==> match *module {
            Some(m) => match r {
                Some(ri) => ri.range == m.decl_range && is_module_change(
                    m,
                    *refs,
                    new_name@,
                    ri.info,
                ),
                None => false,
            },
            None => rename_reference_post(*refs, new_name@, r),
        },
{
    if !validate_new_name(new_name) {
        return None;
    }
    match module {
        Some(m) => {
            let change = rename_mod(m, refs, new_name);
            Some(RangeInfo { range: m.decl_range, info: change })
        },
        None => rename_reference(refs, new_name),
    }
}

/// An accepted name never begins with the shorthand separator.
proof fn lemma_valid_name_head(new_name: Seq<char>)
    requires
        is_valid_new_name(new_name),
    ensures
        new_name.len() > 0,
        new_name[0] != ':',
{
    if new_name == underscore_token() {
        assert(new_name[0] == '_');
    } else if new_name.len() >= 2 && new_name[0] == 'r' && new_name[1] == '#' {
    } else {
        assert(is_ident_start(new_name[0]));
    }
}

/// Exactly one of the two shorthand transforms fires per shorthand
/// occurrence: the edit of the field half satisfies the field transform
/// and neither the local transform nor the plain replacement, and the
/// edit of the local half the converse.
pub proof fn lemma_shorthand_exclusive(occ: Reference, new_name: Seq<char>, e: SourceFileEdit)
    requires
        is_valid_new_name(new_name),
        occ.kind == ReferenceKind::FieldShorthandForField
            || occ.kind == ReferenceKind::FieldShorthandForLocal,
        is_edit_for(occ, new_name, e),
    ensures
        occ.kind == ReferenceKind::FieldShorthandForField ==> {
            &&& field_shorthand_edit_for(occ, new_name, e)
            &&& !local_shorthand_edit_for(occ, new_name, e)
            &&& !normal_edit_for(occ, new_name, e)
        },
        occ.kind == ReferenceKind::FieldShorthandForLocal ==> {
            &&& local_shorthand_edit_for(occ, new_name, e)
            &&& !field_shorthand_edit_for(occ, new_name, e)
            &&& !normal_edit_for(occ, new_name, e)
        },
{
    reveal_strlit(": ");
    lemma_valid_name_head(new_name);
    assert(colon_space().len() == 2);
    assert(colon_space()[0] == ':');
    let with_field = new_name + colon_space();
    let with_local = colon_space() + new_name;
    assert(with_field[0] == new_name[0]);
    assert(with_local[0] == ':');
    assert(with_field != with_local);
    assert(with_field.len() != new_name.len());
    assert(with_local.len() != new_name.len());
}

/// Edits stay within their occurrences: two occurrences in one file whose
/// ranges are strictly separated give edits whose delete ranges are
/// strictly separated too, so the edits of one change never overlap and a
/// single batched application is correct whatever their internal order.
pub proof fn lemma_edits_separated(
    o1: Reference,
    o2: Reference,
    new_name: Seq<char>,
    e1: SourceFileEdit,
    e2: SourceFileEdit,
)
    requires
        crate::change::range_wf(o1.range),
        crate::change::range_wf(o2.range),
        o1.range.end < o2.range.start,
        is_edit_for(o1, new_name, e1),
        is_edit_for(o2, new_name, e2),
    ensures
        e1.edit.delete.end < e2.edit.delete.start,
{
}

/// Whether the inserted text of an edit is built from the candidate name:
/// the name verbatim, or the name beside the shorthand separator.
pub open spec fn insert_is_of_name(new_name: Seq<char>, e: SourceFileEdit) -> bool {
    ||| e.edit.insert@ == new_name
    ||| e.edit.insert@ == new_name + colon_space()
    ||| e.edit.insert@ == colon_space() + new_name
}

/// Every text edit of a generic-reference change inserts the accepted
/// name, alone or beside the shorthand separator — no edit fabricates a
/// fragment of any other token.
pub proof fn lemma_reference_change_inserts(
    rr: ReferenceSearchResult,
    new_name: Seq<char>,
    c: SourceChange,
)
    requires
        is_reference_change(rr, new_name, c),
    ensures
        forall|i: int|
            0 <= i < c.source_file_edits@.len() ==> insert_is_of_name(
                new_name,
                #[trigger] c.source_file_edits@[i],
            ),
{
    assert forall|i: int| 0 <= i < c.source_file_edits@.len() implies insert_is_of_name(
        new_name,
        #[trigger] c.source_file_edits@[i],
    ) by {
        assert(is_edit_for(rr.references@[i], new_name, c.source_file_edits@[i]));
    }
}

/// The same, of a module-rename change: the declaration edit and every
/// reference edit insert only text built from the accepted name.
pub proof fn lemma_module_change_inserts(
    m: ModuleAtCursor,
    refs: Option<ReferenceSearchResult>,
    new_name: Seq<char>,
    c: SourceChange,
)
    requires
        is_module_change(m, refs, new_name, c),
    ensures
        forall|i: int|
            0 <= i < c.source_file_edits@.len() ==> insert_is_of_name(
                new_name,
                #[trigger] c.source_file_edits@[i],
            ),
{
    assert forall|i: int| 0 <= i < c.source_file_edits@.len() implies insert_is_of_name(
        new_name,
        #[trigger] c.source_file_edits@[i],
    ) by {
        if i > 0 {
            let rr = refs.unwrap();
            assert(is_edit_for(rr.references@[i - 1], new_name, c.source_file_edits@[(i - 1) + 1]));
        }
    }
}

} // verus!
