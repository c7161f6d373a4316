//! The data model of a rename: positions, tagged occurrences, text and
//! file-system edits, and the atomic `SourceChange` bundle, together with
//! the spec predicates that say which edit belongs to which occurrence.

use vstd::prelude::*;
use crate::paths::mod_dst_path_spec;

verus! {

/// Identity of a file in the project snapshot.
#[derive(Clone, Copy, Debug, PartialEq, Eq, Structural)]
pub struct FileId(pub u32);

/// Identity of a source root, the file-tree grouping that project-relative
/// paths are resolved against.
#[derive(Clone, Copy, Debug, PartialEq, Eq, Structural)]
pub struct SourceRootId(pub u32);

/// A half-open range of text, in pre-edit coordinates.
#[derive(Clone, Copy, Debug, PartialEq, Eq, Structural)]
pub struct TextRange {
    pub start: u32,
    pub end: u32,
}

/// A cursor position: a file and an offset in it.
#[derive(Clone, Copy, Debug, PartialEq, Eq, Structural)]
pub struct FilePosition {
    pub file_id: FileId,
    pub offset: u32,
}

/// How a usage occurrence relates to the renamed entity.  The shorthand
/// kinds mark the two halves of a one-identifier field binding
/// (`{ name }` standing for `{ name: name }`).
#[derive(Clone, Copy, Debug, PartialEq, Eq, Structural)]
pub enum ReferenceKind {
    Normal,
    FieldShorthandForField,
    FieldShorthandForLocal,
}

/// One usage occurrence of the renamed entity, as the project-wide
/// resolver reports it.
#[derive(Clone, Copy, Debug, PartialEq, Eq, Structural)]
pub struct Reference {
    pub file_id: FileId,
    pub range: TextRange,
    pub kind: ReferenceKind,
}

/// A single text substitution: delete a range, insert a replacement.
#[derive(Clone, Debug, PartialEq, Eq)]
pub struct TextEdit {
    pub delete: TextRange,
    pub insert: String,
}

/// A text edit bound to the file it applies to.
#[derive(Clone, Debug, PartialEq, Eq)]
pub struct SourceFileEdit {
    pub file_id: FileId,
    pub edit: TextEdit,
}

/// A file move: the source file goes to a new project-relative path under
/// the given source root.
#[derive(Clone, Debug, PartialEq, Eq)]
pub struct FileSystemEdit {
    pub src: FileId,
    pub dst_source_root: SourceRootId,
    pub dst_path: String,
}

/// The atomic result of a rename: all text edits and file moves, plus an
/// optional post-rename cursor.
#[derive(Clone, Debug, PartialEq, Eq)]
pub struct SourceChange {
    pub label: String,
    pub source_file_edits: Vec<SourceFileEdit>,
    pub file_system_edits: Vec<FileSystemEdit>,
    pub cursor_position: Option<FilePosition>,
}

/// A payload together with the text range it concerns: here, the range of
/// the renamed name at the cursor.
#[derive(Clone, Debug, PartialEq, Eq)]
pub struct RangeInfo {
    pub range: TextRange,
    pub info: SourceChange,
}

/// What the external reference resolver hands back: the range of the
/// declared name under the cursor and every occurrence to rewrite.
#[derive(Clone, Debug, PartialEq, Eq)]
pub struct ReferenceSearchResult {
    pub range: TextRange,
    pub references: Vec<Reference>,
}

/// The backing file of a file-backed module definition: its identity and
/// its current project-relative path.
#[derive(Clone, Debug, PartialEq, Eq)]
pub struct ModuleBacking {
    pub file_id: FileId,
    pub path: String,
}

/// A module declaration found at the cursor: where its name token stands,
/// which source root a moved file belongs under, and the backing file if
/// the module is file-backed (`None` for an inline module body or an
/// unresolved declaration).
#[derive(Clone, Debug, PartialEq, Eq)]
pub struct ModuleAtCursor {
    pub decl_file: FileId,
    pub decl_range: TextRange,
    pub dst_source_root: SourceRootId,
    pub backing: Option<ModuleBacking>,
}

/// A well-formed text range does not end before it starts.
pub open spec fn range_wf(r: TextRange) -> bool {
    r.start <= r.end
}

/// The label every rename change carries.
pub open spec fn rename_label() -> Seq<char> {
    "Rename"@
}

/// The separator inserted when a field shorthand is expanded.
pub open spec fn colon_space() -> Seq<char> {
    ": "@
}

/// The plain transform: the occurrence's range is replaced by the new
/// name verbatim.
pub open spec fn normal_edit_for(occ: Reference, new_name: Seq<char>, e: SourceFileEdit) -> bool {
    &&& e.file_id == occ.file_id
    &&& e.edit.delete == occ.range
    &&& e.edit.insert@ == new_name
}

/// The field-half transform: a zero-width insertion of `<new name>: ` at
/// the start of the occurrence, leaving the bound local untouched.
pub open spec fn field_shorthand_edit_for(
    occ: Reference,
    new_name: Seq<char>,
    e: SourceFileEdit,
) -> bool {
    &&& e.file_id == occ.file_id
    &&& e.edit.delete.start == occ.range.start
    &&& e.edit.delete.end == occ.range.start
    &&& e.edit.insert@ == new_name + colon_space()
}

/// The local-half transform: a zero-width insertion of `: <new name>` at
/// the end of the occurrence, leaving the field name untouched.
pub open spec fn local_shorthand_edit_for(
    occ: Reference,
    new_name: Seq<char>,
    e: SourceFileEdit,
) -> bool {
    &&& e.file_id == occ.file_id
    &&& e.edit.delete.start == occ.range.end
    &&& e.edit.delete.end == occ.range.end
    &&& e.edit.insert@ == colon_space() + new_name
}

/// The one edit an occurrence gives rise to, decided by its kind alone.
pub open spec fn is_edit_for(occ: Reference, new_name: Seq<char>, e: SourceFileEdit) -> bool {
    match occ.kind {
        ReferenceKind::Normal => normal_edit_for(occ, new_name, e),
        ReferenceKind::FieldShorthandForField => field_shorthand_edit_for(occ, new_name, e),
        ReferenceKind::FieldShorthandForLocal => local_shorthand_edit_for(occ, new_name, e),
    }
}

/// One edit per occurrence, in order, never merged or reordered.
pub open spec fn edits_match(
    occs: Seq<Reference>,
    new_name: Seq<char>,
    es: Seq<SourceFileEdit>,
) -> bool {
    &&& es.len() == occs.len()
    &&& forall|i: int| 0 <= i < occs.len() ==> is_edit_for(occs[i], new_name, #[trigger] es[i])
}

/// The declaration-site edit of a module rename: the name token itself is
/// replaced in the declaring file.
pub open spec fn is_decl_edit(m: ModuleAtCursor, new_name: Seq<char>, e: SourceFileEdit) -> bool {
    &&& e.file_id == m.decl_file
    &&& e.edit.delete == m.decl_range
    &&& e.edit.insert@ == new_name
}

/// A generic-reference change: only reference edits, no file move, no
/// cursor adjustment.
pub open spec fn is_reference_change(
    rr: ReferenceSearchResult,
    new_name: Seq<char>,
    c: SourceChange,
) -> bool {
    &&& c.label@ == rename_label()
    &&& c.cursor_position is None
    &&& c.file_system_edits@.len() == 0
    &&& edits_match(rr.references@, new_name, c.source_file_edits@)
}

/// A module-rename change: the declaration edit first, one edit per
/// resolved occurrence after it, and exactly one file move when and only
/// when the module is file-backed.
pub open spec fn is_module_change(
    m: ModuleAtCursor,
    refs: Option<ReferenceSearchResult>,
    new_name: Seq<char>,
    c: SourceChange,
) -> bool {
    &&& c.label@ == rename_label()
    &&& c.cursor_position is None
    &&& c.source_file_edits@.len() == 1 + (match refs {
        Some(rr) => rr.references@.len(),
        None => 0,
    })
    &&& is_decl_edit(m, new_name, c.source_file_edits@[0])
    &&& match refs {
        Some(rr) => forall|i: int|
            0 <= i < rr.references@.len() ==> is_edit_for(
                rr.references@[i],
                new_name,
                #[trigger] c.source_file_edits@[i + 1],
            ),
        None => true,
    }
    &&& match m.backing {
        Some(b) => {
            &&& c.file_system_edits@.len() == 1
            &&& c.file_system_edits@[0].src == b.file_id
            &&& c.file_system_edits@[0].dst_source_root == m.dst_source_root
            &&& c.file_system_edits@[0].dst_path@ == mod_dst_path_spec(b.path@, new_name)
        },
        None => c.file_system_edits@.len() == 0,
    }
}

} // verus!
