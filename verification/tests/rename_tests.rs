// The original engine's test suite, driven through plain data: each test
// lists the occurrences its resolver would report, runs the rename, and
// applies the produced edits to the text.

use renamer::change::{
    FileId, ModuleAtCursor, ModuleBacking, Reference, ReferenceKind, ReferenceSearchResult,
    SourceFileEdit, SourceRootId, TextRange,
};
use renamer::engine::rename;

fn is_word_byte(b: u8) -> bool {
    b == b'_' || b.is_ascii_alphanumeric()
}

/// Byte (= char, the fixtures are ASCII) range of the n-th standalone
/// occurrence of `word` in `text`, counting from 0.
fn nth_word(text: &str, word: &str, n: usize) -> (u32, u32) {
    let bytes = text.as_bytes();
    let wlen = word.len();
    let mut count = 0usize;
    let mut i = 0usize;
    while i + wlen <= bytes.len() {
        if &text[i..i + wlen] == word {
            let before_ok = i == 0 || !is_word_byte(bytes[i - 1]);
            let after_ok = i + wlen == bytes.len() || !is_word_byte(bytes[i + wlen]);
            if before_ok && after_ok {
                if count == n {
                    return (i as u32, (i + wlen) as u32);
                }
                count += 1;
                i += wlen;
                continue;
            }
        }
        i += 1;
    }
    panic!("occurrence {} of {:?} not found", n, word);
}

fn occ(file: u32, range: (u32, u32), kind: ReferenceKind) -> Reference {
    Reference {
        file_id: FileId(file),
        range: TextRange { start: range.0, end: range.1 },
        kind,
    }
}

fn apply_edits(text: &str, edits: &[SourceFileEdit]) -> String {
    let mut items: Vec<(u32, u32, String)> = edits
        .iter()
        .map(|e| (e.edit.delete.start, e.edit.delete.end, e.edit.insert.clone()))
        .collect();
    items.sort_by(|a, b| b.0.cmp(&a.0));
    let mut s = text.to_string();
    for (st, en, ins) in items {
        s.replace_range(st as usize..en as usize, &ins);
    }
    s
}

fn check_rename(text: &str, occs: Vec<Reference>, new_name: &str, expected: &str) {
    let range = occs[0].range;
    let refs = ReferenceSearchResult { range, references: occs };
    let r = rename(new_name, &None, &Some(refs)).expect("rename produced no change");
    assert_eq!(r.range, range);
    assert!(r.info.file_system_edits.is_empty());
    assert_eq!(r.info.label, "Rename");
    let result = apply_edits(text, &r.info.source_file_edits);
    assert_eq!(expected, result);
}

/// All standalone occurrences of `word`, each a plain reference.
fn all_normal(text: &str, word: &str, how_many: usize) -> Vec<Reference> {
    (0..how_many)
        .map(|n| occ(1, nth_word(text, word, n), ReferenceKind::Normal))
        .collect()
}

#[test]
fn test_rename_to_underscore() {
    let text = "
    fn main() {
        let i = 1;
    }";
    check_rename(
        text,
        all_normal(text, "i", 1),
        "_",
        "
    fn main() {
        let _ = 1;
    }",
    );
}

#[test]
fn test_rename_to_raw_identifier() {
    let text = "
    fn main() {
        let i = 1;
    }";
    check_rename(
        text,
        all_normal(text, "i", 1),
        "r#fn",
        "
    fn main() {
        let r#fn = 1;
    }",
    );
}

#[test]
fn test_rename_to_invalid_identifier() {
    let text = "
    fn main() {
        let i = 1;
    }";
    let refs = ReferenceSearchResult {
        range: TextRange { start: 25, end: 26 },
        references: all_normal(text, "i", 1),
    };
    let source_change = rename("invalid!", &None, &Some(refs));
    assert!(source_change.is_none());
}

#[test]
fn test_rename_for_local() {
    let text = "
    fn main() {
        let mut i = 1;
        let j = 1;
        i = i + j;

        {
            i = 0;
        }

        i = 5;
    }";
    check_rename(
        text,
        all_normal(text, "i", 5),
        "k",
        "
    fn main() {
        let mut k = 1;
        let j = 1;
        k = k + j;

        {
            k = 0;
        }

        k = 5;
    }",
    );
}

#[test]
fn test_rename_for_macro_args() {
    let text = "
    macro_rules! foo {($i:ident) => {$i} }
    fn main() {
        let a = \"test\";
        foo!(a);
    }";
    check_rename(
        text,
        all_normal(text, "a", 2),
        "b",
        "
    macro_rules! foo {($i:ident) => {$i} }
    fn main() {
        let b = \"test\";
        foo!(b);
    }",
    );
}

#[test]
fn test_rename_for_macro_args_rev() {
    let text = "
    macro_rules! foo {($i:ident) => {$i} }
    fn main() {
        let a = \"test\";
        foo!(a);
    }";
    let mut occs = all_normal(text, "a", 2);
    occs.reverse();
    check_rename(
        text,
        occs,
        "b",
        "
    macro_rules! foo {($i:ident) => {$i} }
    fn main() {
        let b = \"test\";
        foo!(b);
    }",
    );
}

#[test]
fn test_rename_for_macro_define_fn() {
    let text = "
    macro_rules! define_fn {($id:ident) => { fn $id{} }}
    define_fn!(foo);
    fn main() {
        foo();
    }";
    check_rename(
        text,
        all_normal(text, "foo", 2),
        "bar",
        "
    macro_rules! define_fn {($id:ident) => { fn $id{} }}
    define_fn!(bar);
    fn main() {
        bar();
    }",
    );
}

#[test]
fn test_rename_for_macro_define_fn_rev() {
    let text = "
    macro_rules! define_fn {($id:ident) => { fn $id{} }}
    define_fn!(foo);
    fn main() {
        foo();
    }";
    let mut occs = all_normal(text, "foo", 2);
    occs.reverse();
    check_rename(
        text,
        occs,
        "bar",
        "
    macro_rules! define_fn {($id:ident) => { fn $id{} }}
    define_fn!(bar);
    fn main() {
        bar();
    }",
    );
}

#[test]
fn test_rename_for_param_inside() {
    let text = "
    fn foo(i : u32) -> u32 {
        i
    }";
    check_rename(
        text,
        all_normal(text, "i", 2),
        "j",
        "
    fn foo(j : u32) -> u32 {
        j
    }",
    );
}

#[test]
fn test_rename_refs_for_fn_param() {
    let text = "
    fn foo(i : u32) -> u32 {
        i
    }";
    check_rename(
        text,
        all_normal(text, "i", 2),
        "new_name",
        "
    fn foo(new_name : u32) -> u32 {
        new_name
    }",
    );
}

#[test]
fn test_rename_for_mut_param() {
    let text = "
    fn foo(mut i : u32) -> u32 {
        i
    }";
    check_rename(
        text,
        all_normal(text, "i", 2),
        "new_name",
        "
    fn foo(mut new_name : u32) -> u32 {
        new_name
    }",
    );
}

#[test]
fn test_rename_struct_field() {
    let text = "
    struct Foo {
        i: i32,
    }

    impl Foo {
        fn new(i: i32) -> Self {
            Self { i: i }
        }
    }
    ";
    // The field declaration and the field half of `i: i`; the parameter
    // and the value are a different entity.
    let occs = vec![
        occ(1, nth_word(text, "i", 0), ReferenceKind::Normal),
        occ(1, nth_word(text, "i", 2), ReferenceKind::Normal),
    ];
    check_rename(
        text,
        occs,
        "j",
        "
    struct Foo {
        j: i32,
    }

    impl Foo {
        fn new(i: i32) -> Self {
            Self { j: i }
        }
    }
    ",
    );
}

#[test]
fn test_rename_struct_field_for_shorthand() {
    let text = "
    struct Foo {
        i: i32,
    }

    impl Foo {
        fn new(i: i32) -> Self {
            Self { i }
        }
    }
    ";
    let occs = vec![
        occ(1, nth_word(text, "i", 0), ReferenceKind::Normal),
        occ(1, nth_word(text, "i", 2), ReferenceKind::FieldShorthandForField),
    ];
    check_rename(
        text,
        occs,
        "j",
        "
    struct Foo {
        j: i32,
    }

    impl Foo {
        fn new(i: i32) -> Self {
            Self { j: i }
        }
    }
    ",
    );
}

#[test]
fn test_rename_local_for_field_shorthand() {
    let text = "
    struct Foo {
        i: i32,
    }

    impl Foo {
        fn new(i: i32) -> Self {
            Self { i }
        }
    }
    ";
    let occs = vec![
        occ(1, nth_word(text, "i", 1), ReferenceKind::Normal),
        occ(1, nth_word(text, "i", 2), ReferenceKind::FieldShorthandForLocal),
    ];
    check_rename(
        text,
        occs,
        "j",
        "
    struct Foo {
        i: i32,
    }

    impl Foo {
        fn new(j: i32) -> Self {
            Self { i: j }
        }
    }
    ",
    );
}

#[test]
fn test_field_shorthand_correct_struct() {
    let text = "
    struct Foo {
        i: i32,
    }

    struct Bar {
        i: i32,
    }

    impl Bar {
        fn new(i: i32) -> Self {
            Self { i }
        }
    }
    ";
    // Only Foo's field declaration refers to the renamed field.
    let occs = vec![occ(1, nth_word(text, "i", 0), ReferenceKind::Normal)];
    check_rename(
        text,
        occs,
        "j",
        "
    struct Foo {
        j: i32,
    }

    struct Bar {
        i: i32,
    }

    impl Bar {
        fn new(i: i32) -> Self {
            Self { i }
        }
    }
    ",
    );
}

#[test]
fn test_shadow_local_for_struct_shorthand() {
    let text = "
    struct Foo {
        i: i32,
    }

    fn baz(i: i32) -> Self {
         let x = Foo { i };
         {
             let i = 0;
             Foo { i }
         }
     }
    ";
    // The parameter and the first shorthand; the inner block shadows it.
    let occs = vec![
        occ(1, nth_word(text, "i", 1), ReferenceKind::Normal),
        occ(1, nth_word(text, "i", 2), ReferenceKind::FieldShorthandForLocal),
    ];
    check_rename(
        text,
        occs,
        "j",
        "
    struct Foo {
        i: i32,
    }

    fn baz(j: i32) -> Self {
         let x = Foo { i: j };
         {
             let i = 0;
             Foo { i }
         }
     }
    ",
    );
}

#[test]
fn test_rename_mod() {
    // `mod foo;` in file 2 (bar.rs), backed by file 3 at bar/foo.rs.
    let module = ModuleAtCursor {
        decl_file: FileId(2),
        decl_range: TextRange { start: 4, end: 7 },
        dst_source_root: SourceRootId(0),
        backing: Some(ModuleBacking { file_id: FileId(3), path: "bar/foo.rs".to_string() }),
    };
    let r = rename("foo2", &Some(module), &None).expect("rename produced no change");
    assert_eq!(r.range, TextRange { start: 4, end: 7 });
    assert_eq!(r.info.label, "Rename");
    assert_eq!(r.info.source_file_edits.len(), 1);
    assert_eq!(r.info.source_file_edits[0].file_id, FileId(2));
    assert_eq!(
        r.info.source_file_edits[0].edit.delete,
        TextRange { start: 4, end: 7 }
    );
    assert_eq!(r.info.source_file_edits[0].edit.insert, "foo2");
    assert_eq!(r.info.file_system_edits.len(), 1);
    assert_eq!(r.info.file_system_edits[0].src, FileId(3));
    assert_eq!(r.info.file_system_edits[0].dst_source_root, SourceRootId(0));
    assert_eq!(r.info.file_system_edits[0].dst_path, "bar/foo2.rs");
    assert_eq!(r.info.cursor_position, None);
}

#[test]
fn test_rename_mod_in_dir() {
    // `mod foo;` in file 1 (lib.rs), backed by file 2 at foo/mod.rs.
    let module = ModuleAtCursor {
        decl_file: FileId(1),
        decl_range: TextRange { start: 4, end: 7 },
        dst_source_root: SourceRootId(0),
        backing: Some(ModuleBacking { file_id: FileId(2), path: "foo/mod.rs".to_string() }),
    };
    let r = rename("foo2", &Some(module), &None).expect("rename produced no change");
    assert_eq!(r.range, TextRange { start: 4, end: 7 });
    assert_eq!(r.info.source_file_edits.len(), 1);
    assert_eq!(r.info.source_file_edits[0].file_id, FileId(1));
    assert_eq!(r.info.source_file_edits[0].edit.insert, "foo2");
    assert_eq!(r.info.file_system_edits.len(), 1);
    assert_eq!(r.info.file_system_edits[0].src, FileId(2));
    assert_eq!(r.info.file_system_edits[0].dst_source_root, SourceRootId(0));
    assert_eq!(r.info.file_system_edits[0].dst_path, "foo2/mod.rs");
}

#[test]
fn test_module_rename_in_path() {
    let text = "
    mod foo {
        pub fn bar() {}
    }

    fn main() {
        foo::bar();
    }";
    let decl = nth_word(text, "foo", 0);
    let usage = nth_word(text, "foo", 1);
    let module = ModuleAtCursor {
        decl_file: FileId(1),
        decl_range: TextRange { start: decl.0, end: decl.1 },
        dst_source_root: SourceRootId(0),
        backing: None,
    };
    let refs = ReferenceSearchResult {
        range: TextRange { start: decl.0, end: decl.1 },
        references: vec![occ(1, usage, ReferenceKind::Normal)],
    };
    let r = rename("baz", &Some(module), &Some(refs)).expect("rename produced no change");
    assert!(r.info.file_system_edits.is_empty());
    let result = apply_edits(text, &r.info.source_file_edits);
    assert_eq!(
        "
    mod baz {
        pub fn bar() {}
    }

    fn main() {
        baz::bar();
    }",
        result
    );
}

#[test]
fn test_rename_mod_filename_and_path() {
    // File 1 (lib.rs): `mod bar;` and a use of bar::foo::fun(); file 2
    // (bar.rs): `pub mod foo;`; file 3: the backing file bar/foo.rs.
    let module = ModuleAtCursor {
        decl_file: FileId(2),
        decl_range: TextRange { start: 8, end: 11 },
        dst_source_root: SourceRootId(0),
        backing: Some(ModuleBacking { file_id: FileId(3), path: "bar/foo.rs".to_string() }),
    };
    let refs = ReferenceSearchResult {
        range: TextRange { start: 8, end: 11 },
        references: vec![occ(1, (27, 30), ReferenceKind::Normal)],
    };
    let r = rename("foo2", &Some(module), &Some(refs)).expect("rename produced no change");
    assert_eq!(r.range, TextRange { start: 8, end: 11 });
    assert_eq!(r.info.source_file_edits.len(), 2);
    assert_eq!(r.info.source_file_edits[0].file_id, FileId(2));
    assert_eq!(
        r.info.source_file_edits[0].edit.delete,
        TextRange { start: 8, end: 11 }
    );
    assert_eq!(r.info.source_file_edits[0].edit.insert, "foo2");
    assert_eq!(r.info.source_file_edits[1].file_id, FileId(1));
    assert_eq!(
        r.info.source_file_edits[1].edit.delete,
        TextRange { start: 27, end: 30 }
    );
    assert_eq!(r.info.source_file_edits[1].edit.insert, "foo2");
    assert_eq!(r.info.file_system_edits.len(), 1);
    assert_eq!(r.info.file_system_edits[0].src, FileId(3));
    assert_eq!(r.info.file_system_edits[0].dst_source_root, SourceRootId(0));
    assert_eq!(r.info.file_system_edits[0].dst_path, "bar/foo2.rs");
}
