// The module path planner on its own: destination paths under the two
// layout conventions, and the sibling-file fallback.

use renamer::paths::{classify_convention, mod_dst_path, PathConvention};

#[test]
fn marker_file_moves_its_directory() {
    assert_eq!(mod_dst_path("foo/mod.rs", "foo2"), "foo2/mod.rs");
}

#[test]
fn marker_file_keeps_the_grandparent() {
    assert_eq!(mod_dst_path("a/b/foo/mod.rs", "bar"), "a/b/bar/mod.rs");
}

#[test]
fn marker_file_at_the_root() {
    assert_eq!(mod_dst_path("mod.rs", "foo2"), "foo2/mod.rs");
}

#[test]
fn sibling_file_keeps_directory_and_extension() {
    assert_eq!(mod_dst_path("bar/foo.rs", "foo2"), "bar/foo2.rs");
}

#[test]
fn sibling_file_at_the_root() {
    assert_eq!(mod_dst_path("foo.rs", "bar"), "bar.rs");
}

#[test]
fn sibling_file_in_a_deep_directory() {
    assert_eq!(mod_dst_path("a/b/c/foo.rs", "baz"), "a/b/c/baz.rs");
}

#[test]
fn a_name_that_only_starts_like_the_marker_is_a_sibling() {
    assert_eq!(mod_dst_path("dir/module.rs", "other"), "dir/other.rs");
}

#[test]
fn a_file_without_extension_falls_back_to_the_bare_name() {
    assert_eq!(mod_dst_path("dir/foo", "bar"), "dir/bar");
}

#[test]
fn a_dotfile_counts_as_a_stem_without_extension() {
    assert_eq!(mod_dst_path("dir/.hidden", "bar"), "dir/bar");
}

#[test]
fn the_stem_check_selects_the_convention() {
    assert_eq!(classify_convention("foo/mod.rs"), PathConvention::DirectoryMarker);
    assert_eq!(classify_convention("mod.rs"), PathConvention::DirectoryMarker);
    assert_eq!(classify_convention("bar/foo.rs"), PathConvention::SiblingFile);
    assert_eq!(classify_convention("bar/module.rs"), PathConvention::SiblingFile);
    assert_eq!(classify_convention("modern.rs"), PathConvention::SiblingFile);
}
