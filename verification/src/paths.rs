//! Destination-path planning for a module rename.
//!
//! A module's backing file follows one of two layout conventions, told
//! apart by a single stem check:
//! - directory marker: the file is the marker file `mod.<ext>` inside a
//!   directory named after the module; the rename relocates that
//!   directory, so `foo/<marker>` goes to `bar/<marker>`, a sibling of
//!   `foo`, never nested inside it;
//! - sibling file: the file is `<name>.<ext>` beside its parent; only the
//!   stem changes, directory and extension stay.
//! A path that fits neither convention cleanly is treated as a sibling
//! file, a best-effort fallback rather than a failure.

use vstd::prelude::*;
use crate::text::{last_ix, last_char_index, str_eq};
use crate::text::{lemma_last_ix_bounds, lemma_last_ix_absent, lemma_last_ix_concat_free,
    lemma_last_ix_append_char};

verus! {

/// The stem that marks the directory-marker convention.
pub open spec fn marker_stem() -> Seq<char> {
    "mod"@
}

/// The two module-file layout conventions.  A third convention would be a
/// third variant and one more branch of the planner.
#[derive(Clone, Copy, Debug, PartialEq, Eq, Structural)]
pub enum PathConvention {
    DirectoryMarker,
    SiblingFile,
}

/// The file-name part of a project-relative path: what follows the last
/// `/`, or the whole path when there is none.
pub open spec fn file_name_of(p: Seq<char>) -> Seq<char> {
    p.subrange(last_ix(p, '/') + 1, p.len() as int)
}

/// The directory part, kept with its trailing `/`; empty when the path
/// has no `/`.
pub open spec fn dir_prefix_of(p: Seq<char>) -> Seq<char> {
    if last_ix(p, '/') < 0 {
        Seq::<char>::empty()
    } else {
        p.subrange(0, last_ix(p, '/') + 1)
    }
}

/// The stem of a file name: what precedes the last `.`, or the whole name
/// when the name has no `.` past its first character.
pub open spec fn stem_of(n: Seq<char>) -> Seq<char> {
    if last_ix(n, '.') <= 0 {
        n
    } else {
        n.subrange(0, last_ix(n, '.'))
    }
}

/// The extension of a file name, kept with its leading `.`; empty when
/// the name has none.
pub open spec fn ext_of(n: Seq<char>) -> Seq<char> {
    if last_ix(n, '.') <= 0 {
        Seq::<char>::empty()
    } else {
        n.subrange(last_ix(n, '.'), n.len() as int)
    }
}

/// The grandparent prefix: the directory prefix with its last component
/// removed; empty when the directory part has a single component or none.
pub open spec fn grandparent_prefix_of(p: Seq<char>) -> Seq<char> {
    if last_ix(p, '/') < 0 {
        Seq::<char>::empty()
    } else {
        let d = p.subrange(0, last_ix(p, '/'));
        if last_ix(d, '/') < 0 {
            Seq::<char>::empty()
        } else {
            d.subrange(0, last_ix(d, '/') + 1)
        }
    }
}

/// Which convention a backing-file path follows, decided by the one stem
/// check: only a file whose stem is the marker stem is a directory
/// marker; everything else — including a path that fits neither layout
/// cleanly — is treated as a sibling file.
pub open spec fn convention_of(p: Seq<char>) -> PathConvention {
    if stem_of(file_name_of(p)) == marker_stem() {
        PathConvention::DirectoryMarker
    } else {
        PathConvention::SiblingFile
    }
}

/// Where the module's backing file goes when the module takes the new
/// name: the marker file's directory is renamed in place, a sibling file
/// keeps directory and extension.
pub open spec fn mod_dst_path_spec(p: Seq<char>, new_name: Seq<char>) -> Seq<char> {
    match convention_of(p) {
        PathConvention::DirectoryMarker => grandparent_prefix_of(p) + new_name + seq!['/']
            + file_name_of(p),
        PathConvention::SiblingFile => dir_prefix_of(p) + new_name + ext_of(file_name_of(p)),
    }
}

/// Classifies a backing file's path by the one stem check.
pub fn classify_convention(path: &str) -> (c: PathConvention)
    ensures
        c == convention_of(path@),
{
    let n: usize = path.unicode_len();
    proof {
        lemma_last_ix_bounds(path@, '/');
    }
    let name_start: usize = match last_char_index(path, '/') {
        None => 0,
        Some(i) => i + 1,
    };
    let name: &str = path.substring_char(name_start, n);
    proof {
        assert(name@ =~= file_name_of(path@));
        lemma_last_ix_bounds(name@, '.');
    }
    let stem: &str = match last_char_index(name, '.') {
        None => name,
        Some(d) => {
            if d == 0 {
                name
            } else {
                name.substring_char(0, d)
            }
        },
    };
    proof {
        assert(stem@ =~= stem_of(name@));
    }
    if str_eq(stem, "mod") {
        PathConvention::DirectoryMarker
    } else {
        PathConvention::SiblingFile
    }
}

/// Computes the destination path of the module's backing file.
pub fn mod_dst_path(path: &str, new_name: &str) -> (r: String)
    ensures
        r@ == mod_dst_path_spec(path@, new_name@),
{
    let n: usize = path.unicode_len();
    proof {
        lemma_last_ix_bounds(path@, '/');
    }
    let slash = last_char_index(path, '/');
    let name_start: usize = match slash {
        None => 0,
        Some(i) => i + 1,
    };
    let name: &str = path.substring_char(name_start, n);
    proof {
        assert(name@ =~= file_name_of(path@));
        lemma_last_ix_bounds(name@, '.');
    }
    let dot = last_char_index(name, '.');
    let stem: &str = match dot {
        None => name,
        Some(d) => {
            if d == 0 {
                name
            } else {
                name.substring_char(0, d)
            }
        },
    };
    proof {
        if last_ix(name@, '.') <= 0 {
            assert(stem@ =~= stem_of(name@));
        } else {
            assert(stem@ =~= stem_of(name@));
        }
    }
    let mut r = String::new();
    if str_eq(stem, "mod") {
        match slash {
            None => {
                proof {
                    assert(grandparent_prefix_of(path@) =~= Seq::<char>::empty());
                }
            },
            Some(si) => {
                let dir: &str = path.substring_char(0, si);
                proof {
                    assert(dir@ =~= path@.subrange(0, last_ix(path@, '/')));
                    lemma_last_ix_bounds(dir@, '/');
                }
                match last_char_index(dir, '/') {
                    None => {
                        proof {
                            assert(grandparent_prefix_of(path@) =~= Seq::<char>::empty());
                        }
                    },
                    Some(gi) => {
                        let gp: &str = path.substring_char(0, gi + 1);
                        proof {
                            assert(dir@.subrange(0, last_ix(dir@, '/') + 1)
                                =~= path@.subrange(0, gi + 1));
                            assert(gp@ =~= grandparent_prefix_of(path@));
                        }
                        r.append(gp);
                    },
                }
            },
        }
        r.append(new_name);
        r.append("/");
        r.append(name);
        proof {
            reveal_strlit("/");
            assert("/"@ =~= seq!['/']);
            assert(r@ =~= mod_dst_path_spec(path@, new_name@));
        }
    } else {
        match slash {
            None => {
                proof {
                    assert(dir_prefix_of(path@) =~= Seq::<char>::empty());
                }
            },
            Some(si) => {
                let dp: &str = path.substring_char(0, si + 1);
                proof {
                    assert(dp@ =~= dir_prefix_of(path@));
                }
                r.append(dp);
            },
        }
        r.append(new_name);
        match dot {
            None => {
                proof {
                    assert(ext_of(name@) =~= Seq::<char>::empty());
                }
            },
            Some(d) => {
                if d > 0 {
                    let ext: &str = name.substring_char(d, name.unicode_len());
                    proof {
                        assert(ext@ =~= ext_of(name@));
                    }
                    r.append(ext);
                } else {
                    proof {
                        assert(ext_of(name@) =~= Seq::<char>::empty());
                    }
                }
            },
        }
        proof {
            assert(r@ =~= mod_dst_path_spec(path@, new_name@));
        }
    }
    r
}

/// Directory-marker rule: a marker file under a directory named after the
/// module moves to the like-named directory beside it — the new directory
/// stands where the old one stood, never inside it.
pub proof fn lemma_dir_marker_rule(
    prefix: Seq<char>,
    old_dir: Seq<char>,
    marker: Seq<char>,
    new_name: Seq<char>,
)
    requires
        prefix.len() == 0 || prefix[prefix.len() - 1] == '/',
        old_dir.len() > 0,
        !old_dir.contains('/'),
        !marker.contains('/'),
        stem_of(marker) == marker_stem(),
    ensures
        mod_dst_path_spec(prefix + old_dir + seq!['/'] + marker, new_name)
            == prefix + new_name + seq!['/'] + marker,
{
    let p = prefix + old_dir + seq!['/'] + marker;
    lemma_last_ix_append_char(prefix + old_dir, '/');
    lemma_last_ix_concat_free(prefix + old_dir + seq!['/'], marker, '/');
    assert(last_ix(p, '/') == (prefix + old_dir).len());
    assert(file_name_of(p) =~= marker);
    let d = p.subrange(0, last_ix(p, '/'));
    assert(d =~= prefix + old_dir);
    if prefix.len() == 0 {
        assert(d =~= old_dir);
        lemma_last_ix_absent(old_dir, '/');
        assert(grandparent_prefix_of(p) =~= Seq::<char>::empty());
    } else {
        assert(prefix.drop_last() + seq![prefix[prefix.len() - 1]] =~= prefix);
        lemma_last_ix_append_char(prefix.drop_last(), '/');
        lemma_last_ix_concat_free(prefix, old_dir, '/');
        assert(last_ix(d, '/') == prefix.len() - 1);
        assert(grandparent_prefix_of(p) =~= prefix);
    }
    assert(mod_dst_path_spec(p, new_name) =~= prefix + new_name + seq!['/'] + marker);
}

/// Sibling-file rule: a file named after the module keeps its directory
/// and extension; only the stem becomes the new name.
pub proof fn lemma_sibling_rule(
    dir: Seq<char>,
    old_stem: Seq<char>,
    ext: Seq<char>,
    new_name: Seq<char>,
)
    requires
        dir.len() == 0 || dir[dir.len() - 1] == '/',
        old_stem.len() > 0,
        !old_stem.contains('/'),
        old_stem != marker_stem(),
        ext.len() >= 1,
        ext[0] == '.',
        forall|i: int| 1 <= i < ext.len() ==> ext[i] != '.',
        !ext.contains('/'),
    ensures
        mod_dst_path_spec(dir + old_stem + ext, new_name) == dir + new_name + ext,
{
    let p = dir + old_stem + ext;
    let name = old_stem + ext;
    assert(!name.contains('/')) by {
        if name.contains('/') {
            let i = choose|i: int| 0 <= i < name.len() && name[i] == '/';
            if i < old_stem.len() {
                assert(old_stem[i] == '/');
            } else {
                assert(ext[i - old_stem.len()] == '/');
            }
        }
    }
    if dir.len() == 0 {
        assert(p =~= name);
        lemma_last_ix_absent(name, '/');
        assert(file_name_of(p) =~= name);
        assert(dir_prefix_of(p) =~= dir);
    } else {
        assert(dir.drop_last() + seq![dir[dir.len() - 1]] =~= dir);
        lemma_last_ix_append_char(dir.drop_last(), '/');
        lemma_last_ix_concat_free(dir, name, '/');
        assert(dir + name =~= p);
        assert(last_ix(p, '/') == dir.len() - 1);
        assert(file_name_of(p) =~= name);
        assert(dir_prefix_of(p) =~= dir);
    }
    lemma_sibling_name_split(old_stem, ext);
    assert(stem_of(name) =~= old_stem);
    assert(ext_of(name) =~= ext);
    assert(mod_dst_path_spec(p, new_name) =~= dir + new_name + ext);
}

/// In `<stem>.<rest>` with no further `.` in `rest`, the last `.` sits
/// right after the stem.
proof fn lemma_sibling_name_split(old_stem: Seq<char>, ext: Seq<char>)
    requires
        old_stem.len() > 0,
        ext.len() >= 1,
        ext[0] == '.',
        forall|i: int| 1 <= i < ext.len() ==> ext[i] != '.',
    ensures
        last_ix(old_stem + ext, '.') == old_stem.len(),
{
    let t = ext.subrange(1, ext.len() as int);
    assert(old_stem + ext =~= (old_stem + seq!['.']) + t);
    lemma_last_ix_append_char(old_stem, '.');
    assert(!t.contains('.')) by {
        if t.contains('.') {
            let i = choose|i: int| 0 <= i < t.len() && t[i] == '.';
            assert(ext[i + 1] == '.');
        }
    }
    lemma_last_ix_concat_free(old_stem + seq!['.'], t, '.');
}

} // verus!
