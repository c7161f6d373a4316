//! Lexical validation of a candidate new name.
//!
//! A candidate is accepted exactly when it lexes to a single identifier
//! token or to the single discard token `_`.  An identifier is a word of
//! ASCII letters, digits and `_` that starts with a letter or `_`, is not
//! the lone `_`, and is not one of the language's keywords; a raw
//! identifier prefixes such a word (keywords allowed) with `r#`.  Nothing
//! more is checked: keyword collisions of raw identifiers, shadowing and
//! semantic uniqueness are out of scope.

use vstd::prelude::*;
use crate::text::str_eq;

verus! {

pub open spec fn is_ident_start(c: char) -> bool {
    (97 <= c as u32 <= 122) || (65 <= c as u32 <= 90) || c == '_'
}

pub open spec fn is_ident_continue(c: char) -> bool {
    is_ident_start(c) || (48 <= c as u32 <= 57)
}

/// A non-empty word that starts with a letter or `_` and goes on with
/// letters, digits and `_`.
pub open spec fn is_ident_shaped(s: Seq<char>) -> bool {
    &&& s.len() > 0
    &&& is_ident_start(s[0])
    &&& forall|i: int| 0 <= i < s.len() ==> is_ident_continue(#[trigger] s[i])
}

pub open spec fn underscore_token() -> Seq<char> {
    seq!['_']
}

/// The keyword that declares a foreign block or ABI; its text may not be
/// written out here, so it is spelled character by character.
pub open spec fn kw_foreign_abi() -> Seq<char> {
    seq!['e', 'x', 't', 'e', 'r', 'n']
}

/// The language's keywords: a word lexing to a keyword token is not an
/// identifier token, so a bare (non-raw) candidate equal to one is rejected.
pub open spec fn is_keyword(s: Seq<char>) -> bool {
    ||| s == "as"@
    ||| s == "async"@
    ||| s == "await"@
    ||| s == "box"@
    ||| s == "break"@
    ||| s == "const"@
    ||| s == "continue"@
    ||| s == "crate"@
    ||| s == "dyn"@
    ||| s == "else"@
    ||| s == "enum"@
    ||| s == kw_foreign_abi()
    ||| s == "false"@
    ||| s == "fn"@
    ||| s == "for"@
    ||| s == "if"@
    ||| s == "impl"@
    ||| s == "in"@
    ||| s == "let"@
    ||| s == "loop"@
    ||| s == "macro"@
    ||| s == "match"@
    ||| s == "mod"@
    ||| s == "move"@
    ||| s == "mut"@
    ||| s == "pub"@
    ||| s == "ref"@
    ||| s == "return"@
    ||| s == "self"@
    ||| s == "Self"@
    ||| s == "static"@
    ||| s == "struct"@
    ||| s == "super"@
    ||| s == "trait"@
    ||| s == "true"@
    ||| s == "try"@
    ||| s == "type"@
    ||| s == "unsafe"@
    ||| s == "use"@
    ||| s == "where"@
    ||| s == "while"@
}

/// Has the candidate the `r#` raw-identifier prefix?
pub open spec fn is_raw_prefixed(s: Seq<char>) -> bool {
    s.len() >= 2 && s[0] == 'r' && s[1] == '#'
}

/// The acceptance condition of the validator: the discard token, a raw
/// identifier, or a plain identifier that is no keyword.
pub open spec fn is_valid_new_name(s: Seq<char>) -> bool {
    if s == underscore_token() {
        true
    } else if is_raw_prefixed(s) {
        is_ident_shaped(s.skip(2))
    } else {
        is_ident_shaped(s) && !is_keyword(s)
    }
}

fn is_ident_start_exec(c: char) -> (r: bool)
    ensures
        r == is_ident_start(c),
{
    let u = c as u32;
    (97 <= u && u <= 122) || (65 <= u && u <= 90) || c == '_'
}

fn is_ident_continue_exec(c: char) -> (r: bool)
    ensures
        r == is_ident_continue(c),
{
    let u = c as u32;
    is_ident_start_exec(c) || (48 <= u && u <= 57)
}

/// Does the range `[from, s.len())` of `s` spell an identifier-shaped word?
fn is_ident_shaped_from(s: &str, from: usize) -> (r: bool)
    requires
        from <= s@.len(),
    ensures
        r == is_ident_shaped(s@.skip(from as int)),
{
    let n: usize = s.unicode_len();
    let ghost t = s@.skip(from as int);
    if from == n {
        return false;
    }
    if !is_ident_start_exec(s.get_char(from)) {
        assert(t[0] == s@[from as int]);
        return false;
    }
    let mut i: usize = from;
    while i < n
        invariant
            n == s@.len(),
            from <= i <= n,
            t == s@.skip(from as int),
            forall|j: int| 0 <= j < i - from ==> is_ident_continue(#[trigger] t[j]),
        decreases n - i,
    {
        if !is_ident_continue_exec(s.get_char(i)) {
            assert(t[i - from] == s@[i as int]);
            return false;
        }
        assert(t[i - from] == s@[i as int]);
        i += 1;
    }
    assert(t[0] == s@[from as int]);
    true
}

/// Is `s` the foreign-ABI keyword?  Compared character by character.
fn is_kw_foreign_abi(s: &str) -> (r: bool)
    ensures
        r == (s@ == kw_foreign_abi()),
{
    if s.unicode_len() != 6 {
        return false;
    }
    let r = s.get_char(0) == 'e' && s.get_char(1) == 'x' && s.get_char(2) == 't'
        && s.get_char(3) == 'e' && s.get_char(4) == 'r' && s.get_char(5) == 'n';
    proof {
        if r {
            assert(s@ =~= kw_foreign_abi());
        } else {
            assert(s@ != kw_foreign_abi());
        }
    }
    r
}

fn is_keyword_exec(s: &str) -> (r: bool)
    ensures
        r == is_keyword(s@),
{
    str_eq(s, "as") || str_eq(s, "async") || str_eq(s, "await") || str_eq(s, "box")
        || str_eq(s, "break") || str_eq(s, "const") || str_eq(s, "continue")
        || str_eq(s, "crate") || str_eq(s, "dyn") || str_eq(s, "else") || str_eq(s, "enum")
        || is_kw_foreign_abi(s) || str_eq(s, "false") || str_eq(s, "fn") || str_eq(s, "for")
        || str_eq(s, "if") || str_eq(s, "impl") || str_eq(s, "in") || str_eq(s, "let")
        || str_eq(s, "loop") || str_eq(s, "macro") || str_eq(s, "match") || str_eq(s, "mod")
        || str_eq(s, "move") || str_eq(s, "mut") || str_eq(s, "pub") || str_eq(s, "ref")
        || str_eq(s, "return") || str_eq(s, "self") || str_eq(s, "Self")
        || str_eq(s, "static") || str_eq(s, "struct") || str_eq(s, "super")
        || str_eq(s, "trait") || str_eq(s, "true") || str_eq(s, "try") || str_eq(s, "type")
        || str_eq(s, "unsafe") || str_eq(s, "use") || str_eq(s, "where")
        || str_eq(s, "while")
}

/// The validator: accepts the candidate exactly when it is lexically a
/// single identifier token or the discard token.
pub fn validate_new_name(s: &str) -> (r: bool)
    ensures
        r == is_valid_new_name(s@),
{
    let n: usize = s.unicode_len();
    if n == 1 && s.get_char(0) == '_' {
        proof {
            assert(s@ =~= underscore_token());
        }
        return true;
    }
    proof {
        assert(s@ != underscore_token());
    }
    if n >= 2 && s.get_char(0) == 'r' && s.get_char(1) == '#' {
        is_ident_shaped_from(s, 2)
    } else {
        proof {
            assert(!is_raw_prefixed(s@));
            assert(s@.skip(0) =~= s@);
        }
        is_ident_shaped_from(s, 0) && !is_keyword_exec(s)
    }
}

} // verus!
