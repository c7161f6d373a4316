//! Character-level helpers on strings: equality of two string slices and
//! the position of the last occurrence of a character.

use vstd::prelude::*;

verus! {

/// Index of the last occurrence of `c` in `s`, or -1 when `s` does not
/// contain `c`.
pub open spec fn last_ix(s: Seq<char>, c: char) -> int
    decreases s.len(),
{
    if s.len() == 0 {
        -1
    } else if s[s.len() - 1] == c {
        s.len() - 1
    } else {
        last_ix(s.drop_last(), c)
    }
}

pub proof fn lemma_last_ix_bounds(s: Seq<char>, c: char)
    ensures
        -1 <= last_ix(s, c) < s.len(),
    decreases s.len(),
{
    if s.len() > 0 && s[s.len() - 1] != c {
        lemma_last_ix_bounds(s.drop_last(), c);
    }
}

pub proof fn lemma_last_ix_absent(s: Seq<char>, c: char)
    requires
        !s.contains(c),
    ensures
        last_ix(s, c) == -1,
    decreases s.len(),
{
    if s.len() > 0 {
        assert(s[s.len() - 1] != c);
        assert(!s.drop_last().contains(c)) by {
            if s.drop_last().contains(c) {
                let i = choose|i: int| 0 <= i < s.drop_last().len() && s.drop_last()[i] == c;
                assert(s[i] == c);
            }
        }
        lemma_last_ix_absent(s.drop_last(), c);
    }
}

/// When `b` contains no `c`, the last `c` of `a + b` is the last `c` of `a`.
pub proof fn lemma_last_ix_concat_free(a: Seq<char>, b: Seq<char>, c: char)
    requires
        !b.contains(c),
    ensures
        last_ix(a + b, c) == last_ix(a, c),
    decreases b.len(),
{
    if b.len() == 0 {
        assert(a + b =~= a);
    } else {
        assert(b[b.len() - 1] != c);
        assert((a + b)[(a + b).len() - 1] == b[b.len() - 1]);
        assert((a + b).drop_last() =~= a + b.drop_last());
        assert(!b.drop_last().contains(c)) by {
            assert(forall|i: int|
                0 <= i < b.drop_last().len() ==> b.drop_last()[i] == b[i]);
        }
        lemma_last_ix_concat_free(a, b.drop_last(), c);
    }
}

/// Appending `c` itself puts the last occurrence at the end.
pub proof fn lemma_last_ix_append_char(a: Seq<char>, c: char)
    ensures
        last_ix(a + seq![c], c) == a.len(),
{
    let s = a + seq![c];
    assert(s.len() == a.len() + 1);
    assert(s[s.len() - 1] == c);
}

/// True of two string slices exactly when their character sequences agree.
pub fn str_eq(a: &str, b: &str) -> (r: bool)
    ensures
        r == (a@ == b@),
{
    let an: usize = a.unicode_len();
    let bn: usize = b.unicode_len();
    if an != bn {
        return false;
    }
    let mut i: usize = 0;
    while i < an
        invariant
            an == a@.len(),
            an == b@.len(),
            0 <= i <= an,
            forall|j: int| 0 <= j < i ==> a@[j] == b@[j],
        decreases an - i,
    {
        if a.get_char(i) != b.get_char(i) {
            return false;
        }
        i += 1;
    }
    proof {
        assert(a@ =~= b@);
    }
    true
}

/// Position of the last occurrence of `c` in `s`, if any.
pub fn last_char_index(s: &str, c: char) -> (r: Option<usize>)
    ensures
        match r {
            None => last_ix(s@, c) == -1,
            Some(i) => last_ix(s@, c) == i as int,
        },
{
    let n: usize = s.unicode_len();
    let mut i: usize = n;
    proof {
        assert(s@.take(n as int) =~= s@);
    }
    while i > 0
        invariant
            n == s@.len(),
            0 <= i <= n,
            last_ix(s@, c) == last_ix(s@.take(i as int), c),
        decreases i,
    {
        let ch = s.get_char(i - 1);
        if ch == c {
            proof {
                let t = s@.take(i as int);
                assert(t[t.len() - 1] == c);
            }
            return Some(i - 1);
        }
        proof {
            let t = s@.take(i as int);
            assert(t[t.len() - 1] != c);
            assert(t.drop_last() =~= s@.take(i as int - 1));
        }
        i -= 1;
    }
    proof {
        assert(s@.take(0) =~= Seq::<char>::empty());
    }
    None
}

} // verus!
