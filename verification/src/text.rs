//! Small verified helpers over strings: locating a character from either
//! end, equality, and prefix tests. These carry the character-level facts
//! that the parsers and the path logic are proved against.

use vstd::prelude::*;

verus! {

/// Index of the first occurrence of `c` in `s`, if any.
pub open spec fn spec_find_char(s: Seq<char>, c: char) -> Option<int>
    decreases s.len(),
{
    if s.len() == 0 {
        None
    } else if s[0] == c {
        Some(0int)
    } else {
        match spec_find_char(s.drop_first(), c) {
            None => None,
            Some(i) => Some(i + 1),
        }
    }
}

/// Index of the last occurrence of `c` in `s`, if any.
pub open spec fn spec_rfind_char(s: Seq<char>, c: char) -> Option<int>
    decreases s.len(),
{
    if s.len() == 0 {
        None
    } else if s.last() == c {
        Some(s.len() - 1)
    } else {
        spec_rfind_char(s.drop_last(), c)
    }
}

/// What `spec_find_char` returns: the least index holding `c`, or `None`
/// when `c` does not occur.
pub proof fn lemma_find_char_spec(s: Seq<char>, c: char)
    ensures
        match spec_find_char(s, c) {
            None => forall|i: int| 0 <= i < s.len() ==> s[i] != c,
            Some(i) => 0 <= i < s.len() && s[i] == c && (forall|j: int| 0 <= j < i ==> s[j] != c),
        },
    decreases s.len(),
{
    if s.len() > 0 && s[0] != c {
        lemma_find_char_spec(s.drop_first(), c);
        let t = s.drop_first();
        match spec_find_char(t, c) {
            None => {
                assert forall|i: int| 0 <= i < s.len() implies s[i] != c by {
                    if i > 0 {
                        assert(s[i] == t[i - 1]);
                    }
                }
            },
            Some(i) => {
                assert(s[i + 1] == t[i]);
                assert forall|j: int| 0 <= j < i + 1 implies s[j] != c by {
                    if j > 0 {
                        assert(s[j] == t[j - 1]);
                    }
                }
            },
        }
    }
}

/// What `spec_rfind_char` returns: the greatest index holding `c`, or
/// `None` when `c` does not occur.
pub proof fn lemma_rfind_char_spec(s: Seq<char>, c: char)
    ensures
        match spec_rfind_char(s, c) {
            None => forall|i: int| 0 <= i < s.len() ==> s[i] != c,
            Some(i) => 0 <= i < s.len() && s[i] == c && (forall|j: int|
                i < j < s.len() ==> s[j] != c),
        },
    decreases s.len(),
{
    if s.len() > 0 && s.last() != c {
        lemma_rfind_char_spec(s.drop_last(), c);
        let t = s.drop_last();
        match spec_rfind_char(t, c) {
            None => {
                assert forall|i: int| 0 <= i < s.len() implies s[i] != c by {
                    if i < s.len() - 1 {
                        assert(s[i] == t[i]);
                    }
                }
            },
            Some(i) => {
                assert(s[i] == t[i]);
                assert forall|j: int| i < j < s.len() implies s[j] != c by {
                    if j < s.len() - 1 {
                        assert(s[j] == t[j]);
                    }
                }
            },
        }
    }
}

/// A position holding `c` with no occurrence before it is the first one.
pub proof fn lemma_find_char_unique(s: Seq<char>, c: char, k: int)
    requires
        0 <= k < s.len(),
        s[k] == c,
        forall|j: int| 0 <= j < k ==> s[j] != c,
    ensures
        spec_find_char(s, c) == Some(k),
{
    lemma_find_char_spec(s, c);
}

/// A position holding `c` with no occurrence after it is the last one.
pub proof fn lemma_rfind_char_unique(s: Seq<char>, c: char, k: int)
    requires
        0 <= k < s.len(),
        s[k] == c,
        forall|j: int| k < j < s.len() ==> s[j] != c,
    ensures
        spec_rfind_char(s, c) == Some(k),
{
    lemma_rfind_char_spec(s, c);
}

/// First occurrence of `c` in `s`, scanning forward.
pub fn find_char(s: &str, c: char) -> (r: Option<usize>)
    ensures
        match r {
            None => spec_find_char(s@, c) is None,
            Some(i) => spec_find_char(s@, c) == Some(i as int),
        },
{
    let n = s.unicode_len();
    let mut i: usize = 0;
    proof {
        lemma_find_char_spec(s@, c);
    }
    while i < n
        invariant
            0 <= i <= n,
            n == s@.len(),
            forall|j: int| 0 <= j < i ==> s@[j] != c,
            match spec_find_char(s@, c) {
                None => forall|k: int| 0 <= k < s@.len() ==> s@[k] != c,
                Some(k) => 0 <= k < s@.len() && s@[k] == c && (forall|j: int|
                    0 <= j < k ==> s@[j] != c),
            },
        decreases n - i,
    {
        if s.get_char(i) == c {
            return Some(i);
        }
        i = i + 1;
    }
    None
}

/// Last occurrence of `c` in `s`, scanning backward.
pub fn rfind_char(s: &str, c: char) -> (r: Option<usize>)
    ensures
        match r {
            None => spec_rfind_char(s@, c) is None,
            Some(i) => spec_rfind_char(s@, c) == Some(i as int),
        },
{
    let n = s.unicode_len();
    let mut i: usize = n;
    proof {
        lemma_rfind_char_spec(s@, c);
    }
    while i > 0
        invariant
            0 <= i <= n,
            n == s@.len(),
            forall|j: int| i <= j < n ==> s@[j] != c,
            match spec_rfind_char(s@, c) {
                None => forall|k: int| 0 <= k < s@.len() ==> s@[k] != c,
                Some(k) => 0 <= k < s@.len() && s@[k] == c && (forall|j: int|
                    k < j < s@.len() ==> s@[j] != c),
            },
        decreases i,
    {
        i = i - 1;
        if s.get_char(i) == c {
            return Some(i);
        }
    }
    None
}

/// Character-for-character string equality.
pub fn str_eq(a: &str, b: &str) -> (r: bool)
    ensures
        r == (a@ == b@),
{
    let na = a.unicode_len();
    let nb = b.unicode_len();
    if na != nb {
        return false;
    }
    let mut i: usize = 0;
    while i < na
        invariant
            0 <= i <= na,
            na == a@.len(),
            na == b@.len(),
            forall|j: int| 0 <= j < i ==> a@[j] == b@[j],
        decreases na - i,
    {
        if a.get_char(i) != b.get_char(i) {
            return false;
        }
        i = i + 1;
    }
    proof {
        assert(a@ =~= b@);
    }
    true
}

/// The views of a sequence of strings.
pub open spec fn str_views(s: Seq<String>) -> Seq<Seq<char>> {
    s.map_values(|x: String| x@)
}

pub open spec fn spec_starts_with(s: Seq<char>, prefix: Seq<char>) -> bool {
    prefix.len() <= s.len() && s.subrange(0, prefix.len() as int) == prefix
}

/// Does `s` begin with `prefix`?
pub fn starts_with(s: &str, prefix: &str) -> (r: bool)
    ensures
        r == spec_starts_with(s@, prefix@),
{
    let n = s.unicode_len();
    let np = prefix.unicode_len();
    if np > n {
        assert(!spec_starts_with(s@, prefix@));
        return false;
    }
    let mut i: usize = 0;
    while i < np
        invariant
            0 <= i <= np,
            np <= n,
            n == s@.len(),
            np == prefix@.len(),
            forall|j: int| 0 <= j < i ==> s@[j] == prefix@[j],
        decreases np - i,
    {
        if s.get_char(i) != prefix.get_char(i) {
            assert(s@.subrange(0, np as int)[i as int] != prefix@[i as int]);
            return false;
        }
        i = i + 1;
    }
    proof {
        assert(s@.subrange(0, np as int) =~= prefix@);
    }
    true
}

} // verus!
