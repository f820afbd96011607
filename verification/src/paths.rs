//! Paths as `/`-separated strings: joining, the final component, and the
//! parent. The installation engine's placement rules are stated and
//! proved over these.

use vstd::prelude::*;

use crate::text::rfind_char;
use crate::text::spec_rfind_char;

verus! {

/// The component after the last `/`; the whole string when there is none.
pub open spec fn spec_file_name(s: Seq<char>) -> Seq<char> {
    match spec_rfind_char(s, '/') {
        None => s,
        Some(i) => s.subrange(i + 1, s.len() as int),
    }
}

/// Everything before the last `/`; empty when there is none.
pub open spec fn spec_parent(s: Seq<char>) -> Seq<char> {
    match spec_rfind_char(s, '/') {
        None => Seq::<char>::empty(),
        Some(i) => s.subrange(0, i),
    }
}

pub open spec fn spec_join(a: Seq<char>, b: Seq<char>) -> Seq<char> {
    a + "/"@ + b
}

/// The final component of a path.
pub fn file_name_of(s: &str) -> (r: String)
    ensures
        r@ == spec_file_name(s@),
{
    proof {
        crate::text::lemma_rfind_char_spec(s@, '/');
    }
    let n = s.unicode_len();
    match rfind_char(s, '/') {
        None => String::from_str(s),
        Some(i) => String::from_str(s.substring_char(i + 1, n)),
    }
}

/// The path with its final component removed.
pub fn parent_of(s: &str) -> (r: String)
    ensures
        r@ == spec_parent(s@),
{
    proof {
        crate::text::lemma_rfind_char_spec(s@, '/');
    }
    match rfind_char(s, '/') {
        None => String::new(),
        Some(i) => String::from_str(s.substring_char(0, i)),
    }
}

/// `a/b`.
pub fn join_path(a: &str, b: &str) -> (r: String)
    ensures
        r@ == spec_join(a@, b@),
{
    let r = String::from_str(a);
    let r = r.concat("/");
    let r = r.concat(b);
    r
}

} // verus!
