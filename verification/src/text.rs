//! Work on text: comparing two texts, and joining a directory and a name as
//! Unix does.

use vstd::prelude::*;
use vstd::string::*;
use vstd::utf8::*;

verus! {

/// Whether two texts are the same.
pub fn same_text(a: &str, b: &str) -> (same: bool)
    ensures
        same == (a@ == b@),
{
    let x = a.as_bytes();
    let y = b.as_bytes();
    proof {
        encode_utf8_decode_utf8(a@);
        encode_utf8_decode_utf8(b@);
    }
    if x.len() != y.len() {
        return false;
    }
    let mut at: usize = 0;
    while at < x.len()
        invariant
            at <= x.len(),
            x.len() == y.len(),
            x@ == encode_utf8(a@),
            y@ == encode_utf8(b@),
            forall|i: int| 0 <= i < at ==> x[i] == y[i],
        decreases x.len() - at,
    {
        if x[at] != y[at] {
            return false;
        }
        at += 1;
    }
    assert(x@ =~= y@);
    true
}

/// The text of `base` with `child` adjoined.
///
/// An absolute `child` stands for itself; an empty `base` adds nothing; one
/// separator stands between the two unless `base` already ends in one.
pub open spec fn joined(base: Seq<char>, child: Seq<char>) -> Seq<char> {
    if child.len() > 0 && child[0] == '/' {
        child
    } else if base.len() == 0 {
        child
    } else if base[base.len() - 1] == '/' {
        base + child
    } else {
        base + seq!['/'] + child
    }
}

/// Adjoins `child` to `base`.
pub fn join_path(base: &str, child: &str) -> (path: String)
    ensures
        path@ == joined(base@, child@),
{
    let base_len: usize = base.unicode_len();
    let child_len: usize = child.unicode_len();
    if child_len > 0 && child.get_char(0) == '/' {
        String::from_str(child)
    } else if base_len == 0 {
        String::from_str(child)
    } else if base.get_char(base_len - 1) == '/' {
        String::from_str(base).concat(child)
    } else {
        proof {
            reveal_strlit("/");
            assert("/"@ =~= seq!['/']);
        }
        String::from_str(base).concat("/").concat(child)
    }
}

} // verus!
