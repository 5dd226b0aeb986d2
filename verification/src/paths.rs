//! Joining a relative path onto a base path.
//!
//! The library keeps paths as plain strings and defines the join it relies
//! on: the two components with exactly one `/` between them, except that an
//! empty base or an absolute right-hand side yields the right-hand side
//! alone.

use vstd::prelude::*;

verus! {

/// What joining `rel` onto `base` yields: `rel` itself when `base` is empty
/// or `rel` starts with `/`; otherwise `base` and `rel` with exactly one `/`
/// between them.
pub open spec fn spec_join(base: Seq<char>, rel: Seq<char>) -> Seq<char> {
    if base.len() == 0 {
        rel
    } else if rel.len() > 0 && rel[0] == '/' {
        rel
    } else if base[base.len() - 1] == '/' {
        base + rel
    } else {
        base + seq!['/'] + rel
    }
}

/// Joins the relative path `rel` onto `base`.
pub fn join(base: &str, rel: &str) -> (r: String)
    ensures
        r@ == spec_join(base@, rel@),
{
    if base.is_empty() {
        return String::from_str(rel);
    }
    if !rel.is_empty() && rel.get_char(0) == '/' {
        return String::from_str(rel);
    }
    let blen: usize = base.unicode_len();
    if base.get_char(blen - 1) == '/' {
        String::from_str(base).concat(rel)
    } else {
        let mut r = String::from_str(base);
        r.append("/");
        r.append(rel);
        proof {
            reveal_strlit("/");
            assert(r@ =~= base@ + seq!['/'] + rel@);
        }
        r
    }
}

} // verus!
