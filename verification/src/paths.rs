//! Joining path strings the way the platform does.

use vstd::prelude::*;
use vstd::string::{StringExecFns, StrSliceExecFns};

verus! {

/// Joining a component onto a base path: an absolute component replaces
/// the base, an empty base contributes nothing, and a separator is
/// inserted only where the base does not already end in one.
pub open spec fn spec_path_join(base: Seq<char>, comp: Seq<char>) -> Seq<char> {
    if comp.len() > 0 && comp[0] == '/' {
        comp
    } else if base.len() == 0 {
        comp
    } else if base.last() == '/' {
        base + comp
    } else {
        base + seq!['/'] + comp
    }
}

/// Join one component onto a base path.
pub fn path_join(base: &str, comp: &str) -> (r: String)
    ensures
        r@ == spec_path_join(base@, comp@),
{
    proof {
        reveal_strlit("/");
    }
    if comp.unicode_len() > 0 && comp.get_char(0) == '/' {
        return comp.to_owned();
    }
    if base.unicode_len() == 0 {
        return comp.to_owned();
    }
    let n = base.unicode_len();
    let mut s = base.to_owned();
    if base.get_char(n - 1) != '/' {
        s.append("/");
        proof {
            assert(s@ =~= base@ + seq!['/']);
        }
    }
    s.append(comp);
    proof {
        if base@.last() != '/' {
            assert(s@ =~= base@ + seq!['/'] + comp@);
        }
    }
    s
}

} // verus!
