//! Building filesystem paths as plain strings, one component at a time.

use vstd::prelude::*;

verus! {

/// A path extended by one component behind a slash separator.
pub open spec fn spec_join(base: Seq<char>, name: Seq<char>) -> Seq<char> {
    base + seq!['/'] + name
}

/// `base` with `name` appended behind a slash separator.
pub fn join(base: &str, name: &str) -> (r: String)
    ensures
        r@ == spec_join(base@, name@),
{
    let mut s = base.to_owned();
    s.append("/");
    s.append(name);
    proof {
        reveal_strlit("/");
        assert("/"@ =~= seq!['/']);
        assert(s@ =~= spec_join(base@, name@));
    }
    s
}

} // verus!
