//! Paths as text: the parts of a path stand one after the other with a slash between them.
use vstd::prelude::*;

verus! {

/// A relative path below a base.
pub open spec fn below(base: Seq<char>, relative: Seq<char>) -> Seq<char> {
    if base.len() == 0 {
        relative
    } else if base.last() == '/' {
        base + relative
    } else {
        base + "/"@ + relative
    }
}

/// A relative path below a base.
pub fn path_below(base: &str, relative: &str) -> (r: String)
    ensures
        r@ == below(base@, relative@),
{
    let n: usize = base.unicode_len();
    if n == 0 {
        relative.to_owned()
    } else if base.get_char(n - 1) == '/' {
        let mut r = base.to_owned();
        r.append(relative);
        r
    } else {
        let mut r = base.to_owned();
        r.append("/");
        r.append(relative);
        r
    }
}

} // verus!
