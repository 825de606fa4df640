//! A small string model of file paths: joining with a separator and
//! appending an extension. Paths are plain strings throughout the crate, so
//! every path a build step uses can be pinned down character for character.

use vstd::prelude::*;
use vstd::string::StringExecFns;

verus! {

/// `base` and `child` joined with a single separator; an empty base
/// contributes nothing but the child.
pub open spec fn join_seq(base: Seq<char>, child: Seq<char>) -> Seq<char> {
    if base.len() == 0 {
        child
    } else {
        base + seq!['/'] + child
    }
}

/// `path` with `ext` appended after a dot.
pub open spec fn ext_seq(path: Seq<char>, ext: Seq<char>) -> Seq<char> {
    path + seq!['.'] + ext
}

/// Join two path components with a separator.
pub fn join_path(base: &str, child: &str) -> (r: String)
    ensures
        r@ == join_seq(base@, child@),
{
    if base.is_empty() {
        String::from_str(child)
    } else {
        proof {
            reveal_strlit("/");
        }
        let mut s = String::from_str(base);
        s.append("/");
        s.append(child);
        s
    }
}

/// Append an extension to a path.
pub fn with_extension(path: &str, ext: &str) -> (r: String)
    ensures
        r@ == ext_seq(path@, ext@),
{
    proof {
        reveal_strlit(".");
    }
    let mut s = String::from_str(path);
    s.append(".");
    s.append(ext);
    s
}

/// Concatenate two strings.
pub fn concat_str(a: &str, b: &str) -> (r: String)
    ensures
        r@ == a@ + b@,
{
    let mut s = String::from_str(a);
    s.append(b);
    s
}

} // verus!
