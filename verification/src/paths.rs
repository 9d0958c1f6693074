//! Deriving the launcher's install directory from its executable's path.

use vstd::prelude::*;

verus! {

/// A character that ends a path segment.  Both separator conventions are
/// recognised, since the launcher handles Windows and Unix style paths.
pub open spec fn is_separator(c: char) -> bool {
    c == '/' || c == '\\'
}

/// The index of the last separator in `s`, or `-1` when none occurs.
pub open spec fn last_separator(s: Seq<char>) -> int
    decreases s.len(),
{
    if s.len() == 0 {
        -1
    } else if is_separator(s[s.len() - 1]) {
        s.len() - 1
    } else {
        last_separator(s.drop_last())
    }
}

/// The directory part of `path`: everything before the last separator.  A
/// path without a separator has no directory part, so the result is empty.
pub open spec fn parent_dir(path: Seq<char>) -> Seq<char> {
    if last_separator(path) >= 0 {
        path.subrange(0, last_separator(path))
    } else {
        Seq::<char>::empty()
    }
}

/// The install directory of the launcher, given the current executable's
/// path: the executable's parent directory, or the empty path when the
/// executable's path could not be determined.
pub open spec fn install_dir_of(exe_path: Option<String>) -> Seq<char> {
    match exe_path {
        Some(p) => parent_dir(p@),
        None => Seq::<char>::empty(),
    }
}

/// Strip the file name from the current executable's path to obtain the
/// launcher's install directory; an undetermined path yields the empty path
/// rather than an error.
pub fn get_execution_path(exe_path: Option<String>) -> (r: String)
    ensures
        r@ == install_dir_of(exe_path),
{
    match &exe_path {
        None => String::new(),
        Some(p) => {
            let s: &str = p.as_str();
            let n: usize = s.unicode_len();
            let mut i: usize = n;
            proof {
                assert(s@.subrange(0, n as int) =~= s@);
            }
            while i > 0
                invariant
                    i <= n,
                    n == s@.len(),
                    s@ == p@,
                    exe_path matches Some(q) && q@ == p@,
                    last_separator(p@) == last_separator(s@.subrange(0, i as int)),
                decreases i,
            {
                let c: char = s.get_char(i - 1);
                if c == '/' || c == '\\' {
                    proof {
                        assert(last_separator(s@.subrange(0, i as int)) == i - 1);
                    }
                    let dir: &str = s.substring_char(0, i - 1);
                    return String::from_str(dir);
                }
                proof {
                    assert(s@.subrange(0, i as int).drop_last() =~= s@.subrange(0, i - 1));
                }
                i = i - 1;
            }
            proof {
                assert(s@.subrange(0, 0) =~= Seq::<char>::empty());
            }
            String::new()
        },
    }
}

} // verus!
