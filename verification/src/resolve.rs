//! Executable path resolution: done once, in the caller's context,
//! before the control flow forks.

use vstd::prelude::*;
use vstd::string::StrSliceExecFns;
use vstd::string::StringExecFns;

verus! {

/// The view of an optional borrowed string.
pub open spec fn opt_str_view(o: Option<&str>) -> Option<Seq<char>> {
    match o {
        Some(s) => Some(s@),
        None => None,
    }
}

/// Where the spawn engine looks for the executable. A path that holds a
/// scheme delimiter or a path separator is used verbatim. A bare name is
/// appended to the directory named by the caller's search-path variable
/// (`.` when the variable is unset), with a separator inserted if the
/// directory does not already end in one.
pub open spec fn spec_resolve_path(path: Seq<char>, path_env: Option<Seq<char>>) -> Seq<char> {
    if path.contains(':') || path.contains('/') {
        path
    } else {
        let dir = match path_env {
            Some(d) => d,
            None => seq!['.'],
        };
        let dir_slash = if dir.len() > 0 && dir.last() == '/' {
            dir
        } else {
            dir.push('/')
        };
        dir_slash + path
    }
}

/// Whether the string holds the given character.
fn contains_char(s: &str, c: char) -> (r: bool)
    ensures
        r == s@.contains(c),
{
    let n = s.unicode_len();
    let mut i: usize = 0;
    while i < n
        invariant
            n == s@.len(),
            i <= n,
            forall|j: int| 0 <= j < i ==> s@[j] != c,
        decreases n - i,
    {
        if s.get_char(i) == c {
            return true;
        }
        i = i + 1;
    }
    false
}

/// Whether the string ends in a path separator.
fn ends_with_slash(s: &String) -> (r: bool)
    ensures
        r == (s@.len() > 0 && s@.last() == '/'),
{
    let n = s.as_str().unicode_len();
    if n == 0 {
        false
    } else {
        s.as_str().get_char(n - 1) == '/'
    }
}

/// Resolve the executable path against the value of the caller's
/// search-path variable, exactly as `spec_resolve_path` describes.
pub fn resolve_path(path: &str, path_env: Option<&str>) -> (r: String)
    ensures
        r@ == spec_resolve_path(path@, opt_str_view(path_env)),
{
    if contains_char(path, ':') || contains_char(path, '/') {
        path.to_owned()
    } else {
        let mut dir: String = match path_env {
            Some(d) => d.to_owned(),
            None => {
                let d = String::from_str(".");
                proof {
                    reveal_strlit(".");
                    assert(d@ =~= seq!['.']);
                }
                d
            },
        };
        if !ends_with_slash(&dir) {
            let ghost dir0 = dir@;
            dir.append("/");
            proof {
                reveal_strlit("/");
                assert(dir@ =~= dir0.push('/'));
            }
        }
        dir.append(path);
        dir
    }
}

} // verus!
