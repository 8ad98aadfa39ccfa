//! Paths as text: a directory and a name put together.

use vstd::prelude::*;
use vstd::string::StringExecFns;
use crate::command::Platform;
use crate::text::chars_of;

verus! {

/// The character that the platform puts between a directory and a name.
pub open spec fn separator(platform: Platform) -> char {
    match platform {
        Platform::Windows => '\\',
        _ => '/',
    }
}

/// Whether the platform reads `c` as the end of a directory's name.
pub open spec fn is_separator(platform: Platform, c: char) -> bool {
    c == '/' || (platform == Platform::Windows && c == '\\')
}

/// The path of `name` under `dir`: the two put together, with a separator
/// between them unless `dir` is empty or already ends in one.
pub open spec fn joined_path(platform: Platform, dir: Seq<char>, name: Seq<char>) -> Seq<char> {
    if dir.len() == 0 || is_separator(platform, dir.last()) {
        dir + name
    } else {
        dir.push(separator(platform)) + name
    }
}

/// The path of `name` under `dir`.
pub fn join_path(platform: Platform, dir: &str, name: &str) -> (path: String)
    ensures
        path@ == joined_path(platform, dir@, name@),
{
    let d = chars_of(dir);
    let mut path = dir.to_owned();
    if d.len() > 0 {
        let last = d[d.len() - 1];
        let windows = match platform {
            Platform::Windows => true,
            _ => false,
        };
        if !(last == '/' || (windows && last == '\\')) {
            path.push(if windows { '\\' } else { '/' });
        }
    }
    path.append(name);
    path
}

} // verus!
