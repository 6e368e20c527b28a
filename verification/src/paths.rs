//! File-system paths, held as text, and the user's directories.

use vstd::prelude::*;
use crate::text::{has_prefix, starts_with};

verus! {

/// The path that `std::path::Path::join` gives for a base path and a further
/// path, both given and taken as text.
pub uninterp spec fn joined_path(base: Seq<char>, part: Seq<char>) -> Seq<char>;

/// The last component of a path as `std::path::Path::file_name` gives it;
/// nothing where the path ends in `..` or has no component.
pub uninterp spec fn path_file_name(path: Seq<char>) -> Option<Seq<char>>;

/// `std::path::Path::join`: `part` appended to `base` as a further path.
#[verifier::external_body]
pub(crate) fn join_path(base: &str, part: &str) -> (r: String)
    ensures
        r@ == joined_path(base@, part@),
{
    std::path::Path::new(base).join(part).to_string_lossy().into_owned()
}

/// `std::path::Path::file_name`: the last component of `path`.
#[verifier::external_body]
pub(crate) fn file_name_of(path: &str) -> (r: Option<String>)
    ensures
        match r {
            Some(name) => path_file_name(path@) == Some(name@),
            None => path_file_name(path@) is None,
        },
{
    std::path::Path::new(path).file_name().map(|name| name.to_string_lossy().into_owned())
}

/// `dirs::home_dir`: the user's home directory, which depends on the
/// environment the process runs in. A directory whose name is not Unicode
/// text comes back as nothing.
#[verifier::external_body]
pub(crate) fn home_dir() -> Option<String> {
    dirs::home_dir().and_then(|dir| dir.into_os_string().into_string().ok())
}

/// `dirs::config_dir`: the user's configuration directory, which depends on
/// the environment the process runs in. A directory whose name is not Unicode
/// text comes back as nothing.
#[verifier::external_body]
pub(crate) fn config_dir() -> Option<String> {
    dirs::config_dir().and_then(|dir| dir.into_os_string().into_string().ok())
}

/// `dirs::cache_dir`: the user's cache directory, which depends on the
/// environment the process runs in. A directory whose name is not Unicode
/// text comes back as nothing.
#[verifier::external_body]
pub(crate) fn cache_dir() -> Option<String> {
    dirs::cache_dir().and_then(|dir| dir.into_os_string().into_string().ok())
}

/// What a path that may begin with `~/` stands for, given the home
/// directory: with a home directory, the rest of such a path joined to it;
/// any other path, and any path where there is no home directory, itself.
pub open spec fn expanded(path: Seq<char>, home: Option<Seq<char>>) -> Seq<char> {
    match home {
        Some(dir) => if has_prefix(path, seq!['~', '/']) {
            joined_path(dir, path.skip(2))
        } else {
            path
        },
        None => path,
    }
}

/// Replaces a leading `~/` of `path` by the home directory `home`.
pub fn expand_with_home(path: &str, home: Option<&str>) -> (r: String)
    ensures
        r@ == expanded(
            path@,
            match home {
                Some(dir) => Some(dir@),
                None => None,
            },
        ),
{
    proof {
        reveal_strlit("~/");
        assert("~/"@ =~= seq!['~', '/']);
    }
    if starts_with(path, "~/") {
        if let Some(dir) = home {
            let n: usize = path.unicode_len();
            let rest = path.substring_char(2, n);
            assert(rest@ =~= path@.skip(2));
            return join_path(dir, rest);
        }
    }
    String::from_str(path)
}

} // verus!
