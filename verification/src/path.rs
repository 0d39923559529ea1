//! Socket paths: when one is absolute, and how a relative one is resolved.

use vstd::prelude::*;
use vstd::string::StringExecFns;
use vstd::string::StrSliceExecFns;

verus! {

/// `std::io::Error`, as the resolution of a path hands it back. It is carried
/// to where its text is taken; nothing is claimed of it.
#[verifier::external_type_specification]
#[verifier::external_body]
pub struct ExIoError(std::io::Error);

/// Whether a path starts at the root of the file system.
pub open spec fn spec_is_absolute(path: Seq<char>) -> bool {
    path.len() > 0 && path[0] == '/'
}

/// `path` appended to `base` as one more stretch of components: a separator
/// comes between them unless `base` is empty or already ends in one.
pub open spec fn spec_append(base: Seq<char>, path: Seq<char>) -> Seq<char> {
    if base.len() == 0 || base.last() == '/' {
        base + path
    } else {
        base + seq!['/'] + path
    }
}

/// `path` as seen from `base`: itself where it is absolute, else appended to `base`.
pub open spec fn spec_join(base: Seq<char>, path: Seq<char>) -> Seq<char> {
    if spec_is_absolute(path) {
        path
    } else {
        spec_append(base, path)
    }
}

/// Whether `path` starts at the root of the file system.
pub fn is_absolute(path: &str) -> (absolute: bool)
    ensures
        absolute == spec_is_absolute(path@),
{
    !path.is_empty() && path.get_char(0) == '/'
}

/// Joins `path` to `base` by the text alone, without looking at the file
/// system, as `std::path::Path::join` does on Unix.
pub fn join(base: String, path: String) -> (joined: String)
    ensures
        joined@ == spec_join(base@, path@),
{
    if is_absolute(path.as_str()) {
        return path;
    }
    let len: usize = base.as_str().unicode_len();
    let ends_in_separator = len > 0 && base.as_str().get_char(len - 1) == '/';
    let mut joined = base;
    if len > 0 && !ends_in_separator {
        proof {
            reveal_strlit("/");
        }
        joined.append("/");
    }
    joined.append(path.as_str());
    joined
}

/// What holds of every outcome of resolving a path below a directory as the
/// file system stands: a path that comes back is absolute.
pub open spec fn spec_scoped(resolved: Result<Seq<char>, Seq<char>>) -> bool {
    resolved matches Ok(path) ==> spec_is_absolute(path)
}

/// Calls `safe_path::scoped_join`, which resolves `unsafe_path` below `root` as
/// the file system stands, symbolic links included. What comes back depends on
/// what is on disk. It is claimed to be absolute: `scoped_join` builds it on
/// the canonical form of `root`. A path that is not valid UTF-8 comes back
/// with the offending bytes replaced.
#[verifier::external_body]
pub(crate) fn scoped_join(root: &str, unsafe_path: &str) -> (joined: Result<String, std::io::Error>)
    ensures
        joined matches Ok(path) ==> spec_is_absolute(path@),
{
    match safe_path::scoped_join(root, unsafe_path) {
        Ok(path) => Ok(path.to_string_lossy().into_owned()),
        Err(e) => Err(e),
    }
}

} // verus!
