//! The path resolver: what can be said of a path from its characters alone,
//! and the door to the filesystem for what cannot.
use vstd::prelude::*;
use vstd::string::{StrSliceExecFns, StringExecFns};
use crate::error::ResolutionError;

verus! {

/// A path that no filesystem can hold: it is empty or has a NUL in it.
pub open spec fn is_malformed(path: Seq<char>) -> bool {
    path.len() == 0 || path.contains('\0')
}

/// A path that does not start at the root.
pub open spec fn is_relative(path: Seq<char>) -> bool {
    path.len() == 0 || path[0] != '/'
}

/// Whether a segment `..` starts at index `i` of `path`.
pub open spec fn parent_segment_at(path: Seq<char>, i: int) -> bool {
    &&& 0 <= i
    &&& i + 2 <= path.len()
    &&& path[i] == '.'
    &&& path[i + 1] == '.'
    &&& (i == 0 || path[i - 1] == '/')
    &&& (i + 2 == path.len() || path[i + 2] == '/')
}

/// Whether one of the segments of `path` is `..`.
pub open spec fn has_parent_segment(path: Seq<char>) -> bool {
    exists|i: int| parent_segment_at(path, i)
}

/// Whether a grant can only be decided on the canonical form of `path`:
/// the path is relative, or it climbs with `..`, which may cross a symlink.
pub open spec fn needs_canonicalize(path: Seq<char>) -> bool {
    is_relative(path) || has_parent_segment(path)
}

/// `path` with each run of separators made one separator.
pub open spec fn squeeze(path: Seq<char>) -> Seq<char>
    decreases path.len(),
{
    if path.len() == 0 {
        path
    } else {
        let init = squeeze(path.drop_last());
        if path.last() == '/' && path.len() >= 2 && path[path.len() - 2] == '/' {
            init
        } else {
            init.push(path.last())
        }
    }
}

/// What normalization says of a path: an error for a malformed one, else
/// whether it must be made canonical, and its squeezed form.
pub open spec fn normalization(path: Seq<char>) -> Result<(bool, Seq<char>), ResolutionError> {
    if is_malformed(path) {
        Err(ResolutionError::Malformed)
    } else {
        Ok((needs_canonicalize(path), squeeze(path)))
    }
}

/// The content of a normalization result.
pub open spec fn normalized_view(n: Result<(bool, String), ResolutionError>) -> Result<
    (bool, Seq<char>),
    ResolutionError,
> {
    match n {
        Ok((needs, p)) => Ok((needs, p@)),
        Err(e) => Err(e),
    }
}

/// The content of a canonicalization result.
pub open spec fn resolved_view(c: Result<String, ResolutionError>) -> Result<
    Seq<char>,
    ResolutionError,
> {
    match c {
        Ok(p) => Ok(p@),
        Err(e) => Err(e),
    }
}

/// The filesystem's part of path resolution.
pub trait PathResolver {
    /// The canonical, absolute form of a normalized path, symlinks followed.
    /// Fails where the filesystem cannot give one. The answer depends on
    /// what the filesystem holds when it is asked, so nothing is said of it.
    fn resolved(&self, normalized: &str) -> Result<String, ResolutionError>;
}

/// Whether `path` has a NUL in it.
pub fn has_nul(path: &str) -> (b: bool)
    ensures
        b == path@.contains('\0'),
{
    let n: usize = path.unicode_len();
    let mut i: usize = 0;
    while i < n
        invariant
            i <= n,
            n == path@.len(),
            forall|k: int| 0 <= k < i ==> path@[k] != '\0',
        decreases n - i,
    {
        if path.get_char(i) == '\0' {
            return true;
        }
        i += 1;
    }
    false
}

/// Whether one of the segments of `path` is `..`.
pub fn climbs(path: &str) -> (b: bool)
    ensures
        b == has_parent_segment(path@),
{
    let n: usize = path.unicode_len();
    if n < 2 {
        return false;
    }
    let mut i: usize = 0;
    while n - i >= 2
        invariant
            i <= n,
            n == path@.len(),
            forall|k: int| 0 <= k < i ==> !parent_segment_at(path@, k),
        decreases n - i,
    {
        if path.get_char(i) == '.' && path.get_char(i + 1) == '.' {
            let opens = i == 0 || path.get_char(i - 1) == '/';
            let closes = i + 2 == n || path.get_char(i + 2) == '/';
            if opens && closes {
                assert(parent_segment_at(path@, i as int));
                return true;
            }
        }
        i += 1;
    }
    false
}

/// `path` with each run of separators made one separator.
pub fn squeezed(path: &str) -> (out: String)
    ensures
        out@ == squeeze(path@),
{
    let n: usize = path.unicode_len();
    let mut out = String::new();
    let mut i: usize = 0;
    let mut after_separator = false;
    while i < n
        invariant
            i <= n,
            n == path@.len(),
            out@ == squeeze(path@.take(i as int)),
            after_separator == (i > 0 && path@[i - 1] == '/'),
        decreases n - i,
    {
        let c = path.get_char(i);
        proof {
            let next = path@.take(i + 1);
            assert(next.drop_last() =~= path@.take(i as int));
            assert(next.last() == path@[i as int]);
            assert(path@.subrange(i as int, i + 1) =~= seq![path@[i as int]]);
        }
        if !(c == '/' && after_separator) {
            out.append(path.substring_char(i, i + 1));
            proof {
                assert(out@ =~= squeeze(path@.take(i as int)).push(path@[i as int]));
            }
        }
        after_separator = c == '/';
        i += 1;
    }
    proof {
        assert(path@.take(n as int) =~= path@);
    }
    out
}

/// Normalizes `path` by its characters alone; the filesystem is not asked.
///
/// Fails on a malformed path and on no other. Otherwise says whether the
/// path must be made canonical before a grant is decided, and hands back
/// the path with its runs of separators squeezed.
pub fn normalize(path: &str) -> (r: Result<(bool, String), ResolutionError>)
    ensures
        normalized_view(r) == normalization(path@),
{
    let n: usize = path.unicode_len();
    if n == 0 || has_nul(path) {
        return Err(ResolutionError::Malformed);
    }
    let relative = path.get_char(0) != '/';
    let needs = relative || climbs(path);
    Ok((needs, squeezed(path)))
}

} // verus!
