//! Paths below the sandbox root.
//!
//! A path is a string of bytes whose segments are separated by slashes. A
//! file is looked up at the root, joined with the bot identifier and the path
//! that was asked for. What the filesystem makes of that path, with its `.`
//! and `..` segments and its symbolic links resolved, is served only if it
//! still lies at or below the root.

use crate::bytes::{matches_at, occurs_at, SLASH};
use vstd::prelude::*;

verus! {

/// `path` begins at the root of the filesystem.
pub open spec fn is_absolute(path: Seq<u8>) -> bool {
    path.len() > 0 && path[0] == SLASH
}

/// `base` joined with `part`: an absolute `part` takes the place of `base`,
/// any other `part` follows `base` behind one slash, which is added where
/// `base` is not empty and does not end in one.
pub open spec fn joined(base: Seq<u8>, part: Seq<u8>) -> Seq<u8> {
    if is_absolute(part) {
        part
    } else if base.len() == 0 || base.last() == SLASH {
        base + part
    } else {
        base + seq![SLASH] + part
    }
}

/// Where the file `file_path` of the bot `bot_id` is looked up below `root`.
pub open spec fn request_path(root: Seq<u8>, bot_id: Seq<u8>, file_path: Seq<u8>) -> Seq<u8> {
    joined(joined(root, bot_id), file_path)
}

/// `path` is `root` or lies below it: it begins with `root`, and where it
/// goes on, it goes on in a new segment. Both are resolved paths, without
/// empty, `.` or `..` segments.
pub open spec fn within_root(root: Seq<u8>, path: Seq<u8>) -> bool {
    &&& occurs_at(path, root, 0)
    &&& (path.len() == root.len() || (root.len() > 0 && root.last() == SLASH)
        || path[root.len() as int] == SLASH)
}

/// Joins `base` with `part`.
pub fn join(base: &[u8], part: &[u8]) -> (r: Vec<u8>)
    ensures
        r@ == joined(base@, part@),
{
    let mut out: Vec<u8> = Vec::new();
    if part.len() > 0 && part[0] == SLASH {
        out.extend_from_slice(part);
        return out;
    }
    out.extend_from_slice(base);
    if base.len() > 0 && base[base.len() - 1] != SLASH {
        out.push(SLASH);
    }
    out.extend_from_slice(part);
    out
}

/// Builds the path at which the file `file_path` of the bot `bot_id` is
/// looked up below `root`.
pub fn lookup_path(root: &[u8], bot_id: &[u8], file_path: &[u8]) -> (r: Vec<u8>)
    ensures
        r@ == request_path(root@, bot_id@, file_path@),
{
    let directory = join(root, bot_id);
    join(directory.as_slice(), file_path)
}

/// Whether the resolved path `path` is `root` or lies below it.
pub fn is_within_root(root: &[u8], path: &[u8]) -> (r: bool)
    ensures
        r == within_root(root@, path@),
{
    if !matches_at(path, root, 0) {
        return false;
    }
    path.len() == root.len() || (root.len() > 0 && root[root.len() - 1] == SLASH)
        || path[root.len()] == SLASH
}

} // verus!
