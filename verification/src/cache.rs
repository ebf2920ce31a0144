//! Change detection: whether the last successful build still stands.
//!
//! The lock file holds the digest of the source tree as it was when a build
//! last succeeded: the raw bytes, nothing else. A build may be skipped only
//! while those bytes equal the digest of the tree as it is now.

use crate::error::{BuildError, BuildErrorView};
use vstd::prelude::*;
use vstd::string::*;

verus! {

/// Where the lock file stands, relative to the project root.
pub open spec fn lock_file() -> Seq<char> {
    "Cup.lock"@
}

pub fn lock_path() -> (path: String)
    ensures
        path@ == lock_file(),
{
    String::from_str("Cup.lock")
}

/// Compares two digests byte by byte.
pub fn same_digest(stored: &Vec<u8>, digest: &Vec<u8>) -> (same: bool)
    ensures
        same == (stored@ == digest@),
{
    if stored.len() != digest.len() {
        return false;
    }
    let mut i: usize = 0;
    while i < stored.len()
        invariant
            i <= stored.len(),
            stored.len() == digest.len(),
            forall|j: int| 0 <= j < i ==> stored@[j] == digest@[j],
        decreases stored.len() - i,
    {
        if stored[i] != digest[i] {
            return false;
        }
        i += 1;
    }
    assert(stored@ =~= digest@);
    true
}

/// The bytes of a lock or digest that may be absent.
pub open spec fn bytes_of(record: Option<Vec<u8>>) -> Option<Seq<u8>> {
    match record {
        Some(bytes) => Some(bytes@),
        None => None,
    }
}

/// What `check_dir_for_changes` owes: without a lock file a rebuild, and the
/// digest is not asked for; with one, an error where the tree could not be
/// hashed, else whether the two agree.
pub open spec fn unchanged(lock: Option<Seq<u8>>, digest: Option<Seq<u8>>) -> Result<
    bool,
    BuildErrorView,
> {
    match lock {
        None => Ok(false),
        Some(stored) => match digest {
            None => Err(BuildErrorView::Digest),
            Some(current) => Ok(stored == current),
        },
    }
}

/// Decides whether compilation may be skipped: `Ok(true)` exactly where a
/// lock file was read and holds the current digest of the source tree.
///
/// `lock` is what the lock file holds, `None` where it could not be opened;
/// `digest` is the digest of the source tree, `None` where hashing failed.
pub fn check_dir_for_changes(lock: &Option<Vec<u8>>, digest: &Option<Vec<u8>>) -> (verdict: Result<
    bool,
    BuildError,
>)
    ensures
        match unchanged(bytes_of(*lock), bytes_of(*digest)) {
            Ok(skip) => verdict == Ok::<bool, BuildError>(skip),
            Err(error) => verdict matches Err(reported) && reported@ == error,
        },
{
    match lock {
        None => Ok(false),
        Some(stored) => match digest {
            None => Err(BuildError::Digest),
            Some(current) => Ok(same_digest(stored, current)),
        },
    }
}

} // verus!
