//! Decisions behind the console-facing routes.
//!
//! The routes themselves (HTTP handling, session cookies, reading files)
//! live with the caller; this module holds what they decide: which fixed
//! identity a placeholder login name maps to, and whether a relative asset
//! path resolves to a servable file.

use crate::text::str_eq;
use vstd::prelude::*;

verus! {

/// Parameters of a login request.
#[derive(Clone, Debug, PartialEq, Eq)]
pub struct LoginParams {
    pub username: String,
}

/// The rest-of-path captured by a catchall route, split into segments.
#[derive(Clone, Debug, PartialEq, Eq)]
pub struct RestPathParam {
    pub path: Vec<String>,
}

/// The fixed identity behind the placeholder "privileged" login.
pub const PRIVILEGED_USER_ID: u128 = 1;

/// The fixed identity behind the placeholder "unprivileged" login.
pub const UNPRIVILEGED_USER_ID: u128 = 2;

/// The identity a placeholder login maps to: only the two fixed login names
/// are accepted, every other name is rejected.
pub fn login_user_id(params: &LoginParams) -> (r: Option<u128>)
    ensures
        params.username@ == "privileged"@ ==> r == Some(PRIVILEGED_USER_ID),
        params.username@ == "unprivileged"@ ==> r == Some(UNPRIVILEGED_USER_ID),
        params.username@ != "privileged"@ && params.username@ != "unprivileged"@ ==> r is None,
{
    proof {
        reveal_strlit("privileged");
        reveal_strlit("unprivileged");
        assert("privileged"@.len() == 10);
        assert("unprivileged"@.len() == 12);
    }
    if str_eq(params.username.as_str(), "privileged") {
        Some(PRIVILEGED_USER_ID)
    } else if str_eq(params.username.as_str(), "unprivileged") {
        Some(UNPRIVILEGED_USER_ID)
    } else {
        None
    }
}

/// What the file tree shows at one node of a path walk.
#[derive(Clone, Copy, Debug, PartialEq, Eq, Structural)]
pub enum NodeKind {
    /// Nothing exists at this path (or its metadata cannot be read).
    Missing,
    /// A symbolic link.
    Symlink,
    /// A directory.
    Directory,
    /// A regular file (or any other non-directory node).
    File,
}

/// Outcome of resolving a relative path against an asset root.
#[derive(Clone, Copy, Debug, PartialEq, Eq, Structural)]
pub enum FileLookup {
    /// The walk ended at a non-directory node: the file may be served.
    Found,
    /// A segment was missing, or the walk tried to descend below a
    /// non-directory node.
    NotFound,
    /// A segment is a symbolic link; the walk never follows one.
    SymlinkRejected,
    /// The walk ended at a directory, which cannot be served.
    IsDirectory,
}

/// How a path walk resolves, given what the file tree shows below the root:
/// `observations[i]` describes the node reached after descending the first
/// `i + 1` segments. The walk descends only through directories, rejects any
/// symbolic link, and in the end only a non-directory node is servable.
pub open spec fn spec_resolve_walk(prev_is_dir: bool, observations: Seq<NodeKind>) -> FileLookup
    decreases observations.len(),
{
    if observations.len() == 0 {
        if prev_is_dir {
            FileLookup::IsDirectory
        } else {
            FileLookup::Found
        }
    } else if !prev_is_dir {
        FileLookup::NotFound
    } else {
        match observations[0] {
            NodeKind::Missing => FileLookup::NotFound,
            NodeKind::Symlink => FileLookup::SymlinkRejected,
            NodeKind::Directory => spec_resolve_walk(true, observations.drop_first()),
            NodeKind::File => spec_resolve_walk(false, observations.drop_first()),
        }
    }
}

/// Resolves one path walk from the nodes the caller observed below the root.
///
/// The caller starts from its asset root (`root_is_dir` says whether that
/// root is a directory) and reports the node found after each segment; this
/// function decides whether the walk ends at a servable file, and why not
/// otherwise.
pub fn resolve_walk(root_is_dir: bool, observations: &Vec<NodeKind>) -> (r: FileLookup)
    ensures
        r == spec_resolve_walk(root_is_dir, observations@),
{
    let mut current_is_dir = root_is_dir;
    let mut i: usize = 0;
    proof {
        assert(observations@.skip(0int) =~= observations@);
    }
    while i < observations.len()
        invariant
            i <= observations@.len(),
            spec_resolve_walk(root_is_dir, observations@) == spec_resolve_walk(
                current_is_dir,
                observations@.skip(i as int),
            ),
        decreases observations@.len() - i,
    {
        proof {
            assert(observations@.skip(i as int)[0] == observations@[i as int]);
            assert(observations@.skip(i as int).drop_first() =~= observations@.skip(i + 1int));
        }
        if !current_is_dir {
            return FileLookup::NotFound;
        }
        match observations[i] {
            NodeKind::Missing => {
                return FileLookup::NotFound;
            },
            NodeKind::Symlink => {
                return FileLookup::SymlinkRejected;
            },
            NodeKind::Directory => {
                current_is_dir = true;
            },
            NodeKind::File => {
                current_is_dir = false;
            },
        }
        i = i + 1;
    }
    proof {
        assert(observations@.skip(observations@.len() as int) =~= Seq::<NodeKind>::empty());
    }
    if current_is_dir {
        FileLookup::IsDirectory
    } else {
        FileLookup::Found
    }
}

} // verus!
