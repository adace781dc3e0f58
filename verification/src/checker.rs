//! The rewrite-policy check run on each (source, target) pair before a link
//! job is submitted.  The decision is a pure function of what the filesystem
//! says about the two paths; probing the paths, and carrying a removal out,
//! are the caller's side.

use vstd::prelude::*;

use crate::config::Config;

verus! {

/// What the filesystem says about one (source, target) pair at the moment of
/// the check.
#[derive(Clone, Copy, Debug, PartialEq, Eq, Structural)]
pub struct PathFacts {
    /// The source path exists.
    pub source_exists: bool,
    /// The target path exists (as anything).
    pub target_exists: bool,
    /// The target is a regular file.
    pub target_is_file: bool,
    /// The target is a symbolic link.
    pub target_is_symlink: bool,
    /// The target is a directory.
    pub target_is_dir: bool,
}

/// What may proceed for an accepted pair: link right away, or first remove
/// the existing target, with the removal that fits what the target is.
#[derive(Clone, Copy, Debug, PartialEq, Eq, Structural)]
pub enum PathAction {
    /// The target does not exist: link, nothing to remove.
    LinkOnly,
    /// The target is a file or a symbolic link: remove it as a file, then
    /// link.
    RemoveFileFirst,
    /// The target is a directory: remove it as a tree, then link.
    RemoveDirFirst,
}

/// The source check: a pair whose source does not exist is rejected.
pub open spec fn spec_check_source_exist(source_exists: bool) -> Result<(), ()> {
    if source_exists {
        Ok(())
    } else {
        Err(())
    }
}

/// The rewrite check on the target.  A target that does not exist needs no
/// action.  An existing target is rejected unless rewriting is allowed; under
/// rewriting, a file or symbolic link is removed as a file, a directory as a
/// tree, and anything else is rejected.
pub open spec fn spec_check_rewrite_target(rewrite: bool, facts: PathFacts) -> Result<
    PathAction,
    (),
> {
    if !facts.target_exists {
        Ok(PathAction::LinkOnly)
    } else if !rewrite {
        Err(())
    } else if facts.target_is_file || facts.target_is_symlink {
        Ok(PathAction::RemoveFileFirst)
    } else if facts.target_is_dir {
        Ok(PathAction::RemoveDirFirst)
    } else {
        Err(())
    }
}

/// Both checks in order: the source must exist, then the target must pass
/// the rewrite check.
pub open spec fn spec_check_path(rewrite: bool, facts: PathFacts) -> Result<PathAction, ()> {
    if facts.source_exists {
        spec_check_rewrite_target(rewrite, facts)
    } else {
        Err(())
    }
}

/// The source check ([`spec_check_source_exist`]).
pub fn check_source_exist(source_exists: bool) -> (res: Result<(), ()>)
    ensures
        res == spec_check_source_exist(source_exists),
{
    if source_exists {
        Ok(())
    } else {
        Err(())
    }
}

/// The rewrite check on the target ([`spec_check_rewrite_target`]).
pub fn check_rewrite_target(rewrite: bool, facts: PathFacts) -> (res: Result<PathAction, ()>)
    ensures
        res == spec_check_rewrite_target(rewrite, facts),
{
    if !facts.target_exists {
        return Ok(PathAction::LinkOnly);
    }
    match rewrite {
        false => Err(()),
        true if facts.target_is_file || facts.target_is_symlink => Ok(PathAction::RemoveFileFirst),
        true if facts.target_is_dir => Ok(PathAction::RemoveDirFirst),
        _ => Err(()),
    }
}

/// Decides whether a pair's link should proceed under the configuration's
/// rewrite policy, and with what preparatory removal: `Err` rejects the pair
/// ([`spec_check_path`]).
pub fn check_path(config: &Config, facts: PathFacts) -> (res: Result<PathAction, ()>)
    ensures
        res == spec_check_path(config.rewrite, facts),
{
    match check_source_exist(facts.source_exists) {
        Err(()) => Err(()),
        Ok(()) => check_rewrite_target(config.rewrite, facts),
    }
}

} // verus!
