//! Which changes trigger a build of a project.
//!
//! A changed path matches a trigger pattern when the pattern's path
//! components are the first components of the changed path. This is a prefix
//! test, not glob matching, although patterns may hold glob characters: the
//! default pattern `./*` matches only paths that begin with the components
//! `.` and `*`, so a configuration that relies on it triggers on no ordinary
//! repository path.

use vstd::prelude::*;
use crate::build_config::BUILD_CFG_FILENAME;
use crate::changeset::views;
use crate::paths::{join, parent_of, path_join, path_parent, path_starts_with, starts_with};

verus! {

/// Whether `path` lies under one of `triggers`.
pub open spec fn matches_trigger(path: Seq<char>, triggers: Seq<Seq<char>>) -> bool {
    exists|j: int| 0 <= j < triggers.len() && path_starts_with(path, #[trigger] triggers[j])
}

/// Whether one of the changed paths lies under one of `triggers`.
pub open spec fn triggered(changed: Seq<Seq<char>>, triggers: Seq<Seq<char>>) -> bool {
    exists|i: int| 0 <= i < changed.len() && matches_trigger(#[trigger] changed[i], triggers)
}

/// Whether `path` lies under one of `triggers`.
pub fn path_matches(path: &String, triggers: &Vec<String>) -> (r: bool)
    ensures
        r == matches_trigger(path@, views(triggers@)),
{
    let mut j: usize = 0;
    while j < triggers.len()
        invariant
            j <= triggers@.len(),
            forall|k: int| 0 <= k < j ==> !path_starts_with(path@, #[trigger] views(triggers@)[k]),
        decreases triggers@.len() - j,
    {
        if starts_with(path.as_str(), triggers[j].as_str()) {
            assert(path_starts_with(path@, views(triggers@)[j as int]));
            return true;
        }
        j = j + 1;
    }
    false
}

/// Whether one of `changed` lies under one of `triggers`: a build is due.
pub fn triggers_match(changed: &Vec<String>, triggers: &Vec<String>) -> (r: bool)
    ensures
        r == triggered(views(changed@), views(triggers@)),
{
    let mut i: usize = 0;
    while i < changed.len()
        invariant
            i <= changed@.len(),
            forall|k: int|
                0 <= k < i ==> !matches_trigger(#[trigger] views(changed@)[k], views(triggers@)),
        decreases changed@.len() - i,
    {
        if path_matches(&changed[i], triggers) {
            assert(matches_trigger(views(changed@)[i as int], views(triggers@)));
            return true;
        }
        i = i + 1;
    }
    false
}

/// Where a project's build configuration lies in its repository: beside the
/// plan, or at the root where the plan's path has no parent.
pub open spec fn config_path(plan_path: Seq<char>) -> Seq<char> {
    match path_parent(plan_path) {
        Some(dir) => path_join(dir, BUILD_CFG_FILENAME@),
        None => path_join("/"@, BUILD_CFG_FILENAME@),
    }
}

/// The path of the build configuration that goes with a plan.
pub fn config_path_for(plan_path: &str) -> (r: String)
    ensures
        r@ == config_path(plan_path@),
{
    match parent_of(plan_path) {
        Some(dir) => join(dir.as_str(), BUILD_CFG_FILENAME),
        None => join("/", BUILD_CFG_FILENAME),
    }
}

} // verus!
