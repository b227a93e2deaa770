//! The step after a build: read the project's build configuration from the
//! workspace and decide whether to publish the built package.
//!
//! The caller reads the configuration file and uploads the package; this
//! module decides. A configuration file that cannot be read counts as absent
//! and gives the default configuration, which publishes; a malformed one
//! stops the step without publishing.

use vstd::prelude::*;
use crate::build_config::{BUILD_CFG_FILENAME, BuildCfg, build_cfg_of_text};
use crate::paths::{join, parent_of, path_join, path_parent};

verus! {

/// Where a finished build's configuration file lies.
#[derive(Debug)]
pub struct PostProcessor {
    config_path: String,
}

/// What the step does with the built package.
#[derive(Clone, Copy, Debug, PartialEq, Eq, Structural)]
pub enum PostAction {
    /// Upload the package to the depot.
    Publish,
    /// Publishing is disabled: end without uploading.
    Skip,
    /// The configuration is malformed: fail without uploading.
    Abort,
}

/// The configuration file of a workspace whose source lies at `src_root`,
/// for a plan at `plan_path`: beside the plan.
pub open spec fn workspace_config_path(src_root: Seq<char>, plan_path: Seq<char>) -> Seq<char> {
    path_join(src_root, path_join(path_parent(plan_path)->0, BUILD_CFG_FILENAME@))
}

/// The action for a configuration file with these contents, or none where
/// the file could not be read.
pub open spec fn post_action_of(contents: Option<Seq<char>>) -> PostAction {
    match contents {
        None => PostAction::Publish,
        Some(text) => match build_cfg_of_text(text) {
            Ok(cfg) => if cfg.enabled {
                PostAction::Publish
            } else {
                PostAction::Skip
            },
            Err(_) => PostAction::Abort,
        },
    }
}

impl PostProcessor {
    /// The step for a job whose plan lies at `plan_path`, built in a
    /// workspace whose source lies at `src_root`.
    pub fn new(plan_path: &str, src_root: &str) -> (r: PostProcessor)
        requires
            path_parent(plan_path@) is Some,
        ensures
            r.config_path()@ == workspace_config_path(src_root@, plan_path@),
    {
        let dir = match parent_of(plan_path) {
            Some(d) => d,
            None => String::new(),
        };
        let relative = join(dir.as_str(), BUILD_CFG_FILENAME);
        PostProcessor { config_path: join(src_root, relative.as_str()) }
    }

    /// The step for a job whose plan lies at `plan_path`, or `None` where
    /// that path has no parent directory to look for the configuration in.
    pub fn try_new(plan_path: &str, src_root: &str) -> (r: Option<PostProcessor>)
        ensures
            match r {
                Some(p) => path_parent(plan_path@) is Some && p.config_path()@
                    == workspace_config_path(src_root@, plan_path@),
                None => path_parent(plan_path@) is None,
            },
    {
        match parent_of(plan_path) {
            Some(_) => Some(PostProcessor::new(plan_path, src_root)),
            None => None,
        }
    }

    /// The path of the configuration file to read.
    pub closed spec fn config_path(&self) -> String {
        self.config_path
    }

    /// The path of the configuration file to read.
    pub fn path(&self) -> (r: &str)
        ensures
            r@ == self.config_path()@,
    {
        self.config_path.as_str()
    }

    /// What to do with the built package, given the contents of the
    /// configuration file, or `None` where it could not be read.
    pub fn run(&self, contents: &Option<String>) -> (r: PostAction)
        ensures
            r == post_action_of(
                match contents {
                    Some(s) => Some(s@),
                    None => None,
                },
            ),
    {
        match contents {
            None => PostAction::Publish,
            Some(text) => match BuildCfg::from_str(text.as_str()) {
                Ok(cfg) => if cfg.publish.enabled {
                    PostAction::Publish
                } else {
                    PostAction::Skip
                },
                Err(_) => PostAction::Abort,
            },
        }
    }

    /// Whether the step succeeded: only a package that was to be published
    /// and whose upload went through.
    pub fn succeeded(action: PostAction, uploaded: bool) -> (r: bool)
        ensures
            r == (action == PostAction::Publish && uploaded),
    {
        match action {
            PostAction::Publish => uploaded,
            _ => false,
        }
    }
}

/// With publishing disabled in a well-formed configuration, the package is
/// never uploaded.
pub proof fn lemma_disabled_never_publishes(text: Seq<char>)
    requires
        build_cfg_of_text(text) is Ok,
        !build_cfg_of_text(text)->Ok_0.enabled,
    ensures
        post_action_of(Some(text)) == PostAction::Skip,
{
}

/// A malformed configuration stops the step without an upload, while a file
/// that could not be read gives the default configuration, which publishes.
pub proof fn lemma_malformed_aborts_missing_publishes(text: Seq<char>)
    requires
        build_cfg_of_text(text) is Err,
    ensures
        post_action_of(Some(text)) == PostAction::Abort,
        post_action_of(None) == PostAction::Publish,
{
}

} // verus!
