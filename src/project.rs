//! Projects, their health states and the jobs that build them.

use vstd::prelude::*;

verus! {

/// Owner of the jobs that a push notification triggers: no account has this id.
pub const GITHUB_PUSH_NOTIFY_ID: u64 = 23;

/// A registered build project.
#[derive(Debug)]
pub struct Project {
    /// The project's identity, `origin/name`.
    pub id: String,
    /// Where the project's plan lies in its repository.
    pub plan_path: String,
    /// The account that owns the project.
    pub owner_id: u64,
    /// The clone URL of the project's repository.
    pub vcs_url: String,
}

impl Project {
    /// A copy of the project.
    pub fn duplicate(&self) -> (r: Project)
        ensures
            r == *self,
    {
        Project {
            id: self.id.clone(),
            plan_path: self.plan_path.clone(),
            owner_id: self.owner_id,
            vcs_url: self.vcs_url.clone(),
        }
    }
}

/// The health of a project. Only the failure states are ever written here.
#[derive(Clone, Copy, Debug, PartialEq, Eq, Structural)]
pub enum ProjectState {
    Active,
    OriginNameMismatch,
    BadPlan,
    MissingPlan,
    BadConfig,
}

/// A request to set a project's state.
#[derive(Debug)]
pub struct ProjectStateSet {
    pub id: String,
    pub state: ProjectState,
}

/// A request to build a project.
#[derive(Debug)]
pub struct JobSpec {
    /// The account the job runs for.
    pub owner_id: u64,
    pub project: Project,
}

} // verus!
