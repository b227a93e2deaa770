//! Bodies of the service's HTTP requests and responses.

use vstd::prelude::*;

verus! {

/// A request to build a project.
#[derive(Clone, Debug)]
pub struct JobCreateReq {
    pub project_id: String,
}

/// A request to register a project.
#[derive(Clone, Debug)]
pub struct ProjectCreateReq {
    pub origin: String,
    pub plan_path: String,
    pub github: GitHubProject,
}

/// A request to change a project's plan or repository.
#[derive(Clone, Debug)]
pub struct ProjectUpdateReq {
    pub plan_path: String,
    pub github: GitHubProject,
}

/// A repository on the source-control provider.
#[derive(Clone, Debug)]
pub struct GitHubProject {
    pub organization: String,
    pub repo: String,
}

/// A request to grant a feature to a team.
#[derive(Clone, Debug)]
pub struct FeatureGrant {
    pub team_id: u64,
}

/// The list of feature flags.
#[derive(Clone, Debug)]
pub struct FeatureFlagList(pub Vec<FeatureFlag>);

/// One feature flag.
#[derive(Clone, Debug)]
pub struct FeatureFlag {
    pub name: String,
    pub id: u32,
}

/// A search of the administration interface.
#[derive(Clone, Debug)]
pub struct SearchTerm {
    pub attr: String,
    pub entity: String,
    pub value: String,
}

/// A request to create an origin.
#[derive(Clone, Debug)]
pub struct OriginCreateReq {
    pub name: String,
}

/// One page of a package listing.
pub struct PackageResults<'a, T: 'a> {
    pub range_start: isize,
    pub range_end: isize,
    pub total_count: isize,
    pub package_list: &'a Vec<T>,
}

} // verus!
