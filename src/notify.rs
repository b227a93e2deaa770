//! Handling of a push notification: for each project registered for the
//! pushed repository, check its plan and build configuration, record a
//! failure state where a check fails, and build a job where a changed path
//! lies under one of its triggers.
//!
//! The repository's files and the routing layer are reached by the caller,
//! which drives a `PushSession`: the session names each file to fetch, and
//! once a project is decided it says what to send, a job or a state change.
//! One project's failure never stops the next project.

use vstd::prelude::*;
use crate::build_config::{BuildCfg, BuildCfgModel, build_cfg_of_bytes, cfg_result_is, default_cfg};
use crate::changeset::views;
use crate::plan::{Plan, ProjectId, identity, plan_of_text, plan_result_is};
use crate::project::{GITHUB_PUSH_NOTIFY_ID, JobSpec, Project, ProjectState, ProjectStateSet};
use crate::text::utf8_lossy;
use crate::trigger::{config_path, config_path_for, matches_trigger, triggers_match};
use crate::webhook::{GitHubWebhookPush, is_changeset, touched};

verus! {

/// The kinds of notification the provider sends that this service handles.
#[derive(Clone, Copy, Debug, PartialEq, Eq, Structural)]
pub enum GitHubEvent {
    /// Sent when a hook is set up: answered with success and nothing else.
    Ping,
    /// Commits were pushed.
    Push,
}

/// The event that a notification's event header names.
pub open spec fn event_of(name: Seq<char>) -> Option<GitHubEvent> {
    if name == "ping"@ {
        Some(GitHubEvent::Ping)
    } else if name == "push"@ {
        Some(GitHubEvent::Push)
    } else {
        None
    }
}

impl GitHubEvent {
    /// The event named in a notification's event header; other names are
    /// rejected as a bad request.
    pub fn from_name(name: &str) -> (r: Option<GitHubEvent>)
        ensures
            r == event_of(name@),
    {
        let n = name.to_owned();
        if n == "ping".to_owned() {
            Some(GitHubEvent::Ping)
        } else if n == "push".to_owned() {
            Some(GitHubEvent::Push)
        } else {
            None
        }
    }
}

/// What fetching a file from a repository gave.
#[derive(Clone, Debug)]
pub enum FileFetch {
    /// The file's decoded contents.
    Contents(Vec<u8>),
    /// The file was found but its contents could not be decoded.
    Undecodable,
    /// The file could not be fetched: it is missing, or the service failed.
    Unavailable,
}

/// What to do for one project of a push.
#[derive(Debug)]
pub enum ProjectOutcome {
    /// Dispatch this job.
    Dispatch(JobSpec),
    /// A check failed: dispatch this state change and build nothing.
    Transition(ProjectStateSet),
    /// All checks passed but no changed path lies under a trigger.
    NotTriggered,
}

/// The decision for one project, without its payload.
pub enum Verdict {
    Dispatch,
    Transition(ProjectState),
    NotTriggered,
}

/// The failure state that a project's plan puts it in, or `None` where the
/// plan was fetched, reads, and declares the project's own identity. A plan
/// that could not be fetched or decoded is missing; one that does not read
/// is bad.
pub open spec fn manifest_verdict(project: Project, manifest: FileFetch) -> Option<ProjectState> {
    match manifest {
        FileFetch::Unavailable => Some(ProjectState::MissingPlan),
        FileFetch::Undecodable => Some(ProjectState::MissingPlan),
        FileFetch::Contents(b) => match plan_of_text(utf8_lossy(b@)) {
            None => Some(ProjectState::BadPlan),
            Some((origin, name)) => if identity(origin, name) != project.id@ {
                Some(ProjectState::OriginNameMismatch)
            } else {
                None
            },
        },
    }
}

/// The build configuration that a fetch gives: the default where the file
/// could not be fetched, and the `BadConfig` state where it is malformed.
pub open spec fn config_verdict(config: FileFetch) -> Result<BuildCfgModel, ProjectState> {
    match config {
        FileFetch::Unavailable => Ok(default_cfg()),
        FileFetch::Undecodable => Err(ProjectState::BadConfig),
        FileFetch::Contents(b) => match build_cfg_of_bytes(b@) {
            Ok(c) => Ok(c),
            Err(_) => Err(ProjectState::BadConfig),
        },
    }
}

/// Whether some path that `commits` touched lies under one of `triggers`.
pub open spec fn push_triggers(commits: Seq<crate::webhook::GitHubWebhookCommit>, triggers: Seq<Seq<char>>) -> bool {
    exists|x: Seq<char>| touched(commits, x) && #[trigger] matches_trigger(x, triggers)
}

/// The decision for a project: the plan's checks first, then the
/// configuration's, then the triggers. The configuration is not read where
/// the plan fails.
pub open spec fn project_verdict(
    project: Project,
    manifest: FileFetch,
    config: FileFetch,
    commits: Seq<crate::webhook::GitHubWebhookCommit>,
) -> Verdict {
    match manifest_verdict(project, manifest) {
        Some(state) => Verdict::Transition(state),
        None => match config_verdict(config) {
            Err(state) => Verdict::Transition(state),
            Ok(cfg) => if push_triggers(commits, cfg.triggers) {
                Verdict::Dispatch
            } else {
                Verdict::NotTriggered
            },
        },
    }
}

/// `o` carries out verdict `v` for `project`: a job owned by `owner` that
/// builds the project, or a state change of the project.
pub open spec fn outcome_is(o: ProjectOutcome, v: Verdict, project: Project, owner: u64) -> bool {
    match (o, v) {
        (ProjectOutcome::Dispatch(job), Verdict::Dispatch) => job.owner_id == owner && job.project
            == project,
        (ProjectOutcome::Transition(set), Verdict::Transition(state)) => set.id@ == project.id@
            && set.state == state,
        (ProjectOutcome::NotTriggered, Verdict::NotTriggered) => true,
        _ => false,
    }
}

/// The failure state that a fetched plan puts `project` in, if any.
pub fn check_manifest(project: &Project, manifest: &FileFetch) -> (r: Option<ProjectState>)
    ensures
        r == manifest_verdict(*project, *manifest),
{
    match manifest {
        FileFetch::Unavailable => Some(ProjectState::MissingPlan),
        FileFetch::Undecodable => Some(ProjectState::MissingPlan),
        FileFetch::Contents(bytes) => {
            let plan = Plan::from_bytes(bytes.as_slice());
            match plan {
                Err(_) => Some(ProjectState::BadPlan),
                Ok(plan) => {
                    let id = plan.project_id();
                    if id != project.id {
                        Some(ProjectState::OriginNameMismatch)
                    } else {
                        None
                    }
                },
            }
        },
    }
}

/// The build configuration that a fetch gives, or the state to record.
pub fn resolve_config(config: &FileFetch) -> (r: Result<BuildCfg, ProjectState>)
    ensures
        match r {
            Ok(c) => config_verdict(*config) == Ok::<BuildCfgModel, ProjectState>(c@),
            Err(s) => config_verdict(*config) == Err::<BuildCfgModel, ProjectState>(s),
        },
{
    match config {
        FileFetch::Unavailable => Ok(BuildCfg::default()),
        FileFetch::Undecodable => Err(ProjectState::BadConfig),
        FileFetch::Contents(bytes) => match BuildCfg::from_bytes(bytes.as_slice()) {
            Ok(c) => Ok(c),
            Err(_) => Err(ProjectState::BadConfig),
        },
    }
}

/// What to do for one project of a push whose change set is `changed`.
pub fn evaluate_project(
    project: &Project,
    manifest: &FileFetch,
    config: &FileFetch,
    push: &GitHubWebhookPush,
    changed: &Vec<String>,
) -> (r: ProjectOutcome)
    requires
        is_changeset(push.commits@, views(changed@)),
    ensures
        outcome_is(
            r,
            project_verdict(*project, *manifest, *config, push.commits@),
            *project,
            GITHUB_PUSH_NOTIFY_ID,
        ),
{
    decide_project(project, manifest, config, changed, Ghost(push.commits@))
}

fn decide_project(
    project: &Project,
    manifest: &FileFetch,
    config: &FileFetch,
    changed: &Vec<String>,
    commits: Ghost<Seq<crate::webhook::GitHubWebhookCommit>>,
) -> (r: ProjectOutcome)
    requires
        is_changeset(commits@, views(changed@)),
    ensures
        outcome_is(r, project_verdict(*project, *manifest, *config, commits@), *project, GITHUB_PUSH_NOTIFY_ID),
{
    if let Some(state) = check_manifest(project, manifest) {
        return ProjectOutcome::Transition(ProjectStateSet { id: project.id.clone(), state });
    }
    let cfg = match resolve_config(config) {
        Err(state) => {
            return ProjectOutcome::Transition(ProjectStateSet { id: project.id.clone(), state });
        },
        Ok(cfg) => cfg,
    };
    let hit = triggers_match(changed, &cfg.triggers);
    proof {
        let ts = views(cfg.triggers@);
        let cs = views(changed@);
        if hit {
            let i = choose|i: int| 0 <= i < cs.len() && matches_trigger(#[trigger] cs[i], ts);
            assert(cs.contains(cs[i]));
            assert(touched(commits@, cs[i]));
        }
        if push_triggers(commits@, ts) {
            let x = choose|x: Seq<char>| touched(commits@, x) && #[trigger] matches_trigger(x, ts);
            assert(cs.contains(x));
            let i = choose|i: int| 0 <= i < cs.len() && cs[i] == x;
            assert(matches_trigger(cs[i], ts));
        }
    }
    if hit {
        ProjectOutcome::Dispatch(JobSpec { owner_id: GITHUB_PUSH_NOTIFY_ID, project: project.duplicate() })
    } else {
        ProjectOutcome::NotTriggered
    }
}

/// The handling of one push notification, one project after another.
///
/// The caller asks `next_fetch` for the next file to fetch from the pushed
/// repository, fetches it, and hands the result to `deliver`, which may give
/// an outcome to send. When `next_fetch` gives nothing, the push is handled
/// and the caller reports success.
pub struct PushSession {
    projects: Vec<Project>,
    changed: Vec<String>,
    commits: Ghost<Seq<crate::webhook::GitHubWebhookCommit>>,
    /// Index of the project being checked.
    current: usize,
    /// What fetching the current project's plan gave, once it passed.
    plan: Option<FileFetch>,
}

/// The next file that a session asks for, as `PushSession::next_fetch`
/// gives it.
pub open spec fn session_fetch(
    projects: Seq<Project>,
    current: int,
    plan_fetched: bool,
) -> Option<Seq<char>> {
    if current >= projects.len() {
        None
    } else if !plan_fetched {
        Some(projects[current].plan_path@)
    } else {
        Some(config_path(projects[current].plan_path@))
    }
}

impl PushSession {
    /// The projects of the push, in the order they are handled.
    pub closed spec fn projects(&self) -> Seq<Project> {
        self.projects@
    }

    /// The pushed commits.
    pub closed spec fn commits(&self) -> Seq<crate::webhook::GitHubWebhookCommit> {
        self.commits@
    }

    /// How many projects are decided.
    pub closed spec fn current(&self) -> int {
        self.current as int
    }

    /// What fetching the current project's plan gave, where it passed.
    pub closed spec fn plan(&self) -> Option<FileFetch> {
        self.plan
    }

    /// The session's invariant.
    pub closed spec fn wf(&self) -> bool {
        &&& self.current <= self.projects@.len()
        &&& (self.projects@.len() > 0 ==> is_changeset(self.commits@, views(self.changed@)))
        &&& (self.plan matches Some(m) ==> self.current < self.projects@.len()
            && manifest_verdict(self.projects@[self.current as int], m) is None)
    }

    /// Starts handling a push for the projects registered for its repository.
    pub fn new(push: &GitHubWebhookPush, projects: Vec<Project>) -> (r: PushSession)
        ensures
            r.wf(),
            r.projects() == projects@,
            r.commits() == push.commits@,
            r.current() == 0,
            r.plan() is None,
    {
        let changed = if projects.len() == 0 {
            Vec::new()
        } else {
            push.changed()
        };
        PushSession { projects, changed, commits: Ghost(push.commits@), current: 0, plan: None }
    }

    /// The path of the next file to fetch, or `None` once every project is
    /// decided.
    pub fn next_fetch(&self) -> (r: Option<String>)
        requires
            self.wf(),
        ensures
            match r {
                Some(p) => session_fetch(self.projects(), self.current(), self.plan() is Some)
                    == Some(p@),
                None => session_fetch(self.projects(), self.current(), self.plan() is Some) is None,
            },
    {
        if self.current >= self.projects.len() {
            return None;
        }
        let project = &self.projects[self.current];
        match &self.plan {
            None => Some(project.plan_path.clone()),
            Some(_) => Some(config_path_for(project.plan_path.as_str())),
        }
    }

    /// Takes what fetching the asked-for file gave. Where this decides the
    /// current project, gives what to send for it and moves to the next.
    pub fn deliver(&mut self, fetch: FileFetch) -> (r: Option<ProjectOutcome>)
        requires
            old(self).wf(),
            old(self).current() < old(self).projects().len(),
        ensures
            final(self).wf(),
            final(self).projects() == old(self).projects(),
            final(self).commits() == old(self).commits(),
            ({
                let project = old(self).projects()[old(self).current()];
                match old(self).plan() {
                    None => match manifest_verdict(project, fetch) {
                        Some(state) => final(self).current() == old(self).current() + 1
                            && final(self).plan() is None && (r matches Some(o) && outcome_is(
                            o,
                            Verdict::Transition(state),
                            project,
                            GITHUB_PUSH_NOTIFY_ID,
                        )),
                        None => final(self).current() == old(self).current()
                            && final(self).plan() == Some(fetch) && r is None,
                    },
                    Some(manifest) => final(self).current() == old(self).current() + 1
                        && final(self).plan() is None && (r matches Some(o) && outcome_is(
                        o,
                        project_verdict(project, manifest, fetch, old(self).commits()),
                        project,
                        GITHUB_PUSH_NOTIFY_ID,
                    )),
                }
            }),
    {
        let i = self.current;
        let n = self.projects.len();
        assert(i < n);
        let plan = self.plan.take();
        match plan {
            None => {
                match check_manifest(&self.projects[i], &fetch) {
                    Some(state) => {
                        let id = self.projects[i].id.clone();
                        self.current = i + 1;
                        Some(ProjectOutcome::Transition(ProjectStateSet { id, state }))
                    },
                    None => {
                        self.plan = Some(fetch);
                        None
                    },
                }
            },
            Some(manifest) => {
                let o = decide_project(
                    &self.projects[i],
                    &manifest,
                    &fetch,
                    &self.changed,
                    Ghost(self.commits@),
                );
                self.current = i + 1;
                Some(o)
            },
        }
    }
}

/// A push for a repository with no registered projects needs no work: the
/// session asks for no file, so nothing is fetched and nothing is sent.
pub proof fn lemma_no_projects_no_work(s: PushSession)
    requires
        s.wf(),
        s.projects().len() == 0,
    ensures
        session_fetch(s.projects(), s.current(), s.plan() is Some) is None,
{
}

/// A project whose plan declares an identity other than its own gets a
/// single outcome, a change to `OriginNameMismatch`, and no job, whatever
/// its configuration and the push.
pub proof fn lemma_identity_mismatch_blocks_job(
    project: Project,
    plan: Vec<u8>,
    config: FileFetch,
    commits: Seq<crate::webhook::GitHubWebhookCommit>,
    o: ProjectOutcome,
)
    requires
        match plan_of_text(utf8_lossy(plan@)) {
            Some((origin, name)) => identity(origin, name) != project.id@,
            None => false,
        },
        outcome_is(
            o,
            project_verdict(project, FileFetch::Contents(plan), config, commits),
            project,
            GITHUB_PUSH_NOTIFY_ID,
        ),
    ensures
        manifest_verdict(project, FileFetch::Contents(plan)) == Some(
            ProjectState::OriginNameMismatch,
        ),
        o matches ProjectOutcome::Transition(set) && set.state == ProjectState::OriginNameMismatch
            && set.id@ == project.id@,
{
}

/// A project whose plan passes and whose configuration file is absent is
/// judged by the default configuration alone: a job owned by the push
/// identity where a changed path lies under the default trigger, and no
/// state change in any case.
pub proof fn lemma_absent_config_uses_default(
    project: Project,
    manifest: FileFetch,
    commits: Seq<crate::webhook::GitHubWebhookCommit>,
    o: ProjectOutcome,
)
    requires
        manifest_verdict(project, manifest) is None,
        outcome_is(
            o,
            project_verdict(project, manifest, FileFetch::Unavailable, commits),
            project,
            GITHUB_PUSH_NOTIFY_ID,
        ),
    ensures
        push_triggers(commits, default_cfg().triggers) ==> (o matches ProjectOutcome::Dispatch(job)
            && job.owner_id == GITHUB_PUSH_NOTIFY_ID && job.project == project),
        !push_triggers(commits, default_cfg().triggers) ==> o is NotTriggered,
{
}

/// A configuration whose triggers no changed path lies under is no error:
/// the project gets no job and no state change.
pub proof fn lemma_untriggered_is_not_an_error(
    project: Project,
    manifest: FileFetch,
    config: FileFetch,
    commits: Seq<crate::webhook::GitHubWebhookCommit>,
    o: ProjectOutcome,
)
    requires
        manifest_verdict(project, manifest) is None,
        config_verdict(config) is Ok,
        !push_triggers(commits, config_verdict(config)->Ok_0.triggers),
        outcome_is(o, project_verdict(project, manifest, config, commits), project, GITHUB_PUSH_NOTIFY_ID),
    ensures
        o is NotTriggered,
{
}

} // verus!
