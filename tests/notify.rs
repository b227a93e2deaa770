use builder_core::notify::{
    evaluate_project, resolve_config, FileFetch, GitHubEvent, ProjectOutcome, PushSession,
};
use builder_core::project::{Project, ProjectState, GITHUB_PUSH_NOTIFY_ID};
use builder_core::trigger::{config_path_for, path_matches, triggers_match};
use builder_core::webhook::{GitHubWebhookCommit, GitHubWebhookPush};

fn project(id: &str, plan_path: &str) -> Project {
    Project {
        id: id.to_string(),
        plan_path: plan_path.to_string(),
        owner_id: 7,
        vcs_url: "https://github.com/acme/repo.git".to_string(),
    }
}

fn push_of(paths: &[&str]) -> GitHubWebhookPush {
    let commit = GitHubWebhookCommit {
        modified: paths.iter().map(|s| s.to_string()).collect(),
        ..Default::default()
    };
    GitHubWebhookPush { commits: vec![commit], ..Default::default() }
}

fn plan(origin: &str, name: &str) -> FileFetch {
    FileFetch::Contents(format!("pkg_origin={}\npkg_name={}\n", origin, name).into_bytes())
}

fn config(text: &str) -> FileFetch {
    FileFetch::Contents(text.as_bytes().to_vec())
}

fn outcome(p: &Project, manifest: FileFetch, cfg: FileFetch, push: &GitHubWebhookPush) -> ProjectOutcome {
    evaluate_project(p, &manifest, &cfg, push, &push.changed())
}

/// Drives a session, answering each fetch from `files`; gives the fetched
/// paths and the outcomes to send.
fn run(push: &GitHubWebhookPush, projects: Vec<Project>, files: &[(&str, FileFetch)])
    -> (Vec<String>, Vec<ProjectOutcome>) {
    let mut session = PushSession::new(push, projects);
    let mut fetched = vec![];
    let mut sent = vec![];
    while let Some(path) = session.next_fetch() {
        let fetch = files.iter().find(|(p, _)| *p == path).map(|(_, f)| f.clone())
            .unwrap_or(FileFetch::Unavailable);
        fetched.push(path);
        if let Some(o) = session.deliver(fetch) {
            sent.push(o);
        }
    }
    (fetched, sent)
}

fn state_of(o: &ProjectOutcome) -> Option<ProjectState> {
    match o {
        ProjectOutcome::Transition(set) => Some(set.state),
        _ => None,
    }
}

#[test]
fn no_projects_means_nothing_to_do() {
    let push = push_of(&["src/main.rs"]);
    let (fetched, sent) = run(&push, vec![], &[]);
    assert!(fetched.is_empty());
    assert!(sent.is_empty());
}

#[test]
fn identity_mismatch_records_state_and_builds_nothing() {
    let p = project("acme/app", "plan.sh");
    let push = push_of(&["src/main.rs"]);
    let files = [("plan.sh", plan("other", "app")), ("builder.toml", config("triggers = [\"src\"]"))];
    let (fetched, out) = run(&push, vec![p.duplicate()], &files);
    assert_eq!(fetched, vec!["plan.sh"]);
    assert_eq!(out.len(), 1);
    match &out[0] {
        ProjectOutcome::Transition(set) => {
            assert_eq!(set.id, "acme/app");
            assert_eq!(set.state, ProjectState::OriginNameMismatch);
        }
        other => panic!("unexpected outcome {:?}", other),
    }
}

#[test]
fn absent_config_uses_default_trigger() {
    let p = project("acme/app", "components/builder-api/plan.sh");
    // The default pattern `./*` is compared by path components, not as a
    // glob: an ordinary repository path does not lie under it.
    let push = push_of(&["components/builder-api/x"]);
    let o = outcome(&p, plan("acme", "app"), FileFetch::Unavailable, &push);
    assert!(matches!(o, ProjectOutcome::NotTriggered));
    // A path whose components begin with `.` and `*` does.
    let push = push_of(&["./*/x"]);
    match outcome(&p, plan("acme", "app"), FileFetch::Unavailable, &push) {
        ProjectOutcome::Dispatch(job) => {
            assert_eq!(job.owner_id, GITHUB_PUSH_NOTIFY_ID);
            assert_eq!(job.project.id, "acme/app");
            assert_eq!(job.project.plan_path, "components/builder-api/plan.sh");
            assert_eq!(job.project.owner_id, 7);
        }
        other => panic!("unexpected outcome {:?}", other),
    }
}

#[test]
fn unmatched_trigger_is_no_error() {
    let p = project("acme/app", "plan.sh");
    let push = push_of(&["src/main.rs"]);
    let o = outcome(&p, plan("acme", "app"), config("triggers = [\"docs/\"]"), &push);
    assert!(matches!(o, ProjectOutcome::NotTriggered));
}

#[test]
fn matching_trigger_dispatches_push_owned_job() {
    let p = project("acme/app", "plan.sh");
    let push = push_of(&["docs/readme.md", "src/main.rs"]);
    match outcome(&p, plan("acme", "app"), config("triggers = [\"src\"]"), &push) {
        ProjectOutcome::Dispatch(job) => {
            assert_eq!(job.owner_id, GITHUB_PUSH_NOTIFY_ID);
            assert_eq!(job.project.id, "acme/app");
        }
        other => panic!("unexpected outcome {:?}", other),
    }
}

#[test]
fn plan_failures_are_classified() {
    let p = project("acme/app", "plan.sh");
    let push = push_of(&["src/main.rs"]);
    let cfg = config("triggers = [\"src\"]");
    assert_eq!(state_of(&outcome(&p, FileFetch::Unavailable, cfg.clone(), &push)),
               Some(ProjectState::MissingPlan));
    assert_eq!(state_of(&outcome(&p, FileFetch::Undecodable, cfg.clone(), &push)),
               Some(ProjectState::MissingPlan));
    assert_eq!(state_of(&outcome(&p, config("pkg_name=app\n"), cfg.clone(), &push)),
               Some(ProjectState::BadPlan));
}

#[test]
fn config_failures_are_classified() {
    let p = project("acme/app", "plan.sh");
    let push = push_of(&["src/main.rs"]);
    assert_eq!(state_of(&outcome(&p, plan("acme", "app"), config("triggers = ["), &push)),
               Some(ProjectState::BadConfig));
    assert_eq!(state_of(&outcome(&p, plan("acme", "app"), config("triggers = 5"), &push)),
               Some(ProjectState::BadConfig));
    assert_eq!(state_of(&outcome(&p, plan("acme", "app"), FileFetch::Undecodable, &push)),
               Some(ProjectState::BadConfig));
    assert!(resolve_config(&FileFetch::Unavailable).is_ok());
}

#[test]
fn one_failing_project_does_not_stop_the_next() {
    let push = push_of(&["src/main.rs"]);
    let projects = vec![project("acme/a", "a/plan.sh"), project("acme/b", "b/plan.sh")];
    let files = [("b/plan.sh", plan("acme", "b")), ("b/builder.toml", config("triggers = [\"src\"]"))];
    let (fetched, out) = run(&push, projects, &files);
    assert_eq!(fetched, vec!["a/plan.sh", "b/plan.sh", "b/builder.toml"]);
    assert_eq!(out.len(), 2);
    assert_eq!(state_of(&out[0]), Some(ProjectState::MissingPlan));
    assert!(matches!(&out[1], ProjectOutcome::Dispatch(job) if job.project.id == "acme/b"));
}

#[test]
fn trigger_matching_is_by_path_components() {
    let triggers = vec!["components/builder-api".to_string()];
    assert!(path_matches(&"components/builder-api/x".to_string(), &triggers));
    assert!(path_matches(&"components/builder-api".to_string(), &triggers));
    assert!(!path_matches(&"components/builder-apix".to_string(), &triggers));
    assert!(!path_matches(&"src/main.rs".to_string(), &vec!["docs/".to_string()]));
    assert!(triggers_match(&vec!["a".to_string(), "components/builder-api/y".to_string()],
                           &triggers));
    assert!(!triggers_match(&vec![], &triggers));
    assert!(!triggers_match(&vec!["x".to_string()], &vec![]));
}

#[test]
fn config_lies_beside_the_plan() {
    assert_eq!(config_path_for("components/builder-api/plan.sh"),
               "components/builder-api/builder.toml");
    assert_eq!(config_path_for("plan.sh"), "builder.toml");
    assert_eq!(config_path_for("/"), "/builder.toml");
    assert_eq!(config_path_for(""), "/builder.toml");
}

#[test]
fn event_names() {
    assert_eq!(GitHubEvent::from_name("ping"), Some(GitHubEvent::Ping));
    assert_eq!(GitHubEvent::from_name("push"), Some(GitHubEvent::Push));
    assert_eq!(GitHubEvent::from_name("issues"), None);
    assert_eq!(GitHubEvent::from_name("Push"), None);
}

#[test]
fn session_fetches_config_only_after_plan_passes() {
    let push = push_of(&["docs/x"]);
    let projects = vec![project("acme/a", "a/plan.sh")];
    let files = [("a/plan.sh", plan("acme", "a"))];
    let (fetched, out) = run(&push, projects, &files);
    assert_eq!(fetched, vec!["a/plan.sh", "a/builder.toml"]);
    assert_eq!(out.len(), 1);
    assert!(matches!(out[0], ProjectOutcome::NotTriggered));
}
