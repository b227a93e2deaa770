use builder_core::handlers::{
    accept_invitation, create_plan, ignore_invitation, job_create, job_show, parse_id,
    project_create, project_delete, project_ident, project_update, update_plan,
    validate_project_create, validate_project_update, InvitationAnswer, Status,
};
use builder_core::notify::FileFetch;
use builder_core::plan::Plan;
use builder_core::project::Project;
use builder_core::requests::{GitHubProject, ProjectCreateReq, ProjectUpdateReq};

fn create_req(origin: &str, plan_path: &str, org: &str, repo: &str) -> ProjectCreateReq {
    ProjectCreateReq {
        origin: origin.to_string(),
        plan_path: plan_path.to_string(),
        github: GitHubProject { organization: org.to_string(), repo: repo.to_string() },
    }
}

#[test]
fn project_create_rejects_empty_fields_in_order() {
    assert!(validate_project_create(&create_req("o", "p", "g", "r")).is_ok());
    let e = validate_project_create(&create_req("", "", "", "")).unwrap_err();
    assert_eq!(e.status, Status::UnprocessableEntity);
    assert_eq!(e.body, "Missing value for field: `origin`");
    let e = validate_project_create(&create_req("o", "", "", "")).unwrap_err();
    assert_eq!(e.body, "Missing value for field: `plan_path`");
    let e = validate_project_create(&create_req("o", "p", "", "")).unwrap_err();
    assert_eq!(e.body, "Missing value for field: `github.organization`");
    let e = validate_project_create(&create_req("o", "p", "g", "")).unwrap_err();
    assert_eq!(e.body, "Missing value for field: `github.repo`");
}

#[test]
fn project_update_rejects_empty_fields() {
    let req = ProjectUpdateReq {
        plan_path: String::new(),
        github: GitHubProject { organization: "g".to_string(), repo: "r".to_string() },
    };
    assert_eq!(validate_project_update(&req).unwrap_err().body,
               "Missing value for field: `plan_path`");
}

#[test]
fn plan_fetch_failures_have_codes() {
    assert_eq!(create_plan(&FileFetch::Unavailable).unwrap_err().body, "rg:pc:2");
    assert_eq!(create_plan(&FileFetch::Contents(b"x".to_vec())).unwrap_err().body, "rg:pc:3");
    assert_eq!(create_plan(&FileFetch::Undecodable).unwrap_err().body, "rg:pc:4");
    assert_eq!(update_plan(&FileFetch::Unavailable).unwrap_err().body, "rg:pu:5");
    assert_eq!(update_plan(&FileFetch::Contents(b"x".to_vec())).unwrap_err().body, "rg:pu:3");
    assert_eq!(update_plan(&FileFetch::Undecodable).unwrap_err().body, "rg:pu:4");
    let plan = create_plan(&FileFetch::Contents(b"pkg_origin=a\npkg_name=b\n".to_vec())).unwrap();
    assert_eq!(plan.name, "b");
}

#[test]
fn created_project_is_named_after_origin_and_plan() {
    let plan = Plan { origin: "ignored".to_string(), name: "redis".to_string() };
    let req = create_req("core", "redis/plan.sh", "habitat-sh", "core-plans");
    let p = project_create(&req, 42, "https://github.com/x/y.git".to_string(), "core", &plan);
    assert_eq!(p.id, "core/redis");
    assert_eq!(p.plan_path, "redis/plan.sh");
    assert_eq!(p.owner_id, 42);
    assert_eq!(p.vcs_url, "https://github.com/x/y.git");
}

#[test]
fn update_checks_plan_name() {
    let req = ProjectUpdateReq {
        plan_path: "redis/plan.sh".to_string(),
        github: GitHubProject { organization: "g".to_string(), repo: "r".to_string() },
    };
    let plan = Plan { origin: "core".to_string(), name: "redis".to_string() };
    let e = project_update(&req, 1, String::new(), "core", "nginx", &plan).unwrap_err();
    assert_eq!(e.status, Status::UnprocessableEntity);
    assert_eq!(e.body, "rg:pu:2");
    let p = project_update(&req, 1, "u".to_string(), "core", "redis", &plan).unwrap();
    assert_eq!(p.id, "core/redis");
    assert_eq!(p.owner_id, 1);
}

#[test]
fn delete_and_show_name_the_project() {
    let d = project_delete("core", "redis", 9);
    assert_eq!(d.id, "core/redis");
    assert_eq!(d.requestor_id, 9);
    assert_eq!(project_ident("a", "b"), "a/b");
}

#[test]
fn manual_job_runs_for_the_caller() {
    let project = Project {
        id: "core/redis".to_string(),
        plan_path: "plan.sh".to_string(),
        owner_id: 3,
        vcs_url: String::new(),
    };
    let job = job_create(77, project);
    assert_eq!(job.owner_id, 77);
    assert_eq!(job.project.id, "core/redis");
}

#[test]
fn ids_parse_as_u64() {
    assert_eq!(parse_id("42"), Some(42));
    assert_eq!(parse_id("+7"), Some(7));
    assert_eq!(parse_id("007"), Some(7));
    assert_eq!(parse_id("18446744073709551615"), Some(u64::MAX));
    assert_eq!(parse_id("18446744073709551616"), None);
    assert_eq!(parse_id(""), None);
    assert_eq!(parse_id("+"), None);
    assert_eq!(parse_id("-1"), None);
    assert_eq!(parse_id("12a"), None);
    assert_eq!(parse_id(" 1"), None);
    for s in ["0", "1", "999", "+12", "99999999999999999999", "x"] {
        assert_eq!(parse_id(s), s.parse::<u64>().ok());
    }
}

#[test]
fn job_show_and_invitations_reject_bad_ids() {
    assert_eq!(job_show("5").unwrap(), 5);
    assert_eq!(job_show("five").unwrap_err().status, Status::BadRequest);
    assert_eq!(accept_invitation(4, "12").unwrap(),
               InvitationAnswer { invite_id: 12, account_id: 4, ignore: false });
    assert_eq!(ignore_invitation(4, "12").unwrap(),
               InvitationAnswer { invite_id: 12, account_id: 4, ignore: true });
    assert_eq!(accept_invitation(4, "x").unwrap_err().status, Status::BadRequest);
}
