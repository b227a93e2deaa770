use builder_core::plan::{Plan, PlanError, ProjectId};

#[test]
fn plan_declares_origin_and_name() {
    let plan = Plan::from_str("pkg_origin=core\npkg_name=redis\npkg_version=3.2\n").unwrap();
    assert_eq!(plan.origin, "core");
    assert_eq!(plan.name, "redis");
    assert_eq!(plan.project_id(), "core/redis");
}

#[test]
fn last_assignment_wins_and_crlf_is_stripped() {
    let plan = Plan::from_str("pkg_name=a\r\npkg_origin=o\r\npkg_name=b=c\r\n").unwrap();
    assert_eq!(plan.name, "b=c");
    assert_eq!(plan.origin, "o");
    let plan = Plan::from_str("pkg_origin=o\npkg_name=last").unwrap();
    assert_eq!(plan.name, "last");
}

#[test]
fn plan_without_both_keys_is_malformed() {
    assert_eq!(Plan::from_str("pkg_name=redis\n").unwrap_err(), PlanError::Malformed);
    assert_eq!(Plan::from_str("pkg_origin=core\n").unwrap_err(), PlanError::Malformed);
    assert_eq!(Plan::from_str("").unwrap_err(), PlanError::Malformed);
    assert_eq!(Plan::from_str("pkg_origin\npkg_name\n").unwrap_err(), PlanError::Malformed);
    assert_eq!(Plan::from_str(" pkg_origin=a\npkg_name=b\n").unwrap_err(), PlanError::Malformed);
}

#[test]
fn plan_from_bytes_decodes_lossily() {
    let plan = Plan::from_bytes(b"pkg_origin=c\xffre\npkg_name=x\n").unwrap();
    assert_eq!(plan.origin, "c\u{FFFD}re");
    assert_eq!(plan.name, "x");
}
