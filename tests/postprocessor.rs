use builder_core::postprocessor::{PostAction, PostProcessor};

fn processor() -> PostProcessor {
    PostProcessor::new("components/builder-api/plan.sh", "/hab/src")
}

#[test]
fn config_path_is_beside_plan_in_workspace() {
    assert_eq!(processor().path(), "/hab/src/components/builder-api/builder.toml");
    assert_eq!(PostProcessor::new("plan.sh", "/ws").path(), "/ws/builder.toml");
}

#[test]
fn disabled_publishing_skips_upload() {
    let cfg = Some("[publish]\nenabled = false\n".to_string());
    assert_eq!(processor().run(&cfg), PostAction::Skip);
    assert!(!PostProcessor::succeeded(PostAction::Skip, true));
}

#[test]
fn malformed_config_aborts_but_missing_config_publishes() {
    assert_eq!(processor().run(&Some("[publish".to_string())), PostAction::Abort);
    assert_eq!(processor().run(&Some("publish = 3".to_string())), PostAction::Abort);
    assert_eq!(processor().run(&None), PostAction::Publish);
    assert!(!PostProcessor::succeeded(PostAction::Abort, true));
}

#[test]
fn enabled_publishing_uploads() {
    let cfg = Some("[publish]\nchannel = \"stable\"\nenabled = true\n".to_string());
    assert_eq!(processor().run(&cfg), PostAction::Publish);
    assert_eq!(processor().run(&Some(String::new())), PostAction::Publish);
    assert!(PostProcessor::succeeded(PostAction::Publish, true));
    assert!(!PostProcessor::succeeded(PostAction::Publish, false));
}

#[test]
fn plan_path_without_parent_has_no_step() {
    assert!(PostProcessor::try_new("/", "/ws").is_none());
    assert!(PostProcessor::try_new("", "/ws").is_none());
    assert_eq!(PostProcessor::try_new("a/plan.sh", "/ws").unwrap().path(), "/ws/a/builder.toml");
}
