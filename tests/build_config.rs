use builder_core::build_config::{BuildCfg, PublishCfg, BUILD_CFG_FILENAME, DEFAULT_CHANNEL};
use builder_core::config::ConfigError;

#[test]
fn from_contents() {
    let raw = r#"
        triggers = [
            "components/builder-api",
            "components/builder-core/builder.toml"
        ]
        [publish]
        channel = "stable"
        enabled = false
        "#;
    let cfg = BuildCfg::from_str(raw).unwrap();
    assert_eq!(&cfg.triggers,
               &["components/builder-api", "components/builder-core/builder.toml"]);
    assert_eq!(cfg.publish.channel, "stable");
    assert_eq!(cfg.publish.enabled, false);
}

#[test]
fn default_config_is_catch_all_and_publishes() {
    let cfg = BuildCfg::default();
    assert_eq!(cfg.triggers, vec!["./*".to_string()]);
    assert_eq!(cfg.publish.channel, DEFAULT_CHANNEL);
    assert_eq!(cfg.publish.channel, "unstable");
    assert!(cfg.publish.enabled);
    let publish = PublishCfg::default();
    assert_eq!(publish.channel, "unstable");
    assert!(publish.enabled);
    assert_eq!(BUILD_CFG_FILENAME, "builder.toml");
}

#[test]
fn absent_fields_take_defaults() {
    let cfg = BuildCfg::from_str("").unwrap();
    assert_eq!(cfg.triggers, vec!["./*".to_string()]);
    assert_eq!(cfg.publish.channel, "unstable");
    assert!(cfg.publish.enabled);

    let cfg = BuildCfg::from_str("[publish]\nchannel = \"stable\"\n").unwrap();
    assert_eq!(cfg.triggers, vec!["./*".to_string()]);
    assert_eq!(cfg.publish.channel, "stable");
    assert!(cfg.publish.enabled);

    let cfg = BuildCfg::from_str("triggers = [\"docs/\"]\n[publish]\nenabled = false\n").unwrap();
    assert_eq!(cfg.triggers, vec!["docs/".to_string()]);
    assert_eq!(cfg.publish.channel, "unstable");
    assert!(!cfg.publish.enabled);
}

#[test]
fn empty_trigger_list_is_kept() {
    let cfg = BuildCfg::from_str("triggers = []").unwrap();
    assert!(cfg.triggers.is_empty());
}

#[test]
fn malformed_document_is_parse_error() {
    assert_eq!(BuildCfg::from_str("triggers = [").unwrap_err(), ConfigError::ParseError);
    assert_eq!(BuildCfg::from_str("= 3").unwrap_err(), ConfigError::ParseError);
}

#[test]
fn wrong_field_shape_is_decode_error() {
    assert_eq!(BuildCfg::from_str("triggers = \"docs/\"").unwrap_err(), ConfigError::DecodeError);
    assert_eq!(BuildCfg::from_str("triggers = [\"a\", 3]").unwrap_err(), ConfigError::DecodeError);
    assert_eq!(BuildCfg::from_str("publish = 1").unwrap_err(), ConfigError::DecodeError);
    assert_eq!(BuildCfg::from_str("[publish]\nchannel = 1\n").unwrap_err(), ConfigError::DecodeError);
    assert_eq!(BuildCfg::from_str("[publish]\nenabled = \"no\"\n").unwrap_err(), ConfigError::DecodeError);
}

#[test]
fn from_bytes_reads_utf8() {
    let cfg = BuildCfg::from_bytes(b"triggers = [\"src/\"]\n[publish]\nchannel = \"stable\"\n").unwrap();
    assert_eq!(cfg.triggers, vec!["src/".to_string()]);
    assert_eq!(cfg.publish.channel, "stable");
    // an invalid byte becomes U+FFFD inside the string, which stays valid TOML
    let cfg = BuildCfg::from_bytes(b"triggers = [\"a\xffb\"]").unwrap();
    assert_eq!(cfg.triggers, vec!["a\u{FFFD}b".to_string()]);
}

#[test]
fn parsing_same_bytes_twice_gives_equal_configs() {
    let raw = b"triggers = [\"a/\", \"b/c\"]\n[publish]\nchannel = \"stable\"\nenabled = false\n";
    let one = BuildCfg::from_bytes(raw).unwrap();
    let two = BuildCfg::from_bytes(raw).unwrap();
    assert_eq!(one.triggers, two.triggers);
    assert_eq!(one.publish.channel, two.publish.channel);
    assert_eq!(one.publish.enabled, two.publish.enabled);
    let bad = b"triggers = 1";
    assert_eq!(BuildCfg::from_bytes(bad).unwrap_err(), BuildCfg::from_bytes(bad).unwrap_err());
}

#[test]
fn config_error_descriptions() {
    assert_eq!(ConfigError::IO.description(),
               "Unable to read the raw contents of a configuration file.");
    assert_eq!(ConfigError::ParseError.description(),
               "Error parsing contents of configuration file.");
    assert_eq!(ConfigError::DecodeError.description(),
               "Unable to decode raw contents into configuration.");
}
