use hammer::config::{ConfigError, HammerConfig, YamlValue};

#[test]
fn new_config_is_empty_and_invalid() {
    let conf = HammerConfig::new();
    assert!(conf.username.is_none());
    assert!(conf.oauth.is_none());
    assert!(conf.channel.is_none());
    assert!(conf.owners.is_none());
    assert!(!conf.validate());
}

#[test]
fn fill_from_string_reads_all_fields() {
    let mut conf = HammerConfig::new();
    let text = "username: botnick\noauth: token\nchannel: TestChan\nowners:\n  - alice\n  - bob\n";
    assert!(conf.fill_from_string(text).is_ok());
    assert_eq!(conf.username.as_deref(), Some("botnick"));
    assert_eq!(conf.oauth.as_deref(), Some("token"));
    assert_eq!(conf.channel.as_deref(), Some("TestChan"));
    assert_eq!(conf.owners, Some(vec!["alice".to_string(), "bob".to_string()]));
    assert!(conf.validate());
}

#[test]
fn fill_from_string_rejects_bad_yaml() {
    let mut conf = HammerConfig::new();
    conf.username = Some("kept".to_string());
    let r = conf.fill_from_string("foo: [unclosed");
    assert!(matches!(r, Err(ConfigError::YamlSyntax)));
    assert_eq!(conf.username.as_deref(), Some("kept"));
}

#[test]
fn single_owner_string_becomes_one_element_list() {
    let mut conf = HammerConfig::new();
    assert!(conf.fill_from_string("owners: alice\n").is_ok());
    assert_eq!(conf.owners, Some(vec!["alice".to_string()]));
}

#[test]
fn non_string_owner_entries_are_skipped() {
    let mut conf = HammerConfig::new();
    assert!(conf.fill_from_string("owners:\n  - alice\n  - 17\n  - bob\n").is_ok());
    assert_eq!(conf.owners, Some(vec!["alice".to_string(), "bob".to_string()]));
}

#[test]
fn non_string_scalar_value_reads_as_absent() {
    let mut conf = HammerConfig::new();
    assert!(conf.fill_from_string("username: 42\nchannel: ok\n").is_ok());
    assert!(conf.username.is_none());
    assert_eq!(conf.channel.as_deref(), Some("ok"));
}

#[test]
fn unknown_keys_are_ignored() {
    let mut conf = HammerConfig::new();
    assert!(conf.fill_from_string("colour: green\nusername: botnick\n").is_ok());
    assert_eq!(conf.username.as_deref(), Some("botnick"));
}

#[test]
fn later_documents_overwrite_earlier_ones() {
    let mut conf = HammerConfig::new();
    assert!(conf.fill_from_string("username: first\n---\nusername: second\n").is_ok());
    assert_eq!(conf.username.as_deref(), Some("second"));
}

#[test]
fn fill_from_yaml_applies_model_values() {
    let mut conf = HammerConfig::new();
    let docs = vec![YamlValue::Hash(vec![
        (
            YamlValue::Text("channel".to_string()),
            YamlValue::Text("SomeChan".to_string()),
        ),
        (
            YamlValue::Text("owners".to_string()),
            YamlValue::List(vec![
                YamlValue::Text("alice".to_string()),
                YamlValue::Other,
            ]),
        ),
        (YamlValue::Other, YamlValue::Text("skipped".to_string())),
    ])];
    conf.fill_from_yaml(&docs);
    assert_eq!(conf.channel.as_deref(), Some("SomeChan"));
    assert_eq!(conf.owners, Some(vec!["alice".to_string()]));
    assert!(conf.username.is_none());
}
