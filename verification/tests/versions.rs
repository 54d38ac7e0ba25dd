use blot::error::ProvisionError;
use blot::versions::{validate_version, version_known};

#[test]
fn known_version_is_accepted() {
    let doc = r#"["1.19.4", "1.20.1", "1.21"]"#;
    assert_eq!(validate_version(doc, &"1.20.1".to_string()), Ok(()));
    assert_eq!(validate_version(doc, &"1.21".to_string()), Ok(()));
}

#[test]
fn unknown_version_is_invalid() {
    let doc = r#"["1.19.4", "1.20.1"]"#;
    assert_eq!(validate_version(doc, &"1.20".to_string()), Err(ProvisionError::InvalidVersion));
    assert_eq!(validate_version(doc, &"".to_string()), Err(ProvisionError::InvalidVersion));
    assert_eq!(validate_version("[]", &"1.20.1".to_string()), Err(ProvisionError::InvalidVersion));
}

#[test]
fn unreadable_list_is_internal() {
    for doc in ["", "{", "{\"a\": 1}", "[1, 2]", "\"1.20.1\"", "[\"1.20.1\"", "1.20.1"] {
        assert_eq!(validate_version(doc, &"1.20.1".to_string()), Err(ProvisionError::Internal));
    }
}

#[test]
fn json_escapes_are_read() {
    let doc = r#"["a\"b", "1.20"]"#;
    assert_eq!(validate_version(doc, &"a\"b".to_string()), Ok(()));
    assert_eq!(validate_version(doc, &"1.20".to_string()), Ok(()));
}

#[test]
fn version_known_compares_whole_strings() {
    let known = vec!["1.20.1".to_string(), "latest".to_string()];
    assert!(version_known(&known, &"latest".to_string()));
    assert!(!version_known(&known, &"1.20".to_string()));
    assert!(!version_known(&known, &"1.20.10".to_string()));
    assert!(!version_known(&vec![], &"latest".to_string()));
}

#[test]
fn verdict_follows_the_parsed_list() {
    let parsed = serde_json::from_str::<Vec<String>>("[\"1.20.1\"]");
    assert_eq!(blot::versions::judge_version(parsed, &"1.20.1".to_string()), Ok(()));
    let parsed = serde_json::from_str::<Vec<String>>("[\"1.20.1\"]");
    assert_eq!(
        blot::versions::judge_version(parsed, &"1.21".to_string()),
        Err(ProvisionError::InvalidVersion)
    );
    let parsed = serde_json::from_str::<Vec<String>>("{}");
    assert_eq!(
        blot::versions::judge_version(parsed, &"1.20.1".to_string()),
        Err(ProvisionError::Internal)
    );
}
