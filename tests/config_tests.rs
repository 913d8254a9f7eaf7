use lb::config::{CompleteConfig, Config};

fn full() -> Config {
    Config {
        gl_instance: Some("gitlab.example.com".to_string()),
        gl_token: Some("tok123".to_string()),
        project: Some(7),
        issue: Some(42),
    }
}

#[test]
fn complete_record_validates_to_its_fields() {
    let c = full().try_into().unwrap();
    assert_eq!(
        c,
        CompleteConfig {
            gl_instance: "gitlab.example.com".to_string(),
            gl_token: "tok123".to_string(),
            project: 7,
            issue: 42,
        }
    );
}

#[test]
fn missing_instance_is_incomplete() {
    let mut c = full();
    c.gl_instance = None;
    assert!(c.try_into().is_err());
}

#[test]
fn missing_token_is_incomplete() {
    let mut c = full();
    c.gl_token = None;
    assert!(c.try_into().is_err());
}

#[test]
fn missing_project_is_incomplete() {
    let mut c = full();
    c.project = None;
    assert!(c.try_into().is_err());
}

#[test]
fn missing_issue_is_incomplete() {
    let mut c = full();
    c.issue = None;
    assert!(c.try_into().is_err());
}

#[test]
fn empty_record_is_incomplete() {
    let c = Config::empty();
    assert_eq!(c, Config::default());
    assert!(!c.is_complete_exec());
    assert!(c.try_into().is_err());
}

#[test]
fn stored_complete_config_validates_back() {
    let c = full().try_into().unwrap();
    let stored = Config::from_complete(c);
    assert_eq!(stored, full());
    assert!(stored.is_complete_exec());
    let again = stored.try_into().unwrap();
    assert_eq!(again.project, 7);
    assert_eq!(again.issue, 42);
    assert_eq!(again.gl_instance, "gitlab.example.com");
    assert_eq!(again.gl_token, "tok123");
}
