use shot_share::{credential_from_password, SftpError, SftpUploader};

#[test]
fn empty_host_is_rejected() {
    let r = SftpUploader::new(
        String::new(),
        22,
        "alice".to_string(),
        None,
        "/uploads".to_string(),
    );
    match r {
        Err(SftpError::InvalidConfig(m)) => assert_eq!(m, "Host cannot be empty"),
        _ => panic!("expected InvalidConfig for an empty host"),
    }
}

#[test]
fn empty_username_is_rejected() {
    let r = SftpUploader::new(
        "example.com".to_string(),
        22,
        String::new(),
        Some("pw".to_string()),
        String::new(),
    );
    match r {
        Err(SftpError::InvalidConfig(m)) => assert_eq!(m, "Username cannot be empty"),
        _ => panic!("expected InvalidConfig for an empty username"),
    }
}

#[test]
fn empty_host_is_reported_before_empty_username() {
    let r = SftpUploader::new(String::new(), 22, String::new(), None, String::new());
    match r {
        Err(SftpError::InvalidConfig(m)) => assert_eq!(m, "Host cannot be empty"),
        _ => panic!("expected InvalidConfig"),
    }
}

#[test]
fn minimal_target_is_accepted() {
    let t = SftpUploader::new(
        "h".to_string(),
        22,
        "u".to_string(),
        None,
        String::new(),
    )
    .expect("non-empty host and username must be accepted");
    assert_eq!(t.host(), "h");
    assert_eq!(t.port(), 22);
    assert_eq!(t.username(), "u");
    assert_eq!(t.remote_dir(), "");
    assert_eq!(t.clone_credential(), None);
}

#[test]
fn credential_and_directory_do_not_affect_validation() {
    let with_password = SftpUploader::new(
        "h".to_string(),
        2222,
        "u".to_string(),
        Some("secret".to_string()),
        "/uploads/".to_string(),
    )
    .expect("accepted with a credential");
    assert_eq!(with_password.clone_credential(), Some("secret".to_string()));
    assert_eq!(with_password.remote_dir(), "/uploads/");
    assert_eq!(with_password.port(), 2222);

    SftpUploader::new(
        "h".to_string(),
        22,
        "u".to_string(),
        None,
        "relative/dir".to_string(),
    )
    .expect("accepted without a credential");
}

#[test]
fn empty_password_normalizes_to_agent_authentication() {
    assert_eq!(credential_from_password(String::new()), None);
}

#[test]
fn nonempty_password_normalizes_to_password_authentication() {
    assert_eq!(
        credential_from_password("hunter2".to_string()),
        Some("hunter2".to_string())
    );
}
