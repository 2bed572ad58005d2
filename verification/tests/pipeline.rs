use shot_share::{
    Phase, SessionAction, SftpError, SftpUploader, TransferPlan, CONNECT_TIMEOUT_SECS,
    TEST_SESSION_TIMEOUT_MS, UPLOAD_SESSION_TIMEOUT_MS,
};

fn target(host: &str, port: u16, username: &str, password: Option<&str>, dir: &str) -> SftpUploader {
    SftpUploader::new(
        host.to_string(),
        port,
        username.to_string(),
        password.map(|p| p.to_string()),
        dir.to_string(),
    )
    .expect("valid target")
}

/// Walk a plan through successful steps, recording what it prescribes.
fn drive_to_completion(plan: &mut TransferPlan) -> Vec<SessionAction> {
    let mut actions = Vec::new();
    while let Some(action) = plan.current_action() {
        actions.push(action);
        plan.advance();
    }
    actions
}

#[test]
fn connectivity_test_walks_the_pipeline_in_order() {
    let t = target("example.org", 22, "alice", Some("pw"), "");
    let mut plan = t.connection_test_plan();
    assert_eq!(plan.phase(), Phase::Resolve);
    let actions = drive_to_completion(&mut plan);
    assert_eq!(plan.phase(), Phase::Complete);
    assert!(!plan.is_in_flight());
    assert_eq!(actions.len(), 6);
    match &actions[0] {
        SessionAction::ResolveAddress { address } => assert_eq!(address, "example.org:22"),
        _ => panic!("step 1 must resolve the address"),
    }
    match &actions[1] {
        SessionAction::ConnectWithTimeout { timeout_secs } => {
            assert_eq!(*timeout_secs, CONNECT_TIMEOUT_SECS);
            assert_eq!(*timeout_secs, 10);
        }
        _ => panic!("step 2 must connect"),
    }
    match &actions[2] {
        SessionAction::StartSession { timeout_ms } => {
            assert_eq!(*timeout_ms, TEST_SESSION_TIMEOUT_MS);
            assert_eq!(*timeout_ms, 10_000);
        }
        _ => panic!("step 3 must start the session"),
    }
    assert!(matches!(actions[3], SessionAction::PerformHandshake));
    match &actions[4] {
        SessionAction::AuthenticateWithPassword { username, password } => {
            assert_eq!(username, "alice");
            assert_eq!(password, "pw");
        }
        _ => panic!("step 5 must authenticate with the password"),
    }
    assert!(matches!(actions[5], SessionAction::ConfirmAuthenticated));
    // A connectivity test opens no channel and touches no file.
    assert!(plan.current_action().is_none());
    assert_eq!(plan.remote_destination(), None);
}

#[test]
fn upload_walks_the_pipeline_in_order() {
    let t = target("example.org", 22, "bob", None, "/uploads");
    let mut plan = t.upload_plan("/tmp/shot.png", "shot.png");
    let actions = drive_to_completion(&mut plan);
    assert_eq!(plan.phase(), Phase::Complete);
    assert_eq!(actions.len(), 10);
    assert!(matches!(&actions[0], SessionAction::ResolveAddress { address } if address == "example.org:22"));
    assert!(matches!(&actions[1], SessionAction::ConnectWithTimeout { timeout_secs: 10 }));
    match &actions[2] {
        SessionAction::StartSession { timeout_ms } => {
            assert_eq!(*timeout_ms, UPLOAD_SESSION_TIMEOUT_MS);
            assert_eq!(*timeout_ms, 30_000);
        }
        _ => panic!("step 3 must start the session"),
    }
    assert!(matches!(actions[3], SessionAction::PerformHandshake));
    assert!(matches!(&actions[4], SessionAction::AuthenticateWithAgent { username } if username == "bob"));
    assert!(matches!(actions[5], SessionAction::ConfirmAuthenticated));
    assert!(matches!(actions[6], SessionAction::OpenFileChannel));
    assert!(matches!(&actions[7], SessionAction::ReadLocalFile { path } if path == "/tmp/shot.png"));
    assert!(matches!(&actions[8], SessionAction::CreateRemoteFile { path } if path == "/uploads/shot.png"));
    assert!(matches!(actions[9], SessionAction::WriteRemoteBytes));
}

#[test]
fn upload_returns_the_computed_destination() {
    let t = target("example.org", 22, "bob", Some("pw"), "/uploads");
    let plan = t.upload_plan("/tmp/shot.png", "shot.png");
    assert_eq!(plan.remote_destination(), Some("/uploads/shot.png".to_string()));
}

#[test]
fn destination_is_the_same_on_repeated_identical_uploads() {
    let t = target("example.org", 22, "bob", Some("pw"), "/uploads/");
    let first = t.upload_plan("/tmp/shot.png", "shot.png");
    let second = t.upload_plan("/tmp/shot.png", "shot.png");
    assert_eq!(first.remote_destination(), second.remote_destination());
    assert_eq!(first.remote_destination(), Some("/uploads/shot.png".to_string()));
}

#[test]
fn destination_ignores_pipeline_progress() {
    let t = target("example.org", 22, "bob", Some("pw"), "/uploads");
    let mut plan = t.upload_plan("/tmp/shot.png", "shot.png");
    let before = plan.remote_destination();
    plan.advance();
    plan.advance();
    let e = plan.fail("connection refused");
    assert!(matches!(e, SftpError::ConnectionFailed(_)));
    assert_eq!(plan.remote_destination(), before);
}

#[test]
fn password_credential_selects_password_authentication_only() {
    let t = target("h", 22, "alice", Some("secret"), "");
    let mut plan = t.connection_test_plan();
    for _ in 0..4 {
        plan.advance();
    }
    assert_eq!(plan.phase(), Phase::Authenticate);
    match plan.current_action() {
        Some(SessionAction::AuthenticateWithPassword { username, password }) => {
            assert_eq!(username, "alice");
            assert_eq!(password, "secret");
        }
        Some(SessionAction::AuthenticateWithAgent { .. }) => {
            panic!("agent authentication must never be attempted when a credential is present")
        }
        _ => panic!("the authentication step must prescribe an authentication action"),
    }
}

#[test]
fn missing_credential_selects_agent_authentication_only() {
    let t = target("h", 22, "carol", None, "");
    let mut plan = t.connection_test_plan();
    for _ in 0..4 {
        plan.advance();
    }
    assert_eq!(plan.phase(), Phase::Authenticate);
    match plan.current_action() {
        Some(SessionAction::AuthenticateWithAgent { username }) => assert_eq!(username, "carol"),
        Some(SessionAction::AuthenticateWithPassword { .. }) => {
            panic!("password authentication must never be attempted without a credential")
        }
        _ => panic!("the authentication step must prescribe an authentication action"),
    }
}

#[test]
fn connect_failure_stops_the_pipeline() {
    let t = target("127.0.0.1", 9999, "alice", None, "");
    let mut plan = t.connection_test_plan();
    plan.advance(); // address resolved
    assert_eq!(plan.phase(), Phase::Connect);
    let e = plan.fail("connection refused");
    match e {
        SftpError::ConnectionFailed(m) => assert_eq!(
            m,
            "Cannot reach 127.0.0.1:9999. Check host and port. Error: connection refused"
        ),
        _ => panic!("a connect failure must be classified as ConnectionFailed"),
    }
    // Fail-fast: nothing further is ever prescribed.
    assert_eq!(plan.phase(), Phase::Failed);
    assert!(!plan.is_in_flight());
    assert!(plan.current_action().is_none());
}

#[test]
fn password_rejection_is_classified_with_the_username() {
    let t = target("localhost", 22, "alice", Some("wrongpass"), "");
    let mut plan = t.connection_test_plan();
    for _ in 0..4 {
        plan.advance();
    }
    let e = plan.fail("authentication failed");
    match e {
        SftpError::AuthenticationFailed(m) => {
            assert!(m.contains("alice"));
            assert_eq!(
                m,
                "Password authentication failed for user 'alice': authentication failed"
            );
        }
        _ => panic!("a rejected password must be classified as AuthenticationFailed"),
    }
    assert!(plan.current_action().is_none());
}

#[test]
fn agent_rejection_is_classified_with_the_username() {
    let t = target("localhost", 22, "dave", None, "");
    let mut plan = t.connection_test_plan();
    for _ in 0..4 {
        plan.advance();
    }
    let e = plan.fail("no identities");
    match e {
        SftpError::AuthenticationFailed(m) => assert_eq!(
            m,
            "SSH agent authentication failed for user 'dave': no identities"
        ),
        _ => panic!("a rejected agent must be classified as AuthenticationFailed"),
    }
}

#[test]
fn unauthenticated_session_is_an_authentication_failure_naming_the_user() {
    let t = target("h", 22, "erin", Some("pw"), "");
    let mut plan = t.connection_test_plan();
    for _ in 0..5 {
        plan.advance();
    }
    assert_eq!(plan.phase(), Phase::ConfirmAuthentication);
    let e = plan.fail("");
    match e {
        SftpError::AuthenticationFailed(m) => {
            assert!(m.contains("erin"));
            assert_eq!(
                m,
                "Authentication failed for user 'erin' - check username and password"
            )
        }
        _ => panic!("an unauthenticated session must be AuthenticationFailed"),
    }
}

#[test]
fn bad_address_syntax_is_classified_at_resolution() {
    let t = target("bad host", 22, "u", None, "");
    let mut plan = t.connection_test_plan();
    let e = plan.fail("invalid socket address");
    match e {
        SftpError::ConnectionFailed(m) => {
            assert_eq!(m, "Invalid host/port 'bad host:22': invalid socket address")
        }
        _ => panic!("a resolution failure must be ConnectionFailed"),
    }
}

#[test]
fn empty_resolution_names_the_host() {
    let t = target("nowhere.invalid", 22, "u", None, "");
    let mut plan = t.connection_test_plan();
    let e = plan.fail_unresolved();
    match e {
        SftpError::ConnectionFailed(m) => {
            assert_eq!(m, "Could not resolve host: nowhere.invalid")
        }
        _ => panic!("an empty resolution must be ConnectionFailed"),
    }
    assert!(plan.current_action().is_none());
}

#[test]
fn session_creation_failure_keeps_the_cause_text() {
    let t = target("h", 22, "u", None, "");
    let mut plan = t.connection_test_plan();
    plan.advance();
    plan.advance();
    assert_eq!(plan.phase(), Phase::StartSession);
    let e = plan.fail("out of memory");
    match e {
        SftpError::ConnectionFailed(m) => assert_eq!(m, "out of memory"),
        _ => panic!("a session-creation failure must be ConnectionFailed"),
    }
}

#[test]
fn handshake_failure_is_classified() {
    let t = target("h", 22, "u", None, "");
    let mut plan = t.connection_test_plan();
    for _ in 0..3 {
        plan.advance();
    }
    assert_eq!(plan.phase(), Phase::Handshake);
    let e = plan.fail("banner exchange failed");
    match e {
        SftpError::ConnectionFailed(m) => {
            assert_eq!(m, "SSH handshake failed: banner exchange failed")
        }
        _ => panic!("a handshake failure must be ConnectionFailed"),
    }
}

#[test]
fn channel_open_failure_is_an_upload_failure() {
    let t = target("h", 22, "u", Some("pw"), "/uploads");
    let mut plan = t.upload_plan("/tmp/a.png", "a.png");
    for _ in 0..6 {
        plan.advance();
    }
    assert_eq!(plan.phase(), Phase::OpenChannel);
    let e = plan.fail("channel rejected");
    match e {
        SftpError::UploadFailed(m) => {
            assert_eq!(m, "Failed to start SFTP session: channel rejected")
        }
        _ => panic!("a channel-open failure must be UploadFailed"),
    }
}

#[test]
fn missing_local_file_is_a_file_read_error_after_authentication() {
    let t = target("h", 22, "u", Some("pw"), "/uploads");
    let mut plan = t.upload_plan("/tmp/missing.png", "missing.png");
    let mut seen_confirm = false;
    // The file is only read once the session is authenticated and the
    // channel is open; the plan prescribes the read after those steps.
    loop {
        match plan.current_action() {
            Some(SessionAction::ConfirmAuthenticated) => {
                seen_confirm = true;
                plan.advance();
            }
            Some(SessionAction::ReadLocalFile { path }) => {
                assert!(seen_confirm);
                assert_eq!(path, "/tmp/missing.png");
                break;
            }
            Some(_) => plan.advance(),
            None => panic!("the upload plan must reach the file read"),
        }
    }
    let e = plan.fail("No such file or directory (os error 2)");
    match e {
        SftpError::FileReadError(m) => {
            assert_eq!(m, "No such file or directory (os error 2)")
        }
        _ => panic!("a missing local file must be FileReadError"),
    }
    assert!(plan.current_action().is_none());
}

#[test]
fn remote_creation_and_copy_failures_are_upload_failures() {
    let t = target("h", 22, "u", Some("pw"), "/uploads");

    let mut plan = t.upload_plan("/tmp/a.png", "a.png");
    for _ in 0..8 {
        plan.advance();
    }
    assert_eq!(plan.phase(), Phase::CreateRemoteFile);
    match plan.fail("permission denied") {
        SftpError::UploadFailed(m) => assert_eq!(m, "permission denied"),
        _ => panic!("a remote-creation failure must be UploadFailed"),
    }

    let mut plan = t.upload_plan("/tmp/a.png", "a.png");
    for _ in 0..9 {
        plan.advance();
    }
    assert_eq!(plan.phase(), Phase::WriteRemoteBytes);
    match plan.fail("connection reset") {
        SftpError::UploadFailed(m) => assert_eq!(m, "connection reset"),
        _ => panic!("a copy failure must be UploadFailed"),
    }
}

#[test]
fn empty_remote_directory_uploads_to_the_filename_alone() {
    let t = target("h", 22, "u", Some("pw"), "");
    let plan = t.upload_plan("/tmp/shot.png", "shot.png");
    assert_eq!(plan.remote_destination(), Some("shot.png".to_string()));
}
