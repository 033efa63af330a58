use matrix_bridge::errors::BridgeError;
use matrix_bridge::session::AuthOutcome;
use matrix_bridge::session::BuildOutcome;
use matrix_bridge::session::InitProgress;
use matrix_bridge::session::LoginStep;
use matrix_bridge::session::SessionManager;

#[test]
fn init_rejects_malformed_address() {
    let mut mgr = SessionManager::new();
    assert_eq!(mgr.begin_init("not a url"), Err(BridgeError::InvalidAddress));
    // a rejected address leaves the manager untouched: a good one still works
    assert_eq!(mgr.begin_init("https://matrix.example.org"), Ok(()));
}

#[test]
fn second_init_rejected_while_building() {
    let mut mgr = SessionManager::new();
    assert_eq!(mgr.begin_init("https://hs.example"), Ok(()));
    assert_eq!(mgr.begin_init("https://hs.example"), Err(BridgeError::AlreadyInitialized));
}

#[test]
fn second_init_rejected_after_success() {
    let mut mgr = SessionManager::new();
    mgr.begin_init("https://hs.example").unwrap();
    assert_eq!(mgr.on_build_outcome(BuildOutcome::Fresh), Ok(InitProgress::Done));
    assert_eq!(mgr.begin_init("https://hs.example"), Err(BridgeError::AlreadyInitialized));
}

#[test]
fn second_init_rejected_after_failure() {
    let mut mgr = SessionManager::new();
    mgr.begin_init("https://hs.example").unwrap();
    assert_eq!(mgr.on_build_outcome(BuildOutcome::Failure), Err(BridgeError::ConnectFailed));
    assert_eq!(mgr.begin_init("https://hs.example"), Err(BridgeError::AlreadyInitialized));
}

#[test]
fn device_mismatch_clears_store_once() {
    let mut mgr = SessionManager::new();
    mgr.begin_init("https://hs.example").unwrap();
    assert_eq!(
        mgr.on_build_outcome(BuildOutcome::DeviceMismatch),
        Ok(InitProgress::ClearStoreAndRebuild)
    );
    assert_eq!(mgr.on_build_outcome(BuildOutcome::Fresh), Ok(InitProgress::Done));
}

#[test]
fn device_mismatch_twice_is_fatal() {
    let mut mgr = SessionManager::new();
    mgr.begin_init("https://hs.example").unwrap();
    mgr.on_build_outcome(BuildOutcome::DeviceMismatch).unwrap();
    assert_eq!(
        mgr.on_build_outcome(BuildOutcome::DeviceMismatch),
        Err(BridgeError::StoreCorrupt)
    );
}

#[test]
fn build_failure_after_mismatch_is_fatal() {
    let mut mgr = SessionManager::new();
    mgr.begin_init("https://hs.example").unwrap();
    mgr.on_build_outcome(BuildOutcome::DeviceMismatch).unwrap();
    assert_eq!(mgr.on_build_outcome(BuildOutcome::Failure), Err(BridgeError::StoreCorrupt));
}

#[test]
fn build_outcome_without_init_rejected() {
    let mut mgr = SessionManager::new();
    assert_eq!(mgr.on_build_outcome(BuildOutcome::Fresh), Err(BridgeError::NotInitialized));
}

#[test]
fn login_requires_init() {
    let mgr = SessionManager::new();
    assert_eq!(mgr.begin_login(), Err(BridgeError::NotInitialized));
}

#[test]
fn restored_session_resumes_without_auth() {
    let mut mgr = SessionManager::new();
    mgr.begin_init("https://hs.example").unwrap();
    mgr.on_build_outcome(BuildOutcome::Restored { user_id: "@alice:example.org".to_string() })
        .unwrap();
    match mgr.begin_login().unwrap() {
        LoginStep::Resumed(lr) => {
            assert_eq!(lr.user_id, "@alice:example.org");
            assert_eq!(lr.access_token, "");
        }
        LoginStep::NeedAuth => panic!("a restored session must not ask for authentication"),
    }
}

#[test]
fn fresh_session_needs_auth_and_records_identity() {
    let mut mgr = SessionManager::new();
    mgr.begin_init("https://hs.example").unwrap();
    mgr.on_build_outcome(BuildOutcome::Fresh).unwrap();
    assert_eq!(mgr.begin_login(), Ok(LoginStep::NeedAuth));
    let lr = mgr
        .on_auth_outcome(AuthOutcome::Accepted {
            user_id: "@bob:example.org".to_string(),
            device_id: "DEVICE".to_string(),
        })
        .unwrap();
    assert_eq!(lr.user_id, "@bob:example.org");
    assert_eq!(lr.access_token, "");
    // a later login resumes the recorded identity
    match mgr.begin_login().unwrap() {
        LoginStep::Resumed(lr2) => assert_eq!(lr2.user_id, "@bob:example.org"),
        LoginStep::NeedAuth => panic!("the identity should have been recorded"),
    }
}

#[test]
fn auth_rejection_surfaces() {
    let mut mgr = SessionManager::new();
    mgr.begin_init("https://hs.example").unwrap();
    mgr.on_build_outcome(BuildOutcome::Fresh).unwrap();
    assert_eq!(mgr.on_auth_outcome(AuthOutcome::Rejected), Err(BridgeError::AuthFailed));
    assert_eq!(
        mgr.on_auth_outcome(AuthOutcome::RejectedDeviceMismatch),
        Err(BridgeError::DeviceMismatch)
    );
    // neither rejection recorded an identity
    assert_eq!(mgr.begin_login(), Ok(LoginStep::NeedAuth));
}

#[test]
fn auth_outcome_requires_init() {
    let mut mgr = SessionManager::new();
    assert_eq!(
        mgr.on_auth_outcome(AuthOutcome::Rejected),
        Err(BridgeError::NotInitialized)
    );
}
