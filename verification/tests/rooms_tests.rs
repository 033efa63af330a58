use matrix_bridge::errors::BridgeError;
use matrix_bridge::rooms::CreateRoomOutcome;
use matrix_bridge::rooms::PollStep;
use matrix_bridge::rooms::SendOutcome;
use matrix_bridge::rooms::SendPhase;
use matrix_bridge::rooms::begin_send;
use matrix_bridge::rooms::on_confirm_join;
use matrix_bridge::rooms::on_create_room_outcome;
use matrix_bridge::rooms::on_fetch_room_lookup;
use matrix_bridge::rooms::on_join_attempt;
use matrix_bridge::rooms::on_poll;
use matrix_bridge::rooms::on_read_room_lookup;
use matrix_bridge::rooms::on_receipt_outcome;
use matrix_bridge::rooms::on_send_outcome;
use matrix_bridge::rooms::plan_create_room;
use matrix_bridge::rooms::plan_fetch_messages;
use matrix_bridge::rooms::plan_mark_read;
use matrix_bridge::session::BuildOutcome;
use matrix_bridge::session::SessionManager;

fn ready_manager() -> SessionManager {
    let mut mgr = SessionManager::new();
    mgr.begin_init("https://hs.example").unwrap();
    mgr.on_build_outcome(BuildOutcome::Restored { user_id: "@alice:example.org".to_string() })
        .unwrap();
    mgr
}

fn anonymous_manager() -> SessionManager {
    let mut mgr = SessionManager::new();
    mgr.begin_init("https://hs.example").unwrap();
    mgr.on_build_outcome(BuildOutcome::Fresh).unwrap();
    mgr
}

#[test]
fn self_duplicate_invite_excluded() {
    let mgr = ready_manager();
    let invites = plan_create_room(
        &mgr,
        &"@bob:x".to_string(),
        &vec!["@bob:x".to_string()],
    )
    .unwrap();
    assert_eq!(invites, vec!["@bob:x".to_string()], "exactly one invite, not two");
}

#[test]
fn caller_identity_invite_excluded() {
    let mgr = ready_manager();
    let invites = plan_create_room(
        &mgr,
        &"@bob:example.org".to_string(),
        &vec!["@alice:example.org".to_string(), "@carol:example.org".to_string()],
    )
    .unwrap();
    assert_eq!(
        invites,
        vec!["@bob:example.org".to_string(), "@carol:example.org".to_string()]
    );
}

#[test]
fn invalid_extra_skipped_silently() {
    let mgr = ready_manager();
    let invites = plan_create_room(
        &mgr,
        &"@bob:example.org".to_string(),
        &vec!["not-an-identity".to_string(), "@dan:example.org".to_string()],
    )
    .unwrap();
    assert_eq!(
        invites,
        vec!["@bob:example.org".to_string(), "@dan:example.org".to_string()]
    );
}

#[test]
fn extras_skipped_without_own_identity() {
    let mgr = anonymous_manager();
    let invites = plan_create_room(
        &mgr,
        &"@bob:example.org".to_string(),
        &vec!["@carol:example.org".to_string()],
    )
    .unwrap();
    assert_eq!(invites, vec!["@bob:example.org".to_string()]);
}

#[test]
fn invalid_other_identity_rejected() {
    let mgr = ready_manager();
    assert_eq!(
        plan_create_room(&mgr, &"bob".to_string(), &vec![]),
        Err(BridgeError::InvalidIdentity)
    );
}

#[test]
fn create_room_requires_init() {
    let mgr = SessionManager::new();
    assert_eq!(
        plan_create_room(&mgr, &"@bob:example.org".to_string(), &vec![]),
        Err(BridgeError::NotInitialized)
    );
}

#[test]
fn create_room_outcome_mapping() {
    assert_eq!(
        on_create_room_outcome(CreateRoomOutcome::Created {
            room_id: "!new:example.org".to_string()
        }),
        Ok("!new:example.org".to_string())
    );
    assert_eq!(
        on_create_room_outcome(CreateRoomOutcome::Failed),
        Err(BridgeError::RoomCreateFailed)
    );
}

#[test]
fn send_succeeds_when_room_appears_late() {
    let mgr = ready_manager();
    let mut a = begin_send(&mgr, &"!room:example.org".to_string()).unwrap();
    assert_eq!(a.phase, SendPhase::Joining);
    on_join_attempt(&mut a, false); // join failure tolerated
    assert_eq!(a.phase, SendPhase::Polling { polls: 0 });

    // the room becomes visible on the fourth poll, 300 ms in
    let mut elapsed_ms: u64 = 0;
    for _ in 0..3 {
        match on_poll(&mut a, false).unwrap() {
            PollStep::RetryAfter { delay_ms } => elapsed_ms += delay_ms,
            PollStep::Found => panic!("room is not visible yet"),
        }
    }
    assert_eq!(elapsed_ms, 300);
    assert_eq!(on_poll(&mut a, true), Ok(PollStep::Found));

    let settle_ms = on_confirm_join(&mut a, false); // second join failure tolerated too
    assert_eq!(settle_ms, 500);
    assert_eq!(
        on_send_outcome(&mut a, SendOutcome::Sent { event_id: "$ev:example.org".to_string() }),
        Ok("$ev:example.org".to_string())
    );
    assert_eq!(a.phase, SendPhase::Finished);
}

#[test]
fn send_gives_up_after_poll_budget() {
    let mgr = ready_manager();
    let mut a = begin_send(&mgr, &"!room:example.org".to_string()).unwrap();
    on_join_attempt(&mut a, true);

    let mut retries: u32 = 0;
    let mut elapsed_ms: u64 = 0;
    loop {
        match on_poll(&mut a, false) {
            Ok(PollStep::RetryAfter { delay_ms }) => {
                retries += 1;
                elapsed_ms += delay_ms;
            }
            Ok(PollStep::Found) => panic!("the room never becomes visible"),
            Err(e) => {
                assert_eq!(e, BridgeError::RoomNotFound);
                break;
            }
        }
    }
    assert_eq!(retries, 49, "fifty polls in all: forty-nine retries, then the failure");
    assert_eq!(elapsed_ms, 4900, "about five seconds of polling");
    assert_eq!(a.phase, SendPhase::Finished);
}

#[test]
fn send_requires_valid_room_id() {
    let mgr = ready_manager();
    assert_eq!(
        begin_send(&mgr, &"room".to_string()),
        Err(BridgeError::InvalidRoomId)
    );
}

#[test]
fn send_requires_init() {
    let mgr = SessionManager::new();
    assert_eq!(
        begin_send(&mgr, &"!room:example.org".to_string()),
        Err(BridgeError::NotInitialized)
    );
}

#[test]
fn send_failure_surfaces() {
    let mgr = ready_manager();
    let mut a = begin_send(&mgr, &"!room:example.org".to_string()).unwrap();
    on_join_attempt(&mut a, true);
    on_poll(&mut a, true).unwrap();
    on_confirm_join(&mut a, true);
    assert_eq!(
        on_send_outcome(&mut a, SendOutcome::Failed),
        Err(BridgeError::SendFailed)
    );
}

#[test]
fn mark_read_validates_identifiers() {
    let mgr = ready_manager();
    assert_eq!(
        plan_mark_read(&mgr, &"room".to_string(), &"$ev:example.org".to_string()),
        Err(BridgeError::InvalidRoomId)
    );
    assert_eq!(
        plan_mark_read(&mgr, &"!room:example.org".to_string(), &"ev".to_string()),
        Err(BridgeError::InvalidEventId)
    );
    assert_eq!(
        plan_mark_read(
            &mgr,
            &"!room:example.org".to_string(),
            &"$ev:example.org".to_string()
        ),
        Ok(())
    );
    // an opaque event identifier without a server part is well formed too
    assert_eq!(
        plan_mark_read(&mgr, &"!room:example.org".to_string(), &"$abcDEF123".to_string()),
        Ok(())
    );
}

#[test]
fn mark_read_requires_init() {
    let mgr = SessionManager::new();
    assert_eq!(
        plan_mark_read(
            &mgr,
            &"!room:example.org".to_string(),
            &"$ev:example.org".to_string()
        ),
        Err(BridgeError::NotInitialized)
    );
}

#[test]
fn mark_read_room_lookup() {
    assert_eq!(on_read_room_lookup(true), Ok(()));
    assert_eq!(on_read_room_lookup(false), Err(BridgeError::RoomNotFound));
}

#[test]
fn receipt_outcome_mapping() {
    assert_eq!(on_receipt_outcome(true), Ok(()));
    assert_eq!(on_receipt_outcome(false), Err(BridgeError::ReceiptFailed));
}

#[test]
fn fetch_plan_validates() {
    let mgr = ready_manager();
    assert_eq!(plan_fetch_messages(&mgr, &"!room:example.org".to_string()), Ok(()));
    assert_eq!(
        plan_fetch_messages(&mgr, &"room".to_string()),
        Err(BridgeError::InvalidRoomId)
    );
    let fresh = SessionManager::new();
    assert_eq!(
        plan_fetch_messages(&fresh, &"!room:example.org".to_string()),
        Err(BridgeError::NotInitialized)
    );
}

#[test]
fn fetch_lookup_joins_missing_room() {
    assert_eq!(on_fetch_room_lookup(true, false), Ok(()));
    assert_eq!(on_fetch_room_lookup(false, true), Ok(()));
    assert_eq!(on_fetch_room_lookup(false, false), Err(BridgeError::RoomNotFound));
}
