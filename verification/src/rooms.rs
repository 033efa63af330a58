use vstd::prelude::*;

use crate::errors::BridgeError;
use crate::identity::event_id_accepted;
use crate::identity::event_id_parses;
use crate::identity::mxid_accepted;
use crate::identity::mxid_parses;
use crate::identity::room_id_accepted;
use crate::identity::room_id_parses;
use crate::session::InitState;
use crate::session::SessionManager;

verus! {

/// Milliseconds between two polls for the target room to become visible.
pub const SEND_POLL_INTERVAL_MS: u64 = 100;

/// Number of visibility polls before `send_message` gives up, about five
/// seconds after polling began.
pub const SEND_POLL_LIMIT: u8 = 50;

/// Milliseconds waited after joining, for the membership state to settle
/// server-side, before the message is sent.
pub const SEND_SETTLE_MS: u64 = 500;

/// Whether one candidate extra identity joins the invite list `acc`: it
/// must parse, differ from the creator's own identity, and not stand in
/// the list already.
pub open spec fn spec_extra_admitted(
    acc: Seq<Seq<char>>,
    e: Seq<char>,
    me: Option<Seq<char>>,
) -> bool {
    &&& mxid_accepted(e)
    &&& (me matches Some(m) && e != m)
    &&& !acc.contains(e)
}

/// The invite list `acc` extended with every admissible identity of
/// `extras`, in order.
pub open spec fn spec_extend_invites(
    acc: Seq<Seq<char>>,
    extras: Seq<Seq<char>>,
    me: Option<Seq<char>>,
) -> Seq<Seq<char>>
    decreases extras.len(),
{
    if extras.len() == 0 {
        acc
    } else {
        let acc2 = if spec_extra_admitted(acc, extras[0], me) {
            acc.push(extras[0])
        } else {
            acc
        };
        spec_extend_invites(acc2, extras.skip(1), me)
    }
}

/// The invite list for a direct room created with `other` plus `extras`,
/// by a creator whose own identity is `me`: `other` first, then each
/// admissible extra in order.
pub open spec fn spec_invite_list(
    other: Seq<char>,
    extras: Seq<Seq<char>>,
    me: Option<Seq<char>>,
) -> Seq<Seq<char>> {
    spec_extend_invites(seq![other], extras, me)
}

/// Whether `v` holds a string reading `s`.
fn vec_contains_string(v: &Vec<String>, s: &String) -> (r: bool)
    ensures
        r == v.deep_view().contains(s@),
{
    let mut i: usize = 0;
    while i < v.len()
        invariant
            i <= v.len(),
            forall|j: int| 0 <= j < i ==> v.deep_view()[j] != s@,
        decreases v.len() - i,
    {
        if v[i] == *s {
            proof {
                assert(v.deep_view()[i as int] == s@);
            }
            return true;
        }
        proof {
            assert(v.deep_view()[i as int] == v@[i as int]@);
        }
        i = i + 1;
    }
    false
}

/// Builds the invite list for a direct room: the other party first, then
/// any extra identities that parse, are not the creator's own identity,
/// and are not already invited. An invalid, duplicate or self extra is
/// skipped silently — a logged note, not an error.
pub fn build_invite_list(other: &String, extras: &Vec<String>, me: &Option<String>) -> (r: Result<
    Vec<String>,
    BridgeError,
>)
    ensures
        !mxid_accepted(other@) ==> r == Err::<Vec<String>, BridgeError>(
            BridgeError::InvalidIdentity,
        ),
        mxid_accepted(other@) ==> (r matches Ok(v) && v.deep_view() == spec_invite_list(
            other@,
            extras.deep_view(),
            me.deep_view(),
        )),
{
    if !mxid_parses(other.as_str()) {
        return Err(BridgeError::InvalidIdentity);
    }
    let mut invites: Vec<String> = Vec::new();
    invites.push(other.clone());
    proof {
        assert(invites.deep_view() =~= seq![other@]);
        assert(extras.deep_view().skip(0) =~= extras.deep_view());
    }
    let mut i: usize = 0;
    while i < extras.len()
        invariant
            i <= extras.len(),
            spec_extend_invites(
                invites.deep_view(),
                extras.deep_view().skip(i as int),
                me.deep_view(),
            ) == spec_invite_list(other@, extras.deep_view(), me.deep_view()),
        decreases extras.len() - i,
    {
        let ghost acc0 = invites.deep_view();
        let e = &extras[i];
        let mut eligible = mxid_parses(e.as_str());
        if eligible {
            eligible = match me {
                Some(m) => !(*e == *m),
                None => false,
            };
        }
        if eligible {
            eligible = !vec_contains_string(&invites, e);
        }
        proof {
            assert(extras.deep_view().skip(i as int)[0] == extras.deep_view()[i as int]);
            assert(extras.deep_view()[i as int] == extras@[i as int]@);
            assert(eligible == spec_extra_admitted(acc0, extras@[i as int]@, me.deep_view()));
            assert(extras.deep_view().skip(i as int).skip(1) =~= extras.deep_view().skip(
                i as int + 1,
            ));
        }
        if eligible {
            invites.push(e.clone());
            proof {
                assert(invites.deep_view() =~= acc0.push(extras@[i as int]@));
            }
        }
        i = i + 1;
    }
    proof {
        assert(extras.deep_view().skip(extras.deep_view().len() as int) =~= Seq::<
            Seq<char>,
        >::empty());
    }
    Ok(invites)
}

/// Law helper: extending an invite list keeps it as a prefix, admits only
/// identities that parse and differ from the creator's own, and never
/// introduces a duplicate.
pub proof fn lemma_extend_invites_sound(
    acc: Seq<Seq<char>>,
    extras: Seq<Seq<char>>,
    me: Option<Seq<char>>,
)
    ensures
        ({
            let l = spec_extend_invites(acc, extras, me);
            &&& l.len() >= acc.len()
            &&& forall|i: int| 0 <= i < acc.len() ==> l[i] == acc[i]
            &&& forall|i: int|
                acc.len() <= i < l.len() ==> mxid_accepted(l[i]) && (me matches Some(m)
                    ==> l[i] != m)
            &&& (acc.no_duplicates() ==> l.no_duplicates())
        }),
    decreases extras.len(),
{
    if extras.len() > 0 {
        let e = extras[0];
        if spec_extra_admitted(acc, e, me) {
            let acc2 = acc.push(e);
            lemma_extend_invites_sound(acc2, extras.skip(1), me);
            if acc.no_duplicates() {
                assert forall|i: int, j: int|
                    0 <= i < acc2.len() && 0 <= j < acc2.len() && i != j implies acc2[i]
                    != acc2[j] by {
                    if i < acc.len() && j < acc.len() {
                    } else if i == acc.len() as int {
                        assert(acc2[j] == acc[j]);
                        assert(!acc.contains(e));
                    } else {
                        assert(acc2[i] == acc[i]);
                        assert(!acc.contains(e));
                    }
                }
                assert(acc2.no_duplicates());
            }
        } else {
            lemma_extend_invites_sound(acc, extras.skip(1), me);
        }
    }
}

/// Law: the invite list contains the other party first, then only
/// identities that parse and are not the creator's own, each exactly once
/// — a self-duplicate or caller-identity extra is excluded, so no one is
/// invited twice.
pub proof fn lemma_invite_list_sound(other: Seq<char>, extras: Seq<Seq<char>>, me: Option<
    Seq<char>,
>)
    ensures
        ({
            let l = spec_invite_list(other, extras, me);
            &&& l.len() >= 1
            &&& l[0] == other
            &&& forall|i: int|
                1 <= i < l.len() ==> mxid_accepted(l[i]) && (me matches Some(m) ==> l[i] != m)
            &&& l.no_duplicates()
        }),
{
    assert(seq![other].no_duplicates());
    lemma_extend_invites_sound(seq![other], extras, me);
}

/// Plans `create_room`: requires the session, validates the other party's
/// identity, and builds the invite list. On `Ok` the host submits one
/// private, direct-room creation request with exactly this invite list,
/// and reports the outcome to `on_create_room_outcome`.
pub fn plan_create_room(mgr: &SessionManager, other: &String, extras: &Vec<String>) -> (r: Result<
    Vec<String>,
    BridgeError,
>)
    ensures
        !(mgr.init_state is Ready) ==> r == Err::<Vec<String>, BridgeError>(
            BridgeError::NotInitialized,
        ),
        mgr.init_state is Ready && !mxid_accepted(other@) ==> r == Err::<Vec<String>, BridgeError>(
            BridgeError::InvalidIdentity,
        ),
        mgr.init_state is Ready && mxid_accepted(other@) ==> (r matches Ok(v) && v.deep_view()
            == spec_invite_list(other@, extras.deep_view(), mgr.user.deep_view())),
{
    match mgr.init_state {
        InitState::Ready => build_invite_list(other, extras, mgr.current_user()),
        _ => Err(BridgeError::NotInitialized),
    }
}

/// What the host observed from the room creation request.
#[derive(Clone, Debug, PartialEq)]
pub enum CreateRoomOutcome {
    /// The room was created under this identifier.
    Created { room_id: String },
    /// The request was rejected.
    Failed,
}

/// Finishes `create_room` with the request outcome. On success the host
/// then best-effort enables encryption on the new room; a failure there is
/// logged and does not fail the operation, so the identifier is returned
/// regardless.
pub fn on_create_room_outcome(outcome: CreateRoomOutcome) -> (r: Result<String, BridgeError>)
    ensures
        outcome matches CreateRoomOutcome::Created { room_id } ==> r == Ok::<String, BridgeError>(
            room_id,
        ),
        outcome is Failed ==> r == Err::<String, BridgeError>(BridgeError::RoomCreateFailed),
{
    match outcome {
        CreateRoomOutcome::Created { room_id } => Ok(room_id),
        CreateRoomOutcome::Failed => Err(BridgeError::RoomCreateFailed),
    }
}

/// Where a `send_message` attempt stands in its join-then-send protocol.
/// The caller may not yet be a member of the target room — it may have
/// just been created by a counterpart — so sending is a retry protocol,
/// not a single call.
#[derive(Clone, Copy, Debug, PartialEq, Eq, Structural)]
pub enum SendPhase {
    /// The initial join-by-id request is in flight; its failure is
    /// tolerated (the caller may already be a member).
    Joining,
    /// Polling for the room to become locally visible; `polls` checks
    /// have come back empty so far.
    Polling { polls: u8 },
    /// The room is visible; the explicit join that accepts a pending
    /// invitation is in flight, its failure tolerated too.
    Confirming,
    /// Waiting the fixed settle interval, then sending the text event.
    Sending,
    /// The attempt ended: the message was sent, or an error surfaced.
    Finished,
}

/// One `send_message` attempt, driven by the host through the outcomes it
/// observes.
#[derive(Clone, Copy, Debug, PartialEq, Eq, Structural)]
pub struct SendAttempt {
    pub phase: SendPhase,
}

/// What the host must do after one visibility poll.
#[derive(Clone, Copy, Debug, PartialEq, Eq, Structural)]
pub enum PollStep {
    /// The room is visible: move on to the explicit join.
    Found,
    /// Not visible yet: sleep the poll interval, then poll again.
    RetryAfter { delay_ms: u64 },
}

/// First step of `send_message`: requires the session and a well-formed
/// room identifier. On `Ok` the host issues the join-by-id request and
/// reports to `on_join_attempt`.
pub fn begin_send(mgr: &SessionManager, room_id: &String) -> (r: Result<SendAttempt, BridgeError>)
    ensures
        !(mgr.init_state is Ready) ==> r == Err::<SendAttempt, BridgeError>(
            BridgeError::NotInitialized,
        ),
        mgr.init_state is Ready && !room_id_accepted(room_id@) ==> r == Err::<
            SendAttempt,
            BridgeError,
        >(BridgeError::InvalidRoomId),
        mgr.init_state is Ready && room_id_accepted(room_id@) ==> r == Ok::<
            SendAttempt,
            BridgeError,
        >(SendAttempt { phase: SendPhase::Joining }),
{
    match mgr.init_state {
        InitState::Ready => {
            if room_id_parses(room_id.as_str()) {
                Ok(SendAttempt { phase: SendPhase::Joining })
            } else {
                Err(BridgeError::InvalidRoomId)
            }
        },
        _ => Err(BridgeError::NotInitialized),
    }
}

/// Second step: the join-by-id outcome. Success and failure alike move on
/// to polling, since the request fails when the caller is already a
/// member.
pub fn on_join_attempt(a: &mut SendAttempt, join_ok: bool)
    requires
        old(a).phase is Joining,
    ensures
        final(a).phase == (SendPhase::Polling { polls: 0 }),
{
    a.phase = SendPhase::Polling { polls: 0 };
}

/// The transition for one visibility poll.
pub open spec fn spec_on_poll(phase: SendPhase, visible: bool) -> (SendPhase, Result<
    PollStep,
    BridgeError,
>) {
    match phase {
        SendPhase::Polling { polls } => {
            if visible {
                (SendPhase::Confirming, Ok(PollStep::Found))
            } else if polls + 1 < SEND_POLL_LIMIT {
                (
                    SendPhase::Polling { polls: (polls + 1) as u8 },
                    Ok(PollStep::RetryAfter { delay_ms: SEND_POLL_INTERVAL_MS }),
                )
            } else {
                (SendPhase::Finished, Err(BridgeError::RoomNotFound))
            }
        },
        _ => (phase, Err(BridgeError::RoomNotFound)),
    }
}

/// One poll for the room to become locally visible. A visible room moves
/// the attempt on; otherwise the host sleeps the fixed interval and polls
/// again, up to the poll limit — then the attempt fails with
/// `RoomNotFound`.
pub fn on_poll(a: &mut SendAttempt, visible: bool) -> (r: Result<PollStep, BridgeError>)
    requires
        old(a).phase matches SendPhase::Polling { polls } && polls < SEND_POLL_LIMIT,
    ensures
        (final(a).phase, r) == spec_on_poll(old(a).phase, visible),
        visible ==> final(a).phase is Confirming,
        !visible && r is Ok ==> r == Ok::<PollStep, BridgeError>(
            PollStep::RetryAfter { delay_ms: SEND_POLL_INTERVAL_MS },
        ),
{
    match a.phase {
        SendPhase::Polling { polls } => {
            if visible {
                a.phase = SendPhase::Confirming;
                Ok(PollStep::Found)
            } else if polls + 1 < SEND_POLL_LIMIT {
                a.phase = SendPhase::Polling { polls: polls + 1 };
                Ok(PollStep::RetryAfter { delay_ms: SEND_POLL_INTERVAL_MS })
            } else {
                a.phase = SendPhase::Finished;
                Err(BridgeError::RoomNotFound)
            }
        },
        _ => vstd::pervasive::unreached(),
    }
}

/// Fourth step: the outcome of the explicit join of the visible room,
/// which accepts a pending invitation. Its failure is tolerated as well;
/// either way the host waits the returned settle interval and then sends
/// the plain-text message event, reporting to `on_send_outcome`.
pub fn on_confirm_join(a: &mut SendAttempt, join_ok: bool) -> (settle_ms: u64)
    requires
        old(a).phase is Confirming,
    ensures
        final(a).phase is Sending,
        settle_ms == SEND_SETTLE_MS,
{
    a.phase = SendPhase::Sending;
    SEND_SETTLE_MS
}

/// What the host observed from the send request.
#[derive(Clone, Debug, PartialEq)]
pub enum SendOutcome {
    /// The event was accepted under this identifier.
    Sent { event_id: String },
    /// The request was rejected.
    Failed,
}

/// Last step of `send_message`: on success the new event's identifier is
/// returned; a send failure is surfaced as `SendFailed`.
pub fn on_send_outcome(a: &mut SendAttempt, outcome: SendOutcome) -> (r: Result<
    String,
    BridgeError,
>)
    requires
        old(a).phase is Sending,
    ensures
        final(a).phase is Finished,
        outcome matches SendOutcome::Sent { event_id } ==> r == Ok::<String, BridgeError>(event_id),
        outcome is Failed ==> r == Err::<String, BridgeError>(BridgeError::SendFailed),
{
    a.phase = SendPhase::Finished;
    match outcome {
        SendOutcome::Sent { event_id } => Ok(event_id),
        SendOutcome::Failed => Err(BridgeError::SendFailed),
    }
}

/// The attempt's phase after `n` polls that all came back empty.
pub open spec fn spec_run_empty_polls(phase: SendPhase, n: nat) -> SendPhase
    decreases n,
{
    if n == 0 {
        phase
    } else {
        spec_on_poll(spec_run_empty_polls(phase, (n - 1) as nat), false).0
    }
}

/// Law: a room that never becomes visible exhausts the poll budget. From
/// a fresh attempt, each empty poll before the limit asks for another try
/// after the fixed interval, and the poll that reaches the limit fails
/// the attempt with `RoomNotFound` — about five seconds after polling
/// began.
pub proof fn lemma_poll_exhaustion(n: nat)
    requires
        n < SEND_POLL_LIMIT,
    ensures
        spec_run_empty_polls(SendPhase::Polling { polls: 0 }, n) == (SendPhase::Polling {
            polls: n as u8,
        }),
        n + 1 < SEND_POLL_LIMIT ==> spec_on_poll(
            SendPhase::Polling { polls: n as u8 },
            false,
        ).1 == Ok::<PollStep, BridgeError>(
            PollStep::RetryAfter { delay_ms: SEND_POLL_INTERVAL_MS },
        ),
        n + 1 == SEND_POLL_LIMIT ==> spec_on_poll(
            SendPhase::Polling { polls: n as u8 },
            false,
        ).1 == Err::<PollStep, BridgeError>(BridgeError::RoomNotFound),
    decreases n,
{
    if n > 0 {
        lemma_poll_exhaustion((n - 1) as nat);
    }
}

/// Plans `mark_read`: requires the session and both identifiers well
/// formed. On `Ok` the host resolves the room — `mark_read` never
/// attempts a join — and reports to `on_read_room_lookup`.
pub fn plan_mark_read(mgr: &SessionManager, room_id: &String, event_id: &String) -> (r: Result<
    (),
    BridgeError,
>)
    ensures
        !(mgr.init_state is Ready) ==> r == Err::<(), BridgeError>(BridgeError::NotInitialized),
        mgr.init_state is Ready && !room_id_accepted(room_id@) ==> r == Err::<(), BridgeError>(
            BridgeError::InvalidRoomId,
        ),
        mgr.init_state is Ready && room_id_accepted(room_id@) && !event_id_accepted(event_id@)
            ==> r == Err::<(), BridgeError>(BridgeError::InvalidEventId),
        mgr.init_state is Ready && room_id_accepted(room_id@) && event_id_accepted(event_id@)
            ==> r == Ok::<(), BridgeError>(()),
{
    match mgr.init_state {
        InitState::Ready => {
            if !room_id_parses(room_id.as_str()) {
                Err(BridgeError::InvalidRoomId)
            } else if !event_id_parses(event_id.as_str()) {
                Err(BridgeError::InvalidEventId)
            } else {
                Ok(())
            }
        },
        _ => Err(BridgeError::NotInitialized),
    }
}

/// Continues `mark_read` with the room lookup: a room that is not locally
/// visible fails with `RoomNotFound`. On `Ok` the host sends one
/// unthreaded read receipt for the event and reports to
/// `on_receipt_outcome`.
pub fn on_read_room_lookup(room_found: bool) -> (r: Result<(), BridgeError>)
    ensures
        room_found <==> r == Ok::<(), BridgeError>(()),
        !room_found <==> r == Err::<(), BridgeError>(BridgeError::RoomNotFound),
{
    if room_found {
        Ok(())
    } else {
        Err(BridgeError::RoomNotFound)
    }
}

/// Finishes `mark_read` with the receipt outcome.
pub fn on_receipt_outcome(receipt_sent: bool) -> (r: Result<(), BridgeError>)
    ensures
        receipt_sent <==> r == Ok::<(), BridgeError>(()),
        !receipt_sent <==> r == Err::<(), BridgeError>(BridgeError::ReceiptFailed),
{
    if receipt_sent {
        Ok(())
    } else {
        Err(BridgeError::ReceiptFailed)
    }
}

/// Plans the history fetch: requires the session and a well-formed room
/// identifier. On `Ok` the host looks the room up and reports to
/// `on_fetch_room_lookup`.
pub fn plan_fetch_messages(mgr: &SessionManager, room_id: &String) -> (r: Result<(), BridgeError>)
    ensures
        !(mgr.init_state is Ready) ==> r == Err::<(), BridgeError>(BridgeError::NotInitialized),
        mgr.init_state is Ready && !room_id_accepted(room_id@) ==> r == Err::<(), BridgeError>(
            BridgeError::InvalidRoomId,
        ),
        mgr.init_state is Ready && room_id_accepted(room_id@) ==> r == Ok::<(), BridgeError>(()),
{
    match mgr.init_state {
        InitState::Ready => {
            if room_id_parses(room_id.as_str()) {
                Ok(())
            } else {
                Err(BridgeError::InvalidRoomId)
            }
        },
        _ => Err(BridgeError::NotInitialized),
    }
}

/// Continues the history fetch with the room lookup: a room that is not
/// locally visible is joined first, and only a failed join fails the
/// fetch. On `Ok` the host requests the backward page of events and hands
/// the classified entries to `collect_text_messages`.
pub fn on_fetch_room_lookup(room_found: bool, join_ok: bool) -> (r: Result<(), BridgeError>)
    ensures
        (room_found || join_ok) <==> r == Ok::<(), BridgeError>(()),
        !(room_found || join_ok) <==> r == Err::<(), BridgeError>(BridgeError::RoomNotFound),
{
    if room_found || join_ok {
        Ok(())
    } else {
        Err(BridgeError::RoomNotFound)
    }
}

} // verus!
