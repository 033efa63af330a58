use vstd::prelude::*;

use crate::events::MatrixEvent;
use crate::events::RawMessage;
use crate::events::normalize;
use crate::events::spec_normalize;
use crate::subscriber::SubscriberRegistry;

verus! {

/// Seconds the server may hold one long-polling sync call open.
pub const SYNC_TIMEOUT_SECS: u64 = 30;

/// Seconds slept after a failed sync call before retrying with the same
/// token. The backoff is fixed, not exponential.
pub const SYNC_BACKOFF_SECS: u64 = 2;

/// The continuation state of the incremental sync: the token returned by
/// the last successful call — used verbatim as input to the next one — and
/// the long-poll timeout handed to every call. Skipping or reusing a stale
/// token causes duplicate or missed events.
#[derive(Clone, Debug, PartialEq)]
pub struct SyncCursor {
    /// `None` before the first successful call.
    pub token: Option<String>,
    pub timeout_secs: u64,
}

/// What the host observed from one long-polling sync call.
#[derive(Clone, Debug, PartialEq)]
pub enum SyncOutcome {
    /// The call returned; `next_token` is the response's continuation
    /// token.
    Success { next_token: String },
    /// The call failed.
    Failure,
}

/// What the loop must do after one sync call.
#[derive(Clone, Copy, Debug, PartialEq, Eq, Structural)]
pub enum SyncAction {
    /// Issue the next call immediately: the server-side long poll provides
    /// the backpressure.
    Continue,
    /// Sleep for the fixed backoff, then retry with the same token.
    BackoffThenRetry { delay_secs: u64 },
}

/// The sync engine: one background loop that pulls new events, advances
/// the continuation token, and routes normalized messages to the
/// subscriber registry. It is idle or running; sync errors are recovered
/// in place and never terminate it.
#[derive(Clone, Debug)]
pub struct SyncEngine {
    pub running: bool,
    /// Mutated only by the loop's own iteration, never concurrently.
    pub cursor: SyncCursor,
}

impl SyncEngine {
    pub fn new() -> (e: SyncEngine)
        ensures
            !e.running,
            e.cursor.token is None,
            e.cursor.timeout_secs == SYNC_TIMEOUT_SECS,
    {
        SyncEngine {
            running: false,
            cursor: SyncCursor { token: None, timeout_secs: SYNC_TIMEOUT_SECS },
        }
    }

    /// Marks the engine running and says whether a loop task must be
    /// spawned. Idempotent: a second `start` observes a no-op success, so
    /// overlapping calls cannot produce two competing loops.
    pub fn start(&mut self) -> (spawn: bool)
        ensures
            final(self).running,
            final(self).cursor == old(self).cursor,
            spawn == !old(self).running,
    {
        let was_running = self.running;
        self.running = true;
        !was_running
    }

    /// The engine after `stop`: only the running flag falls.
    pub open spec fn spec_stop(self) -> SyncEngine {
        SyncEngine { running: false, ..self }
    }

    /// Stops the loop; idempotent. The host cancels the loop task, and no
    /// further event is routed to any subscriber (see `route_message`).
    pub fn stop(&mut self)
        ensures
            *final(self) == old(self).spec_stop(),
    {
        self.running = false;
    }

    /// The transition for one sync outcome: success installs the returned
    /// token verbatim and continues at once; failure leaves the cursor
    /// untouched and backs off for the fixed interval.
    pub open spec fn spec_on_sync_outcome(self, o: SyncOutcome) -> (SyncEngine, SyncAction) {
        match o {
            SyncOutcome::Success { next_token } => (
                SyncEngine {
                    cursor: SyncCursor { token: Some(next_token), ..self.cursor },
                    ..self
                },
                SyncAction::Continue,
            ),
            SyncOutcome::Failure => (
                self,
                SyncAction::BackoffThenRetry { delay_secs: SYNC_BACKOFF_SECS },
            ),
        }
    }

    /// Advances the cursor after one sync call and says how the loop goes
    /// on. The loop itself has no terminating outcome: it runs until
    /// `stop`.
    pub fn on_sync_outcome(&mut self, outcome: SyncOutcome) -> (a: SyncAction)
        ensures
            (*final(self), a) == old(self).spec_on_sync_outcome(outcome),
    {
        match outcome {
            SyncOutcome::Success { next_token } => {
                self.cursor.token = Some(next_token);
                SyncAction::Continue
            },
            SyncOutcome::Failure => SyncAction::BackoffThenRetry {
                delay_secs: SYNC_BACKOFF_SECS,
            },
        }
    }

    /// The token to pass to the next sync call: exactly the cursor's.
    pub fn next_token(&self) -> (t: &Option<String>)
        ensures
            t == &self.cursor.token,
    {
        &self.cursor.token
    }

    /// Routes one synced message: normalizes it and hands it to the sole
    /// active subscriber — exactly when the engine is running and a
    /// subscriber is installed. Otherwise the event is discarded, never
    /// buffered and never retried.
    pub fn route_message<'a, S>(&self, reg: &'a SubscriberRegistry<S>, raw: RawMessage) -> (r:
        Option<(&'a S, MatrixEvent)>)
        ensures
            r is Some <==> spec_delivers(*self, *reg),
            r matches Some((s, ev)) ==> reg.active == Some(*s) && ev == spec_normalize(raw),
    {
        if self.running {
            match &reg.active {
                Some(sink) => Some((sink, normalize(raw))),
                None => None,
            }
        } else {
            None
        }
    }
}

/// Whether a message synced while the engine is in state `e` reaches the
/// subscriber held by `reg`.
pub open spec fn spec_delivers<S>(e: SyncEngine, reg: SubscriberRegistry<S>) -> bool {
    e.running && reg.active is Some
}

/// The token after a run of sync calls: the one returned by the last
/// successful call, or the starting token if every call failed.
pub open spec fn spec_last_token(t0: Option<String>, outs: Seq<SyncOutcome>) -> Option<String>
    decreases outs.len(),
{
    if outs.len() == 0 {
        t0
    } else {
        match outs.last() {
            SyncOutcome::Success { next_token } => Some(next_token),
            SyncOutcome::Failure => spec_last_token(t0, outs.drop_last()),
        }
    }
}

/// The engine after processing a run of sync outcomes in order.
pub open spec fn spec_run_sync(e: SyncEngine, outs: Seq<SyncOutcome>) -> SyncEngine
    decreases outs.len(),
{
    if outs.len() == 0 {
        e
    } else {
        spec_run_sync(e, outs.drop_last()).spec_on_sync_outcome(outs.last()).0
    }
}

/// Law: sync tokens are threaded monotonically. After any run of calls,
/// the token passed to the next call is exactly the token returned by the
/// last successful one; a failed call never advances it.
pub proof fn lemma_token_threading(e: SyncEngine, outs: Seq<SyncOutcome>)
    ensures
        spec_run_sync(e, outs).cursor.token == spec_last_token(e.cursor.token, outs),
    decreases outs.len(),
{
    if outs.len() > 0 {
        lemma_token_threading(e, outs.drop_last());
    }
}

/// Law: once `stop` has run, no event is delivered to any subscriber,
/// whatever the registry holds.
pub proof fn lemma_stop_silences<S>(e: SyncEngine, reg: SubscriberRegistry<S>)
    ensures
        !spec_delivers(e.spec_stop(), reg),
{
}

/// Membership states a room member event can announce.
#[derive(Clone, Copy, Debug, PartialEq, Eq, Structural)]
pub enum Membership {
    Invite,
    Join,
    Leave,
    Ban,
    Knock,
    Other,
}

/// A membership-state event of a sync response, reduced to the fields the
/// invitation auto-acceptor reads.
#[derive(Clone, Debug, PartialEq)]
pub struct MemberEvent {
    /// The user the membership change targets.
    pub state_key: String,
    pub membership: Membership,
}

/// Whether the invitation auto-acceptor joins the room: exactly when the
/// event targets the current user and announces an invitation. The host
/// performs the join; a join failure is logged and never propagated.
pub fn should_auto_join(current_user: &Option<String>, ev: &MemberEvent) -> (r: bool)
    ensures
        r == (match current_user {
            Some(u) => ev.state_key@ == u@ && ev.membership is Invite,
            None => false,
        }),
{
    match current_user {
        Some(u) => ev.state_key == *u && ev.membership == Membership::Invite,
        None => false,
    }
}

} // verus!
