use vstd::prelude::*;

use crate::errors::BridgeError;
use crate::identity::url_accepted;
use crate::identity::url_parses;

verus! {

/// What `login` hands back: the identity of the authenticated user and the
/// credential token. The token is left empty both on session resumption and
/// after password authentication; the durable store carries the credentials.
#[derive(Clone, Debug, PartialEq)]
pub struct LoginResult {
    pub user_id: String,
    pub access_token: String,
}

/// Where the session manager stands in its lifecycle. There is no way back
/// to `Idle`: the host is expected to call `init` exactly once per process.
#[derive(Clone, Copy, Debug, PartialEq, Eq, Structural)]
pub enum InitState {
    /// `init` has not been called with an acceptable address yet.
    Idle,
    /// A connection build is in flight: `attempt` is 1 on the first try and
    /// 2 after a device mismatch cleared the store.
    Building { attempt: u8 },
    /// The connection is installed; the session exists.
    Ready,
    /// Construction failed for good.
    Failed,
}

/// What the host observed when it tried to build the connection against the
/// durable store.
#[derive(Clone, Debug, PartialEq)]
pub enum BuildOutcome {
    /// The connection was built and the store already carried an
    /// authenticated session for this user.
    Restored { user_id: String },
    /// The connection was built; the store carried no session.
    Fresh,
    /// Construction failed because the store's persisted device identity
    /// does not match the expected device.
    DeviceMismatch,
    /// Construction failed for any other reason.
    Failure,
}

/// What `on_build_outcome` asks the host to do next.
#[derive(Clone, Copy, Debug, PartialEq, Eq, Structural)]
pub enum InitProgress {
    /// The session is installed; `init` is complete.
    Done,
    /// The store must be deleted and the build retried, once.
    ClearStoreAndRebuild,
}

/// What `begin_login` asks the host to do next.
#[derive(Clone, Debug, PartialEq)]
pub enum LoginStep {
    /// The durable store already carried this identity: the session is
    /// resumed without any network authentication request.
    Resumed(LoginResult),
    /// No identity was restored: the host must perform password
    /// authentication and report the outcome to `on_auth_outcome`.
    NeedAuth,
}

/// What the host observed from the password authentication request.
#[derive(Clone, Debug, PartialEq)]
pub enum AuthOutcome {
    /// Authentication succeeded with this identity and device.
    Accepted { user_id: String, device_id: String },
    /// Authentication failed because the store's device identity is stale.
    RejectedDeviceMismatch,
    /// Authentication failed for any other reason.
    Rejected,
}

/// Owner of the single process-wide session: drives `init` with its one
/// automatic store-recovery attempt, and `login` with its
/// session-resumption precedence. The host performs the builds and the
/// authentication request and reports each outcome.
#[derive(Clone, Debug)]
pub struct SessionManager {
    pub init_state: InitState,
    /// The authenticated identity, restored from the store or established
    /// by password authentication.
    pub user: Option<String>,
    /// The device identity reported by authentication.
    pub device: Option<String>,
}

impl SessionManager {
    /// A build attempt counter is 1 or 2, and an identity is only held once
    /// the session exists.
    pub open spec fn wf(self) -> bool {
        &&& (self.init_state matches InitState::Building { attempt } ==> 1 <= attempt <= 2)
        &&& (self.user is Some ==> self.init_state is Ready)
        &&& (self.device is Some ==> self.init_state is Ready)
    }

    pub fn new() -> (s: SessionManager)
        ensures
            s == (SessionManager {
                init_state: InitState::Idle,
                user: None::<String>,
                device: None::<String>,
            }),
            s.wf(),
    {
        SessionManager { init_state: InitState::Idle, user: None, device: None }
    }

    /// The transition `begin_init` makes, given whether the address parsed.
    pub open spec fn spec_begin_init(self, url_ok: bool) -> (SessionManager, Result<
        (),
        BridgeError,
    >) {
        if !(self.init_state is Idle) {
            (self, Err(BridgeError::AlreadyInitialized))
        } else if !url_ok {
            (self, Err(BridgeError::InvalidAddress))
        } else {
            (
                SessionManager { init_state: InitState::Building { attempt: 1 }, ..self },
                Ok(()),
            )
        }
    }

    /// First step of `init`: rejects re-initialization, then validates the
    /// home server address. On `Ok` the host must build the connection
    /// bound to the durable store and report the outcome to
    /// `on_build_outcome`.
    pub fn begin_init(&mut self, server_url: &str) -> (r: Result<(), BridgeError>)
        ensures
            (*final(self), r) == old(self).spec_begin_init(url_accepted(server_url@)),
            old(self).wf() ==> final(self).wf(),
    {
        match self.init_state {
            InitState::Idle => {
                if url_parses(server_url) {
                    self.init_state = InitState::Building { attempt: 1 };
                    Ok(())
                } else {
                    Err(BridgeError::InvalidAddress)
                }
            },
            _ => Err(BridgeError::AlreadyInitialized),
        }
    }

    /// The transition `on_build_outcome` makes.
    pub open spec fn spec_on_build_outcome(self, o: BuildOutcome) -> (SessionManager, Result<
        InitProgress,
        BridgeError,
    >) {
        match self.init_state {
            InitState::Building { attempt } => match o {
                BuildOutcome::Restored { user_id } => (
                    SessionManager { init_state: InitState::Ready, user: Some(user_id), ..self },
                    Ok(InitProgress::Done),
                ),
                BuildOutcome::Fresh => (
                    SessionManager { init_state: InitState::Ready, ..self },
                    Ok(InitProgress::Done),
                ),
                BuildOutcome::DeviceMismatch => {
                    if attempt == 1 {
                        (
                            SessionManager { init_state: InitState::Building { attempt: 2 }, ..self },
                            Ok(InitProgress::ClearStoreAndRebuild),
                        )
                    } else {
                        (
                            SessionManager { init_state: InitState::Failed, ..self },
                            Err(BridgeError::StoreCorrupt),
                        )
                    }
                },
                BuildOutcome::Failure => {
                    if attempt == 1 {
                        (
                            SessionManager { init_state: InitState::Failed, ..self },
                            Err(BridgeError::ConnectFailed),
                        )
                    } else {
                        (
                            SessionManager { init_state: InitState::Failed, ..self },
                            Err(BridgeError::StoreCorrupt),
                        )
                    }
                },
            },
            InitState::Ready => (self, Err(BridgeError::AlreadyInitialized)),
            _ => (self, Err(BridgeError::NotInitialized)),
        }
    }

    /// Second step of `init`, with the outcome of one build attempt. A
    /// device mismatch on the first attempt asks the host to clear the
    /// store and rebuild; any failure after that is fatal. On success a
    /// restored identity is recorded for `login` to resume.
    pub fn on_build_outcome(&mut self, outcome: BuildOutcome) -> (r: Result<
        InitProgress,
        BridgeError,
    >)
        ensures
            (*final(self), r) == old(self).spec_on_build_outcome(outcome),
            old(self).wf() ==> final(self).wf(),
    {
        match self.init_state {
            InitState::Building { attempt } => match outcome {
                BuildOutcome::Restored { user_id } => {
                    self.init_state = InitState::Ready;
                    self.user = Some(user_id);
                    Ok(InitProgress::Done)
                },
                BuildOutcome::Fresh => {
                    self.init_state = InitState::Ready;
                    Ok(InitProgress::Done)
                },
                BuildOutcome::DeviceMismatch => {
                    if attempt == 1 {
                        self.init_state = InitState::Building { attempt: 2 };
                        Ok(InitProgress::ClearStoreAndRebuild)
                    } else {
                        self.init_state = InitState::Failed;
                        Err(BridgeError::StoreCorrupt)
                    }
                },
                BuildOutcome::Failure => {
                    self.init_state = InitState::Failed;
                    if attempt == 1 {
                        Err(BridgeError::ConnectFailed)
                    } else {
                        Err(BridgeError::StoreCorrupt)
                    }
                },
            },
            InitState::Ready => Err(BridgeError::AlreadyInitialized),
            _ => Err(BridgeError::NotInitialized),
        }
    }

    /// The decision `begin_login` takes: the restored identity if one
    /// exists, `None` when authentication is needed.
    pub open spec fn spec_login_decision(self) -> Result<Option<Seq<char>>, BridgeError> {
        if !(self.init_state is Ready) {
            Err(BridgeError::NotInitialized)
        } else {
            match self.user {
                Some(u) => Ok(Some(u@)),
                None => Ok(None),
            }
        }
    }

    /// First step of `login`. When the durable store already carried an
    /// identity, that session is resumed at once — with an empty credential
    /// token and without any authentication request; the credentials the
    /// host collected are never consulted. Otherwise the host must
    /// authenticate and report the outcome to `on_auth_outcome`.
    pub fn begin_login(&self) -> (r: Result<LoginStep, BridgeError>)
        ensures
            self.spec_login_decision() matches Err(e) ==> r == Err::<LoginStep, BridgeError>(e),
            self.spec_login_decision() matches Ok(Some(u)) ==> (r matches Ok(
                LoginStep::Resumed(lr),
            ) && lr.user_id@ == u && lr.access_token@ == Seq::<char>::empty()),
            self.spec_login_decision() matches Ok(None) ==> r == Ok::<LoginStep, BridgeError>(
                LoginStep::NeedAuth,
            ),
    {
        match self.init_state {
            InitState::Ready => match &self.user {
                Some(u) => Ok(
                    LoginStep::Resumed(
                        LoginResult { user_id: u.clone(), access_token: String::new() },
                    ),
                ),
                None => Ok(LoginStep::NeedAuth),
            },
            _ => Err(BridgeError::NotInitialized),
        }
    }

    /// Second step of `login`, with the authentication outcome the host
    /// observed. On success the identity is recorded, so that later `login`
    /// calls resume it; the credential token handed back is empty. A stale
    /// device identity is surfaced as the distinguished `DeviceMismatch`,
    /// which instructs the host to restart so `init` can clear the store.
    pub fn on_auth_outcome(&mut self, outcome: AuthOutcome) -> (r: Result<
        LoginResult,
        BridgeError,
    >)
        ensures
            !(old(self).init_state is Ready) ==> r == Err::<LoginResult, BridgeError>(
                BridgeError::NotInitialized,
            ) && *final(self) == *old(self),
            old(self).init_state is Ready ==> (match outcome {
                AuthOutcome::Accepted { user_id, device_id } => {
                    &&& r matches Ok(lr) && lr.user_id == user_id && lr.access_token@
                        == Seq::<char>::empty()
                    &&& *final(self) == (SessionManager {
                        user: Some(user_id),
                        device: Some(device_id),
                        ..*old(self)
                    })
                },
                AuthOutcome::RejectedDeviceMismatch => r == Err::<LoginResult, BridgeError>(
                    BridgeError::DeviceMismatch,
                ) && *final(self) == *old(self),
                AuthOutcome::Rejected => r == Err::<LoginResult, BridgeError>(
                    BridgeError::AuthFailed,
                ) && *final(self) == *old(self),
            }),
            old(self).wf() ==> final(self).wf(),
    {
        match self.init_state {
            InitState::Ready => match outcome {
                AuthOutcome::Accepted { user_id, device_id } => {
                    let lr = LoginResult { user_id: user_id.clone(), access_token: String::new() };
                    self.user = Some(user_id);
                    self.device = Some(device_id);
                    Ok(lr)
                },
                AuthOutcome::RejectedDeviceMismatch => Err(BridgeError::DeviceMismatch),
                AuthOutcome::Rejected => Err(BridgeError::AuthFailed),
            },
            _ => Err(BridgeError::NotInitialized),
        }
    }

    /// The authenticated identity shared read-only with the other
    /// components.
    pub fn current_user(&self) -> (r: &Option<String>)
        ensures
            r == &self.user,
    {
        &self.user
    }
}

/// Law: once `init` has left `Idle`, every later `init` call fails with
/// `AlreadyInitialized` — a lifecycle error — and changes nothing.
pub proof fn lemma_reinit_rejected(s: SessionManager, url_ok: bool)
    requires
        !(s.init_state is Idle),
    ensures
        s.spec_begin_init(url_ok).1 == Err::<(), BridgeError>(BridgeError::AlreadyInitialized),
        s.spec_begin_init(url_ok).0 == s,
        crate::errors::is_lifecycle_error(BridgeError::AlreadyInitialized),
{
}

/// Law: the manager never returns to `Idle`, so a started `init` keeps all
/// later `init` calls rejected, whatever outcome the host reports.
pub proof fn lemma_init_is_permanent(s: SessionManager, o: BuildOutcome)
    requires
        !(s.init_state is Idle),
    ensures
        !(s.spec_on_build_outcome(o).0.init_state is Idle),
{
}

/// Law: `init` on a fresh manager with a valid address, followed
/// immediately by a second `init`, fails the second call with
/// `AlreadyInitialized` — whether the first call's build attempt is still
/// pending or has succeeded or failed in any way.
pub proof fn lemma_second_init_rejected(s0: SessionManager, url2_ok: bool, o: BuildOutcome)
    requires
        s0.init_state is Idle,
    ensures
        ({
            let s1 = s0.spec_begin_init(true).0;
            let s2 = s1.spec_on_build_outcome(o).0;
            &&& s1.spec_begin_init(url2_ok).1 == Err::<(), BridgeError>(
                BridgeError::AlreadyInitialized,
            )
            &&& s2.spec_begin_init(url2_ok).1 == Err::<(), BridgeError>(
                BridgeError::AlreadyInitialized,
            )
        }),
{
}

/// Law: when the durable store carried a session for user `u`, the login
/// decision is to resume `u`. Credentials are not an input to the decision
/// at all, so no authentication request can depend on them.
pub proof fn lemma_restored_session_resumes(s: SessionManager, u: String)
    requires
        s.init_state is Ready,
        s.user == Some(u),
    ensures
        s.spec_login_decision() == Ok::<Option<Seq<char>>, BridgeError>(Some(u@)),
{
}

} // verus!
