//! Authentication: the state shown on screen, and the decisions of the
//! worker that checks passwords.

use vstd::prelude::*;
use crate::config::NLockConfig;

verus! {

/// What the lock screen shows of the last password check.
#[derive(Copy, Clone, Debug, PartialEq, Eq, Structural)]
pub enum AuthState {
    /// No check has been answered since the last submission.
    Idle,
    /// A check succeeded; the session is about to unlock.
    Success,
    /// The last check failed.
    Fail,
}

impl AuthState {
    /// The tag under which the state is stored in an atomic byte.
    pub open spec fn tag(self) -> u8 {
        match self {
            AuthState::Idle => 0,
            AuthState::Success => 1,
            AuthState::Fail => 2,
        }
    }

    /// The state that a tag stands for.
    pub open spec fn of_tag(tag: u8) -> Option<AuthState> {
        if tag == 0 {
            Some(AuthState::Idle)
        } else if tag == 1 {
            Some(AuthState::Success)
        } else if tag == 2 {
            Some(AuthState::Fail)
        } else {
            None
        }
    }

    /// The state's tag.
    pub fn to_tag(self) -> (t: u8)
        ensures
            t == self.tag(),
    {
        match self {
            AuthState::Idle => 0,
            AuthState::Success => 1,
            AuthState::Fail => 2,
        }
    }

    /// The state with the given tag, if there is one.
    pub fn from_tag(tag: u8) -> (s: Option<AuthState>)
        ensures
            s == AuthState::of_tag(tag),
    {
        if tag == 0 {
            Some(AuthState::Idle)
        } else if tag == 1 {
            Some(AuthState::Success)
        } else if tag == 2 {
            Some(AuthState::Fail)
        } else {
            None
        }
    }
}

/// Storing a state as its tag and reading the tag back gives the state.
pub proof fn lemma_tag_round_trip(state: AuthState)
    ensures
        AuthState::of_tag(state.tag()) == Some(state),
{
}

/// What the worker needs of the configuration.
#[derive(Copy, Clone, Debug, PartialEq, Eq, Structural)]
pub struct AuthConfig {
    pub allow_empty: bool,
}

impl AuthConfig {
    /// Takes the empty-password policy from the configuration.
    pub fn new(config: &NLockConfig) -> (r: AuthConfig)
        ensures
            r.allow_empty == config.general.pwd_allow_empty,
    {
        AuthConfig { allow_empty: config.general.pwd_allow_empty }
    }
}

/// What the lock screen asks of the worker.
pub enum AuthRequest {
    /// Check this password.
    Password(String),
    /// Stop.
    Exit,
}

/// How a submission ended for the lock screen.
#[derive(Copy, Clone, Debug, PartialEq, Eq, Structural)]
pub enum AuthOutcome {
    /// The credential service accepted the password.
    Granted,
    /// The credential service refused the password, or could not be asked.
    Denied,
    /// The worker gave no answer: it dropped the request or is gone.
    Lost,
}

/// The flag that goes with a credential check.
#[derive(Copy, Clone, Debug, PartialEq, Eq, Structural)]
pub enum AuthFlag {
    /// No flag: an account without a password passes with an empty one.
    Plain,
    /// A user without a password is refused.
    DisallowNullAuthTok,
}

/// What the worker does about a request.
pub enum AuthStep {
    /// Ask the credential service, then report with
    /// [`AuthWorker::handle_result`] and scrub the password.
    Check { password: String, flag: AuthFlag },
    /// Drop the request without a reply: a check has already succeeded.
    Skip,
    /// Leave the loop.
    Stop,
}

/// The worker that checks passwords, one request at a time.
#[derive(Copy, Clone, Debug, PartialEq, Eq, Structural)]
pub struct AuthWorker {
    /// Whether a check has succeeded.
    pub succeeded: bool,
}

/// Overwrites a password with zeros and empties it, through
/// `zeroize::Zeroize::zeroize` on `String`. Trusted: that the string is
/// empty afterwards.
#[verifier::external_body]
fn zeroize_string(password: &mut String)
    ensures
        final(password)@ == Seq::<char>::empty(),
{
    zeroize::Zeroize::zeroize(password)
}

/// Scrubs a password from memory and leaves it empty.
pub fn scrub_password(password: &mut String)
    ensures
        final(password)@ == Seq::<char>::empty(),
{
    zeroize_string(password);
}

impl AuthConfig {
    /// The flag for the credential check: an empty authentication token is
    /// disallowed unless the configuration allows empty passwords.
    pub fn flag(&self) -> (r: AuthFlag)
        ensures
            r == (if self.allow_empty {
                AuthFlag::Plain
            } else {
                AuthFlag::DisallowNullAuthTok
            }),
    {
        if self.allow_empty {
            AuthFlag::Plain
        } else {
            AuthFlag::DisallowNullAuthTok
        }
    }
}

/// The kind of step that a worker takes on a request.
#[derive(Copy, Clone, Debug, PartialEq, Eq, Structural)]
pub enum AuthStepKind {
    Stop,
    Skip,
    Check,
}

impl AuthStep {
    /// The kind of the step.
    pub open spec fn kind(self) -> AuthStepKind {
        match self {
            AuthStep::Stop => AuthStepKind::Stop,
            AuthStep::Skip => AuthStepKind::Skip,
            AuthStep::Check { .. } => AuthStepKind::Check,
        }
    }
}

impl AuthWorker {
    /// The kind of step that the worker takes on a request: it stops when
    /// told to, and checks a password unless a check has succeeded before.
    pub open spec fn step_kind(self, request: AuthRequest) -> AuthStepKind {
        match request {
            AuthRequest::Exit => AuthStepKind::Stop,
            AuthRequest::Password(_) => if self.succeeded {
                AuthStepKind::Skip
            } else {
                AuthStepKind::Check
            },
        }
    }

    /// The worker after the credential service has answered a check.
    pub open spec fn after_result(self, granted: bool) -> AuthWorker {
        AuthWorker { succeeded: self.succeeded || granted }
    }

    /// The worker after the credential service has answered a row of
    /// checks, the first answer first.
    pub open spec fn after_results(self, results: Seq<bool>) -> AuthWorker
        decreases results.len(),
    {
        if results.len() == 0 {
            self
        } else {
            self.after_result(results[0]).after_results(results.drop_first())
        }
    }

    /// A worker that has checked nothing yet.
    pub fn new() -> (r: AuthWorker)
        ensures
            !r.succeeded,
    {
        AuthWorker { succeeded: false }
    }

    /// Decides what to do about a request. The request to stop stops the
    /// worker. A password is checked with the configured flag, unless a
    /// check has already succeeded: then it is scrubbed and dropped.
    pub fn handle_request(&self, config: &AuthConfig, request: AuthRequest) -> (r: AuthStep)
        ensures
            r.kind() == self.step_kind(request),
            match request {
                AuthRequest::Exit => r is Stop,
                AuthRequest::Password(p) => if self.succeeded {
                    r is Skip
                } else {
                    r matches AuthStep::Check { password, flag } && password@ == p@ && flag == (
                    if config.allow_empty {
                        AuthFlag::Plain
                    } else {
                        AuthFlag::DisallowNullAuthTok
                    })
                },
            },
    {
        match request {
            AuthRequest::Exit => AuthStep::Stop,
            AuthRequest::Password(password) => {
                if self.succeeded {
                    let mut password = password;
                    scrub_password(&mut password);
                    AuthStep::Skip
                } else {
                    AuthStep::Check { password, flag: config.flag() }
                }
            },
        }
    }

    /// Takes note of what the credential service said and gives the
    /// reply to send. A success is remembered for good.
    pub fn handle_result(&mut self, granted: bool) -> (r: AuthOutcome)
        ensures
            r == (if granted {
                AuthOutcome::Granted
            } else {
                AuthOutcome::Denied
            }),
            *final(self) == old(self).after_result(granted),
    {
        if granted {
            self.succeeded = true;
            AuthOutcome::Granted
        } else {
            AuthOutcome::Denied
        }
    }
}

/// Once a check has succeeded the worker asks the credential service no
/// more: whatever answers are reported after the success, every later
/// password is dropped without a check.
pub proof fn lemma_no_check_after_success(worker: AuthWorker, results: Seq<bool>, request: AuthRequest)
    requires
        worker.succeeded,
        request is Password,
    ensures
        worker.after_results(results).succeeded,
        worker.after_results(results).step_kind(request) == AuthStepKind::Skip,
    decreases results.len(),
{
    if results.len() > 0 {
        lemma_no_check_after_success(worker.after_result(results[0]), results.drop_first(), request);
    }
}

/// The first success is remembered: a granted check makes the worker one
/// that has succeeded.
pub proof fn lemma_success_is_remembered(worker: AuthWorker)
    ensures
        worker.after_result(true).succeeded,
{
}

} // verus!
