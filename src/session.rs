use vstd::prelude::*;

use crate::rows::SourceError;

verus! {

/// Authenticated-access state of one source.
pub enum Session {
    Unauthenticated,
    Authenticated { token: String },
}

/// What the owner of a session has to do next.
pub enum AuthStep {
    /// Log in and report the outcome through `Session::acquired`.
    Acquire,
    /// Probe the backend with this token and report through `Session::validated`.
    Validate { token: String },
    /// Go on with the sampling operation using this token.
    Proceed { token: String },
    /// Authentication failed for this tick: report sentinel readings.
    GiveUp,
}

/// Mathematical form of an `AuthStep`.
pub enum StepModel {
    Acquire,
    Validate(Seq<char>),
    Proceed(Seq<char>),
    GiveUp,
}

/// The backend calls one tick of authentication can make.
pub enum Call {
    Validate,
    Acquire,
}

/// What one tick of authentication amounts to: the backend calls made, the
/// session left behind, and the token handed to sampling (none on failure).
pub struct TickModel {
    pub calls: Seq<Call>,
    pub session: Option<Seq<char>>,
    pub token: Option<Seq<char>>,
}

impl View for Session {
    type V = Option<Seq<char>>;

    open spec fn view(&self) -> Option<Seq<char>> {
        match self {
            Session::Unauthenticated => None,
            Session::Authenticated { token } => Some(token@),
        }
    }
}

impl View for AuthStep {
    type V = StepModel;

    open spec fn view(&self) -> StepModel {
        match self {
            AuthStep::Acquire => StepModel::Acquire,
            AuthStep::Validate { token } => StepModel::Validate(token@),
            AuthStep::Proceed { token } => StepModel::Proceed(token@),
            AuthStep::GiveUp => StepModel::GiveUp,
        }
    }
}

/// First step of a tick: reuse-by-validation when a token is held, else log in.
pub open spec fn begin_model(s: Option<Seq<char>>) -> StepModel {
    match s {
        None => StepModel::Acquire,
        Some(t) => StepModel::Validate(t),
    }
}

/// Transition on a probe's answer: keep and proceed when it confirms the
/// token, else drop the token and log in again.
pub open spec fn validated_model(s: Option<Seq<char>>, valid: bool) -> (Option<Seq<char>>, StepModel) {
    match s {
        Some(t) => if valid {
            (Some(t), StepModel::Proceed(t))
        } else {
            (None, StepModel::Acquire)
        },
        None => (None, StepModel::Acquire),
    }
}

/// Transition on a login's outcome: a fresh token is kept and used; a failed
/// login leaves no session and gives up for this tick.
pub open spec fn acquired_model(outcome: Option<Seq<char>>) -> (Option<Seq<char>>, StepModel) {
    match outcome {
        Some(t) => (Some(t), StepModel::Proceed(t)),
        None => (None, StepModel::GiveUp),
    }
}

/// Runs the transitions from `step` on, with the backend answering every probe
/// with `valid` and every login with `acquired`.
pub open spec fn drive(
    s: Option<Seq<char>>,
    step: StepModel,
    valid: bool,
    acquired: Option<Seq<char>>,
    fuel: nat,
) -> TickModel
    decreases fuel,
{
    if fuel == 0 {
        TickModel { calls: seq![], session: s, token: None }
    } else {
        match step {
            StepModel::Acquire => {
                let (s2, next) = acquired_model(acquired);
                let rest = drive(s2, next, valid, acquired, (fuel - 1) as nat);
                TickModel { calls: seq![Call::Acquire] + rest.calls, ..rest }
            },
            StepModel::Validate(_) => {
                let (s2, next) = validated_model(s, valid);
                let rest = drive(s2, next, valid, acquired, (fuel - 1) as nat);
                TickModel { calls: seq![Call::Validate] + rest.calls, ..rest }
            },
            StepModel::Proceed(t) => TickModel { calls: seq![], session: s, token: Some(t) },
            StepModel::GiveUp => TickModel { calls: seq![], session: s, token: None },
        }
    }
}

/// One whole tick of authentication from session `s`.
pub open spec fn auth_tick(s: Option<Seq<char>>, valid: bool, acquired: Option<Seq<char>>) -> TickModel {
    drive(s, begin_model(s), valid, acquired, 3)
}

/// Number of login attempts among `calls`.
pub open spec fn acquire_count(calls: Seq<Call>) -> nat
    decreases calls.len(),
{
    if calls.len() == 0 {
        0
    } else {
        acquire_count(calls.drop_last()) + if calls.last() is Acquire {
            1nat
        } else {
            0nat
        }
    }
}

impl Session {
    /// A source starts without a session; it is created on first use.
    pub fn new() -> (r: Session)
        ensures
            r@ is None,
    {
        Session::Unauthenticated
    }

    /// Whether a token is held.
    pub fn is_authenticated(&self) -> (r: bool)
        ensures
            r == self@ is Some,
    {
        match self {
            Session::Unauthenticated => false,
            Session::Authenticated { .. } => true,
        }
    }

    /// Opens a tick: validate a held token, or log in when there is none.
    pub fn begin(&self) -> (r: AuthStep)
        ensures
            r@ == begin_model(self@),
    {
        match self {
            Session::Unauthenticated => AuthStep::Acquire,
            Session::Authenticated { token } => AuthStep::Validate { token: token.clone() },
        }
    }

    /// Takes the answer of a validation probe.
    pub fn validated(&mut self, valid: bool) -> (r: AuthStep)
        ensures
            (final(self)@, r@) == validated_model(old(self)@, valid),
    {
        match self {
            Session::Authenticated { token } => {
                if valid {
                    AuthStep::Proceed { token: token.clone() }
                } else {
                    *self = Session::Unauthenticated;
                    AuthStep::Acquire
                }
            },
            Session::Unauthenticated => AuthStep::Acquire,
        }
    }

    /// Takes the outcome of a login.
    pub fn acquired(&mut self, outcome: Result<String, SourceError>) -> (r: AuthStep)
        ensures
            (final(self)@, r@) == acquired_model(
                match outcome {
                    Ok(t) => Some(t@),
                    Err(_) => None,
                },
            ),
    {
        match outcome {
            Ok(token) => {
                let used = token.clone();
                *self = Session::Authenticated { token };
                AuthStep::Proceed { token: used }
            },
            Err(_) => {
                *self = Session::Unauthenticated;
                AuthStep::GiveUp
            },
        }
    }

    /// Takes the failure of a reading made within the session: an
    /// authentication failure means the token is no longer valid.
    pub fn reading_failed(&mut self, error: SourceError)
        ensures
            error == SourceError::Auth ==> final(self)@ is None,
            error != SourceError::Auth ==> final(self)@ == old(self)@,
    {
        if error == SourceError::Auth {
            *self = Session::Unauthenticated;
        }
    }

    /// Drops the token after the backend reported an authentication failure.
    pub fn invalidate(&mut self)
        ensures
            final(self)@ is None,
    {
        *self = Session::Unauthenticated;
    }
}

/// A held token that the probe confirms is reused: the tick validates once,
/// makes no login attempt, keeps the session and samples with the same token.
pub proof fn lemma_valid_session_is_reused(token: Seq<char>, acquired: Option<Seq<char>>)
    ensures
        auth_tick(Some(token), true, acquired).calls == seq![Call::Validate],
        acquire_count(auth_tick(Some(token), true, acquired).calls) == 0,
        auth_tick(Some(token), true, acquired).session == Some(token),
        auth_tick(Some(token), true, acquired).token == Some(token),
{
    reveal_with_fuel(drive, 3);
    reveal_with_fuel(acquire_count, 3);
    let calls = auth_tick(Some(token), true, acquired).calls;
    assert(calls =~= seq![Call::Validate]);
    assert(calls.drop_last() =~= seq![]);
}

/// A held token that the probe rejects leads to exactly one login attempt,
/// after the probe and before sampling. If that login fails the tick gives up
/// and leaves no session; if it succeeds the fresh token is kept and used.
pub proof fn lemma_invalid_session_reacquires_once(token: Seq<char>, acquired: Option<Seq<char>>)
    ensures
        auth_tick(Some(token), false, acquired).calls == seq![Call::Validate, Call::Acquire],
        acquire_count(auth_tick(Some(token), false, acquired).calls) == 1,
        auth_tick(Some(token), false, acquired).session == acquired,
        auth_tick(Some(token), false, acquired).token == acquired,
{
    reveal_with_fuel(drive, 3);
    reveal_with_fuel(acquire_count, 3);
    let calls = auth_tick(Some(token), false, acquired).calls;
    assert(calls =~= seq![Call::Validate, Call::Acquire]);
    assert(calls.drop_last() =~= seq![Call::Validate]);
    assert(calls.drop_last().drop_last() =~= seq![]);
}

/// Whatever the session and the backend's answers, a tick makes at most one
/// login attempt, and a tick that hands no token to sampling leaves no session.
pub proof fn lemma_tick_is_bounded(s: Option<Seq<char>>, valid: bool, acquired: Option<Seq<char>>)
    ensures
        acquire_count(auth_tick(s, valid, acquired).calls) <= 1,
        auth_tick(s, valid, acquired).token is None ==> auth_tick(s, valid, acquired).session is None,
        auth_tick(s, valid, acquired).token is Some ==> auth_tick(s, valid, acquired).session
            == auth_tick(s, valid, acquired).token,
{
    reveal_with_fuel(drive, 3);
    reveal_with_fuel(acquire_count, 3);
    match s {
        Some(t) => {
            if valid {
                lemma_valid_session_is_reused(t, acquired);
            } else {
                lemma_invalid_session_reacquires_once(t, acquired);
            }
        },
        None => {
            let calls = auth_tick(s, valid, acquired).calls;
            assert(calls =~= seq![Call::Acquire]);
            assert(calls.drop_last() =~= seq![]);
        },
    }
}

} // verus!
