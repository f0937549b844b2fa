//! The order of a GitHub sign-in's steps.
//!
//! The callback's `state` is redeemed first, and nothing else happens for
//! a state that was never issued or was already used: no code exchange, no
//! profile fetch, no write. The session id is drawn only at the last step,
//! after the exchange succeeded, so it is never one the browser brought
//! (the session-fixation defence). Each step is performed by the caller,
//! which reports its outcome here; a failing step ends the sign-in with its
//! own error.
use vstd::prelude::*;

use crate::error::AppError;
use crate::oauth::state_verdict;

verus! {

/// A step of the sign-in, performed by the caller.
#[derive(Clone, Copy, Debug, PartialEq, Eq, Structural)]
pub enum LoginStep {
    /// Redeem the callback's `state` (`GETDEL` of its key).
    RedeemState,
    /// Exchange the callback's code for a user access token.
    ExchangeCode,
    /// Fetch the signed-in user's profile with that token.
    FetchProfile,
    /// Insert or update the user.
    RecordUser,
    /// Draw a fresh session id, and store a new session under it.
    StartSession,
}

/// What a step turned out to be.
#[derive(Clone, Copy, Debug, PartialEq, Eq, Structural)]
pub enum LoginEvent {
    /// The `state` was redeemed: `found` when it had been issued and not
    /// used.
    StateRedeemed { found: bool },
    CodeExchanged,
    ProfileFetched,
    UserRecorded,
    SessionStarted,
}

/// What comes next.
#[derive(Debug)]
pub enum LoginAction {
    Perform(LoginStep),
    Refuse(AppError),
    Finish,
}

/// The first step of every sign-in.
pub fn first_login_step() -> (step: LoginStep)
    ensures
        step == LoginStep::RedeemState,
{
    LoginStep::RedeemState
}

/// The step that follows each outcome.
pub open spec fn spec_next_step(event: LoginEvent) -> Option<LoginStep> {
    match event {
        LoginEvent::StateRedeemed { found } => if found {
            Some(LoginStep::ExchangeCode)
        } else {
            None
        },
        LoginEvent::CodeExchanged => Some(LoginStep::FetchProfile),
        LoginEvent::ProfileFetched => Some(LoginStep::RecordUser),
        LoginEvent::UserRecorded => Some(LoginStep::StartSession),
        LoginEvent::SessionStarted => None,
    }
}

/// The next action after `event`: an unknown or reused `state` is refused
/// as `Unauthorized`; a started session finishes the sign-in; every other
/// outcome leads to the next step.
pub fn login_next(event: LoginEvent) -> (action: LoginAction)
    ensures
        event == (LoginEvent::StateRedeemed { found: false }) ==> action matches LoginAction::Refuse(
            AppError::Unauthorized,
        ),
        event is SessionStarted ==> action is Finish,
        spec_next_step(event) matches Some(step) ==> action == LoginAction::Perform(step),
{
    match event {
        LoginEvent::StateRedeemed { found } => match state_verdict(found) {
            Ok(()) => LoginAction::Perform(LoginStep::ExchangeCode),
            Err(e) => LoginAction::Refuse(e),
        },
        LoginEvent::CodeExchanged => LoginAction::Perform(LoginStep::FetchProfile),
        LoginEvent::ProfileFetched => LoginAction::Perform(LoginStep::RecordUser),
        LoginEvent::UserRecorded => LoginAction::Perform(LoginStep::StartSession),
        LoginEvent::SessionStarted => LoginAction::Finish,
    }
}

/// The steps a sign-in performs, in order, after redeeming its `state`.
pub open spec fn steps_after(event: LoginEvent, fuel: nat) -> Seq<LoginStep>
    decreases fuel,
{
    if fuel == 0 {
        Seq::empty()
    } else {
        match spec_next_step(event) {
            Some(step) => seq![step] + steps_after(completed(step), (fuel - 1) as nat),
            None => Seq::empty(),
        }
    }
}

/// The outcome of a step that succeeded.
pub open spec fn completed(step: LoginStep) -> LoginEvent {
    match step {
        LoginStep::RedeemState => LoginEvent::StateRedeemed { found: true },
        LoginStep::ExchangeCode => LoginEvent::CodeExchanged,
        LoginStep::FetchProfile => LoginEvent::ProfileFetched,
        LoginStep::RecordUser => LoginEvent::UserRecorded,
        LoginStep::StartSession => LoginEvent::SessionStarted,
    }
}

/// The order of a sign-in: a state that was not found ends it before any
/// other step; a found one leads through the exchange, the profile and the
/// user to the session, which is started last, and then the sign-in is
/// done.
pub proof fn lemma_login_order(fuel: nat)
    requires
        fuel >= 5,
    ensures
        steps_after(LoginEvent::StateRedeemed { found: false }, fuel) == Seq::<LoginStep>::empty(),
        steps_after(LoginEvent::StateRedeemed { found: true }, fuel) == seq![
            LoginStep::ExchangeCode,
            LoginStep::FetchProfile,
            LoginStep::RecordUser,
            LoginStep::StartSession,
        ],
{
    reveal_with_fuel(steps_after, 6);
    assert(steps_after(LoginEvent::SessionStarted, (fuel - 4) as nat) == Seq::<LoginStep>::empty());
    assert(steps_after(LoginEvent::UserRecorded, (fuel - 3) as nat) == seq![LoginStep::StartSession]);
    assert(steps_after(LoginEvent::ProfileFetched, (fuel - 2) as nat) == seq![
        LoginStep::RecordUser,
        LoginStep::StartSession,
    ]);
    assert(steps_after(LoginEvent::CodeExchanged, (fuel - 1) as nat) == seq![
        LoginStep::FetchProfile,
        LoginStep::RecordUser,
        LoginStep::StartSession,
    ]);
}

} // verus!
