use justaskrepo::error::AppError;
use justaskrepo::login::{first_login_step, login_next, LoginAction, LoginEvent, LoginStep};

fn step_after(event: LoginEvent) -> LoginStep {
    match login_next(event) {
        LoginAction::Perform(step) => step,
        other => panic!("expected a step after {event:?}, got {other:?}"),
    }
}

#[test]
fn a_state_we_never_issued_ends_the_sign_in_before_the_exchange() {
    assert_eq!(first_login_step(), LoginStep::RedeemState);
    assert!(matches!(
        login_next(LoginEvent::StateRedeemed { found: false }),
        LoginAction::Refuse(AppError::Unauthorized)
    ));
}

#[test]
fn a_found_state_leads_through_the_exchange_to_a_fresh_session() {
    assert_eq!(step_after(LoginEvent::StateRedeemed { found: true }), LoginStep::ExchangeCode);
    assert_eq!(step_after(LoginEvent::CodeExchanged), LoginStep::FetchProfile);
    assert_eq!(step_after(LoginEvent::ProfileFetched), LoginStep::RecordUser);
    assert_eq!(step_after(LoginEvent::UserRecorded), LoginStep::StartSession);
    assert!(matches!(login_next(LoginEvent::SessionStarted), LoginAction::Finish));
}
