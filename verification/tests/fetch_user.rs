use revolt_core::errors::{CodeLocation, Error, ErrorType};
use revolt_core::fetch_user::{fetch_step, FetchAction, FetchEvent, FetchStage};

fn request(user: &str, target: &str) -> FetchEvent {
    FetchEvent::Requested { user_id: user.to_string(), target_id: target.to_string() }
}

#[test]
fn asking_for_oneself_is_answered_at_once() {
    let (stage, action) = fetch_step(FetchStage::Start, request("01A", "01A"));
    assert_eq!(stage, FetchStage::Finished);
    assert!(matches!(action, FetchAction::RespondWithSelf));
}

#[test]
fn other_user_is_answered_after_lookup_and_access() {
    let (stage, action) = fetch_step(FetchStage::Start, request("01A", "01B"));
    assert_eq!(stage, FetchStage::LoadingTarget);
    assert!(matches!(action, FetchAction::LoadTarget));
    let (stage, action) = fetch_step(stage, FetchEvent::TargetLoaded(Ok(())));
    assert_eq!(stage, FetchStage::CheckingAccess);
    assert!(matches!(action, FetchAction::CheckAccess));
    let (stage, action) = fetch_step(stage, FetchEvent::AccessChecked(Ok(())));
    assert_eq!(stage, FetchStage::Finished);
    assert!(matches!(action, FetchAction::RespondWithTarget));
}

#[test]
fn unknown_target_fails_with_its_error() {
    let missing = Error::new(ErrorType::NotFound, &CodeLocation::new("r.rs", 4, 4));
    let (stage, action) = fetch_step(FetchStage::LoadingTarget, FetchEvent::TargetLoaded(Err(missing)));
    assert_eq!(stage, FetchStage::Finished);
    match action {
        FetchAction::Fail(e) => {
            assert!(matches!(e.error_type, ErrorType::NotFound));
            assert_eq!(e.location, "r.rs:4:4");
        }
        _ => panic!("expected a failure"),
    }
}

#[test]
fn denied_access_fails_with_its_error() {
    let denied = Error::new(
        ErrorType::MissingUserPermission { permission: "Access".to_string() },
        &CodeLocation::new("p.rs", 1, 1),
    );
    let (stage, action) = fetch_step(FetchStage::CheckingAccess, FetchEvent::AccessChecked(Err(denied)));
    assert_eq!(stage, FetchStage::Finished);
    assert!(matches!(
        action,
        FetchAction::Fail(Error { error_type: ErrorType::MissingUserPermission { .. }, .. })
    ));
}

#[test]
fn out_of_order_events_are_ignored() {
    let (stage, action) = fetch_step(FetchStage::Start, FetchEvent::AccessChecked(Ok(())));
    assert_eq!(stage, FetchStage::Start);
    assert!(matches!(action, FetchAction::Ignore));
    let (stage, action) = fetch_step(FetchStage::LoadingTarget, FetchEvent::AccessChecked(Ok(())));
    assert_eq!(stage, FetchStage::LoadingTarget);
    assert!(matches!(action, FetchAction::Ignore));
    let (stage, action) = fetch_step(FetchStage::Finished, request("01A", "01A"));
    assert_eq!(stage, FetchStage::Finished);
    assert!(matches!(action, FetchAction::Ignore));
}
