use norisk_api::exchange::{Action, Event, Exchange, Operation};
use norisk_api::model::ApiError;
use norisk_api::refresh::{RefreshAction, RefreshEvent, TokenRefresh};
use norisk_api::request::Method;

fn query_pairs(call: &norisk_api::request::Call) -> Vec<(String, String)> {
    let q = &call.request.query;
    (0..q.len())
        .map(|i| {
            let (k, v) = q.pair_at(i);
            (k.clone(), v.clone())
        })
        .collect()
}

fn start() -> TokenRefresh {
    let (refresh, first) = TokenRefresh::start("hw1", "Steve", "tok", "prof", false, false);
    assert_eq!(first.operation, Operation::RequestServerId);
    assert_eq!(first.request.method, Method::Post);
    assert_eq!(
        first.request.url,
        "https://api.norisk.gg/api/v1/launcher/auth/request-server-id"
    );
    assert!(!refresh.is_finished());
    refresh
}

#[test]
fn refresh_joins_then_validates_with_issued_id() {
    let mut refresh = start();
    match refresh.step(RefreshEvent::ServerIdIssued("nrc-42".to_string())) {
        RefreshAction::Join { access_token, selected_profile, server_id } => {
            assert_eq!(access_token, "tok");
            assert_eq!(selected_profile, "prof");
            assert_eq!(server_id, "nrc-42");
        }
        _ => panic!("expected a join"),
    }
    let call = match refresh.step(RefreshEvent::SessionJoined) {
        RefreshAction::SendValidation(call) => call,
        _ => panic!("expected the validation"),
    };
    assert_eq!(call.operation, Operation::RefreshTokenV3);
    assert_eq!(call.request.method, Method::Post);
    assert_eq!(call.request.url, "https://api.norisk.gg/api/v1/launcher/auth/validate/v2");
    assert!(call.request.authorization.is_none());
    let expected: Vec<(String, String)> = [
        ("force", "false"),
        ("hwid", "hw1"),
        ("username", "Steve"),
        ("server_id", "nrc-42"),
    ]
    .iter()
    .map(|(k, v)| (k.to_string(), v.to_string()))
    .collect();
    assert_eq!(query_pairs(&call), expected);

    // The validation answers 403 with the body "denied".
    let mut ex = Exchange::new(call.operation);
    ex.step(Event::Responded(403));
    let err = match ex.step(Event::ErrorBodyRead(Some("denied".to_string()))) {
        Action::Fail(e) => e,
        _ => panic!("expected a failure"),
    };
    match refresh.step(RefreshEvent::ValidationFailed(err)) {
        RefreshAction::Fail(ApiError::RequestError(m)) => {
            assert_eq!(m, "Copper API v3 returned error status: 403 Forbidden, Body: denied")
        }
        _ => panic!("expected the validation's error"),
    }
    assert!(refresh.is_finished());
}

#[test]
fn refresh_succeeds_after_validation() {
    let mut refresh = start();
    refresh.step(RefreshEvent::ServerIdIssued("nrc-1".to_string()));
    refresh.step(RefreshEvent::SessionJoined);
    assert!(matches!(refresh.step(RefreshEvent::Validated), RefreshAction::Deliver));
    assert!(refresh.is_finished());
    assert!(matches!(refresh.step(RefreshEvent::SessionJoined), RefreshAction::Ignore));
}

#[test]
fn refresh_stops_on_failed_server_id() {
    let mut refresh = start();
    let a = refresh.step(RefreshEvent::ServerIdFailed(ApiError::RequestError("down".to_string())));
    assert!(matches!(a, RefreshAction::Fail(ApiError::RequestError(ref m)) if m == "down"));
    assert!(refresh.is_finished());
    assert!(matches!(
        refresh.step(RefreshEvent::ServerIdIssued("nrc-2".to_string())),
        RefreshAction::Ignore
    ));
    assert!(matches!(refresh.step(RefreshEvent::SessionJoined), RefreshAction::Ignore));
}

#[test]
fn refresh_stops_on_failed_join() {
    let mut refresh = start();
    refresh.step(RefreshEvent::ServerIdIssued("nrc-3".to_string()));
    let a = refresh.step(RefreshEvent::JoinFailed(ApiError::RequestError("no session".to_string())));
    assert!(matches!(a, RefreshAction::Fail(ApiError::RequestError(ref m)) if m == "no session"));
    assert!(matches!(refresh.step(RefreshEvent::SessionJoined), RefreshAction::Ignore));
    assert!(matches!(refresh.step(RefreshEvent::Validated), RefreshAction::Ignore));
}

#[test]
fn refresh_refuses_foreign_server_id() {
    let mut refresh = start();
    let a = refresh.step(RefreshEvent::ServerIdIssued("evil-1".to_string()));
    assert!(matches!(
        a,
        RefreshAction::Fail(ApiError::RequestError(ref m))
            if m == "Invalid server ID received from Copper API: evil-1"
    ));
    assert!(refresh.is_finished());
}

#[test]
fn refresh_ignores_out_of_order_events() {
    let mut refresh = start();
    assert!(matches!(refresh.step(RefreshEvent::SessionJoined), RefreshAction::Ignore));
    assert!(matches!(refresh.step(RefreshEvent::Validated), RefreshAction::Ignore));
    assert!(matches!(
        refresh.step(RefreshEvent::ServerIdIssued("nrc-9".to_string())),
        RefreshAction::Join { .. }
    ));
    assert!(matches!(
        refresh.step(RefreshEvent::ServerIdIssued("nrc-10".to_string())),
        RefreshAction::Ignore
    ));
}
