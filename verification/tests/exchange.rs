use norisk_api::exchange::{Action, Event, Exchange, Operation, ReplyKind};
use norisk_api::model::ApiError;

fn request_error(a: &Action) -> Option<String> {
    match a {
        Action::Fail(ApiError::RequestError(m)) => Some(m.clone()),
        _ => None,
    }
}

fn parse_error(a: &Action) -> Option<String> {
    match a {
        Action::Fail(ApiError::ParseError(m)) => Some(m.clone()),
        _ => None,
    }
}

#[test]
fn server_id_success_path() {
    let mut ex = Exchange::new(Operation::RequestServerId);
    assert!(matches!(ex.step(Event::Responded(200)), Action::ReadJson));
    assert!(matches!(ex.step(Event::ServerIdDecoded("nrc-123".to_string())), Action::Deliver));
    assert!(ex.is_finished());
    assert!(matches!(ex.step(Event::Responded(200)), Action::Ignore));
}

#[test]
fn server_id_without_prefix_is_refused() {
    let mut ex = Exchange::new(Operation::RequestServerId);
    ex.step(Event::Responded(201));
    let a = ex.step(Event::ServerIdDecoded("abc-1".to_string()));
    assert_eq!(
        request_error(&a).as_deref(),
        Some("Invalid server ID received from Copper API: abc-1")
    );
    assert!(ex.is_finished());
}

#[test]
fn server_id_error_status_reads_body() {
    let mut ex = Exchange::new(Operation::RequestServerId);
    assert!(matches!(ex.step(Event::Responded(404)), Action::ReadErrorBody));
    let a = ex.step(Event::ErrorBodyRead(Some("nope".to_string())));
    assert_eq!(
        request_error(&a).as_deref(),
        Some("Copper API returned error status for server ID request: 404 Not Found, Body: nope")
    );
}

#[test]
fn unreadable_error_body_uses_placeholder() {
    let mut ex = Exchange::new(Operation::SubmitCrashLog);
    ex.step(Event::Responded(500));
    let a = ex.step(Event::ErrorBodyRead(None));
    assert_eq!(
        request_error(&a).as_deref(),
        Some("Copper API returned error status for crash log: 500 Internal Server Error, Body: Failed to read error body")
    );
}

#[test]
fn send_failures_carry_transport_text() {
    let cases = [
        (Operation::RequestServerId, "Failed to request server ID from Copper API: boom"),
        (Operation::PostWithParameters, "Failed to send request to Copper API: boom"),
        (Operation::GetWithParameters, "Failed to send GET request to Copper API: boom"),
        (Operation::DeleteText, "Failed to send DELETE request to Copper API: boom"),
        (Operation::RefreshTokenV3, "Failed to send v3 token refresh request to Copper API: boom"),
        (Operation::SubmitCrashLog, "Failed to send crash log to Copper API: boom"),
        (Operation::GetMcrealAppToken, "Failed to get mobile app token from Copper API: boom"),
        (Operation::ResetMcrealAppToken, "Failed to reset mobile app token from Copper API: boom"),
        (Operation::GetAdventCalendar, "Failed to send GET request to Copper API: boom"),
        (Operation::ClaimAdventCalendarDay, "Failed to claim advent calendar day: boom"),
        (Operation::ReportReferralCode, "Failed to report referral code: boom"),
        (Operation::GetReferralInfo, "Failed to fetch referral info: boom"),
    ];
    for (op, expected) in cases {
        let mut ex = Exchange::new(op);
        let a = ex.step(Event::SendFailed("boom".to_string()));
        assert_eq!(request_error(&a).as_deref(), Some(expected));
        assert!(ex.is_finished());
    }
}

#[test]
fn plain_calls_fail_on_status_without_body() {
    for op in [Operation::PostWithParameters, Operation::GetWithParameters, Operation::DeleteText] {
        assert!(!op.reads_error_body());
        let mut ex = Exchange::new(op);
        let a = ex.step(Event::Responded(401));
        assert_eq!(
            request_error(&a).as_deref(),
            Some("Copper API returned error status: 401 Unauthorized")
        );
    }
}

#[test]
fn json_call_success_and_parse_failure() {
    let mut ex = Exchange::new(Operation::GetWithParameters);
    assert!(matches!(ex.step(Event::Responded(299)), Action::ReadJson));
    assert!(matches!(ex.step(Event::ReplyDecoded), Action::Deliver));

    let mut ex = Exchange::new(Operation::RefreshTokenV3);
    ex.step(Event::Responded(200));
    let a = ex.step(Event::ReplyFailed("bad json".to_string()));
    assert_eq!(parse_error(&a).as_deref(), Some("Failed to parse Copper API v3 response: bad json"));

    let mut ex = Exchange::new(Operation::GetReferralInfo);
    ex.step(Event::Responded(200));
    let a = ex.step(Event::ReplyFailed("x".to_string()));
    assert_eq!(parse_error(&a).as_deref(), Some("Failed to parse referral info: x"));
}

#[test]
fn refresh_v3_error_status_message() {
    let mut ex = Exchange::new(Operation::RefreshTokenV3);
    ex.step(Event::Responded(403));
    let a = ex.step(Event::ErrorBodyRead(Some("denied".to_string())));
    assert_eq!(
        request_error(&a).as_deref(),
        Some("Copper API v3 returned error status: 403 Forbidden, Body: denied")
    );
}

#[test]
fn text_calls_deliver_text() {
    let mut ex = Exchange::new(Operation::GetMcrealAppToken);
    assert_eq!(Operation::GetMcrealAppToken.reply_kind(), ReplyKind::Text);
    assert!(matches!(ex.step(Event::Responded(200)), Action::ReadText));
    match ex.step(Event::ReplyText("token-xyz".to_string())) {
        Action::DeliverText(t) => assert_eq!(t, "token-xyz"),
        _ => panic!("expected the text"),
    }

    let mut ex = Exchange::new(Operation::ResetMcrealAppToken);
    ex.step(Event::Responded(200));
    let a = ex.step(Event::ReplyFailed("eof".to_string()));
    assert_eq!(
        parse_error(&a).as_deref(),
        Some("Failed to read Copper API mobile app token reset response: eof")
    );

    let mut ex = Exchange::new(Operation::DeleteText);
    ex.step(Event::Responded(204));
    let a = ex.step(Event::ReplyFailed("eof".to_string()));
    assert_eq!(parse_error(&a).as_deref(), Some("Failed to read Copper API response text: eof"));
}

#[test]
fn advent_calendar_decodes_text() {
    let mut ex = Exchange::new(Operation::GetAdventCalendar);
    assert!(matches!(ex.step(Event::Responded(200)), Action::ReadText));
    match ex.step(Event::ReplyText("[]".to_string())) {
        Action::DecodeText(t) => assert_eq!(t, "[]"),
        _ => panic!("expected a decode"),
    }
    assert!(matches!(ex.step(Event::ReplyDecoded), Action::Deliver));

    let mut ex = Exchange::new(Operation::ClaimAdventCalendarDay);
    ex.step(Event::Responded(200));
    ex.step(Event::ReplyText("oops".to_string()));
    let a = ex.step(Event::ReplyFailed("expected value".to_string()));
    assert_eq!(
        parse_error(&a).as_deref(),
        Some("Failed to parse Copper API advent calendar claim response: expected value. Response body: oops")
    );

    let mut ex = Exchange::new(Operation::GetAdventCalendar);
    ex.step(Event::Responded(200));
    ex.step(Event::ReplyText("{".to_string()));
    let a = ex.step(Event::ReplyFailed("eof".to_string()));
    assert_eq!(
        parse_error(&a).as_deref(),
        Some("Failed to parse Copper API response: eof. Response body: {")
    );
}

#[test]
fn unit_calls_deliver_on_success_status() {
    for op in [Operation::SubmitCrashLog, Operation::ReportReferralCode] {
        let mut ex = Exchange::new(op);
        assert!(matches!(ex.step(Event::Responded(200)), Action::Deliver));
        assert!(ex.is_finished());
    }
    let mut ex = Exchange::new(Operation::ReportReferralCode);
    ex.step(Event::Responded(400));
    let a = ex.step(Event::ErrorBodyRead(Some("bad code".to_string())));
    assert_eq!(
        request_error(&a).as_deref(),
        Some("Copper API returned error status for referral report: 400 Bad Request, Body: bad code")
    );
}

#[test]
fn unexpected_events_are_ignored() {
    let mut ex = Exchange::new(Operation::GetWithParameters);
    assert!(matches!(ex.step(Event::ReplyDecoded), Action::Ignore));
    assert!(!ex.is_finished());
    ex.step(Event::Responded(200));
    assert!(matches!(ex.step(Event::ServerIdDecoded("nrc-1".to_string())), Action::Ignore));
    assert!(matches!(ex.step(Event::ReplyText("t".to_string())), Action::Ignore));
    assert!(matches!(ex.step(Event::ReplyDecoded), Action::Deliver));
}

#[test]
fn other_error_messages() {
    let mut ex = Exchange::new(Operation::GetMcrealAppToken);
    ex.step(Event::Responded(502));
    let a = ex.step(Event::ErrorBodyRead(Some("gw".to_string())));
    assert_eq!(
        request_error(&a).as_deref(),
        Some("Copper API returned error status for mobile app token: 502 Bad Gateway, Body: gw")
    );
    let mut ex = Exchange::new(Operation::ClaimAdventCalendarDay);
    ex.step(Event::Responded(409));
    let a = ex.step(Event::ErrorBodyRead(None));
    assert_eq!(
        request_error(&a).as_deref(),
        Some("Copper API returned error status for advent calendar claim: 409 Conflict, Body: Failed to read error body")
    );
    let mut ex = Exchange::new(Operation::GetAdventCalendar);
    ex.step(Event::Responded(418));
    let a = ex.step(Event::ErrorBodyRead(Some("tea".to_string())));
    assert_eq!(
        request_error(&a).as_deref(),
        Some("Copper API returned error status: 418 I'm a teapot, Body: tea")
    );
    let mut ex = Exchange::new(Operation::GetReferralInfo);
    ex.step(Event::Responded(404));
    let a = ex.step(Event::ErrorBodyRead(Some("".to_string())));
    assert_eq!(
        request_error(&a).as_deref(),
        Some("Copper API returned error status for referral info: 404 Not Found, Body: ")
    );
    let mut ex = Exchange::new(Operation::ResetMcrealAppToken);
    ex.step(Event::Responded(500));
    let a = ex.step(Event::ErrorBodyRead(Some("x".to_string())));
    assert_eq!(
        request_error(&a).as_deref(),
        Some("Copper API returned error status for mobile app token reset: 500 Internal Server Error, Body: x")
    );
    let mut ex = Exchange::new(Operation::RequestServerId);
    ex.step(Event::Responded(200));
    let a = ex.step(Event::ReplyFailed("missing field".to_string()));
    assert_eq!(
        parse_error(&a).as_deref(),
        Some("Failed to parse Copper API server ID response: missing field")
    );
    let mut ex = Exchange::new(Operation::PostWithParameters);
    ex.step(Event::Responded(200));
    let a = ex.step(Event::ReplyFailed("m".to_string()));
    assert_eq!(parse_error(&a).as_deref(), Some("Failed to parse Copper API response: m"));
}
