use norisk_api::model::{
    AdventCalendarDayStatus, ApiError, CrashlogDto, ReferralInfo, ServerIdResponse,
    ShopItemRewardType,
};
use norisk_api::query::QueryParams;
use norisk_api::status::{status_display, status_is_success};
use norisk_api::text::{decimal_string, has_prefix};

#[test]
fn decimal_rendering() {
    assert_eq!(decimal_string(0), "0");
    assert_eq!(decimal_string(7), "7");
    assert_eq!(decimal_string(10), "10");
    assert_eq!(decimal_string(4294967295), "4294967295");
    assert_eq!(decimal_string(u64::MAX), u64::MAX.to_string());
}

#[test]
fn prefix_test() {
    assert!(has_prefix("nrc-abc", "nrc-"));
    assert!(has_prefix("nrc-", "nrc-"));
    assert!(!has_prefix("nrc", "nrc-"));
    assert!(!has_prefix("xnrc-", "nrc-"));
    assert!(has_prefix("é", ""));
}

#[test]
fn status_classes_and_text() {
    assert!(!status_is_success(199));
    assert!(status_is_success(200));
    assert!(status_is_success(299));
    assert!(!status_is_success(300));
    assert_eq!(status_display(200), "200 OK");
    assert_eq!(status_display(404), "404 Not Found");
    assert_eq!(status_display(599), "599 <unknown status code>");
    assert_eq!(status_display(42), "42 <unknown status code>");
}

#[test]
fn query_params_insert_replaces_in_place() {
    let mut q = QueryParams::new();
    assert_eq!(q.len(), 0);
    q.insert("a", "1");
    q.insert("b", "2");
    q.insert("a", "3");
    assert_eq!(q.len(), 2);
    assert_eq!(q.get("a").map(|s| s.as_str()), Some("3"));
    assert_eq!(q.get("b").map(|s| s.as_str()), Some("2"));
    assert!(q.get("c").is_none());
    let (k, v) = q.pair_at(0);
    assert_eq!((k.as_str(), v.as_str()), ("a", "3"));
}

#[test]
fn query_params_merge_later_wins() {
    let mut a = QueryParams::new();
    a.insert("x", "1");
    a.insert("y", "2");
    let mut b = QueryParams::new();
    b.insert("y", "20");
    b.insert("z", "30");
    a.merge(&b);
    assert_eq!(a.len(), 3);
    assert_eq!(a.get("x").map(|s| s.as_str()), Some("1"));
    assert_eq!(a.get("y").map(|s| s.as_str()), Some("20"));
    assert_eq!(a.get("z").map(|s| s.as_str()), Some("30"));
    let c = a.copy();
    assert_eq!(c.len(), 3);
    assert_eq!(c.get("y").map(|s| s.as_str()), Some("20"));
}

#[test]
fn model_values() {
    let e = ApiError::ParseError("bad".to_string());
    assert!(matches!(e, ApiError::ParseError(ref m) if m == "bad"));
    let s = ServerIdResponse { server_id: "nrc-1".to_string(), expires_in: 30 };
    assert_eq!(s.clone().expires_in, 30);
    let r = ReferralInfo {
        referrer_name: "n".to_string(),
        referrer_avatar: None,
        valid: true,
        referral_type: Some("friend".to_string()),
        translation_key: None,
        fallback_message: None,
        custom_message: None,
        reward_text: None,
    };
    assert!(r.valid);
    assert_ne!(AdventCalendarDayStatus::Locked, AdventCalendarDayStatus::Claimed);
    assert_eq!(ShopItemRewardType::Emote, ShopItemRewardType::Emote);
    let c: CrashlogDto<u32> = CrashlogDto { mc_logs_url: "u".to_string(), metadata: Some(3) };
    assert_eq!(c.metadata, Some(3));
}
