use norisk_api::exchange::Operation;
use norisk_api::query::QueryParams;
use norisk_api::request::{Call, CopperApi, Method};

fn query_pairs(call: &Call) -> Vec<(String, String)> {
    let q = &call.request.query;
    let mut out = Vec::new();
    for i in 0..q.len() {
        let (k, v) = q.pair_at(i);
        out.push((k.clone(), v.clone()));
    }
    out
}

fn pairs(items: &[(&str, &str)]) -> Vec<(String, String)> {
    items.iter().map(|(k, v)| (k.to_string(), v.to_string())).collect()
}

#[test]
fn api_base_production_and_staging() {
    assert_eq!(CopperApi::get_api_base(false), "https://api.norisk.gg/api/v1");
    assert_eq!(CopperApi::get_api_base(true), "https://api-staging.norisk.gg/api/v1");
    let _api = CopperApi::new();
}

#[test]
fn endpoint_url_joins_with_slash() {
    assert_eq!(
        CopperApi::endpoint_url(false, "launcher/modpacks"),
        "https://api.norisk.gg/api/v1/launcher/modpacks"
    );
    assert_eq!(CopperApi::bearer_header("tok"), "Bearer tok");
}

#[test]
fn request_server_id_call_is_plain_post() {
    let call = CopperApi::request_server_id(true);
    assert_eq!(call.operation, Operation::RequestServerId);
    assert_eq!(call.request.method, Method::Post);
    assert_eq!(
        call.request.url,
        "https://api-staging.norisk.gg/api/v1/launcher/auth/request-server-id"
    );
    assert!(call.request.authorization.is_none());
    assert_eq!(call.request.query.len(), 0);
    assert!(call.request.json_body.is_none());
}

#[test]
fn post_with_parameters_merges_params_and_extra() {
    let mut extra = QueryParams::new();
    extra.insert("uuid", "u-1");
    extra.insert("params", "override");
    let call = CopperApi::post_from_norisk_endpoint_with_parameters(
        "some/endpoint",
        "tok",
        "base",
        Some(&extra),
        false,
    );
    assert_eq!(call.operation, Operation::PostWithParameters);
    assert_eq!(call.request.method, Method::Post);
    assert_eq!(call.request.url, "https://api.norisk.gg/api/v1/some/endpoint");
    assert_eq!(call.request.authorization.as_deref(), Some("Bearer tok"));
    assert_eq!(query_pairs(&call), pairs(&[("params", "override"), ("uuid", "u-1")]));
}

#[test]
fn post_with_empty_params_has_no_params_entry() {
    let call = CopperApi::post_from_norisk_endpoint_with_parameters("e", "t", "", None, false);
    assert_eq!(call.request.query.len(), 0);
    let call = CopperApi::post_from_norisk_endpoint_with_parameters("e", "t", "x", None, false);
    assert_eq!(query_pairs(&call), pairs(&[("params", "x")]));
}

#[test]
fn get_and_delete_with_parameters() {
    let mut extra = QueryParams::new();
    extra.insert("a", "1");
    let get = CopperApi::get_from_norisk_endpoint_with_parameters("x/y", "t", Some(&extra), false);
    assert_eq!(get.operation, Operation::GetWithParameters);
    assert_eq!(get.request.method, Method::Get);
    assert_eq!(query_pairs(&get), pairs(&[("a", "1")]));
    let del = CopperApi::delete_from_norisk_endpoint_text_with_parameters("x/y", "t", None, true);
    assert_eq!(del.operation, Operation::DeleteText);
    assert_eq!(del.request.method, Method::Delete);
    assert_eq!(del.request.url, "https://api-staging.norisk.gg/api/v1/x/y");
    assert_eq!(del.request.query.len(), 0);
}

#[test]
fn refresh_v3_carries_four_parameters() {
    let call = CopperApi::refresh_norisk_token_v3("hw-1", "Steve", "nrc-abc", true, false);
    assert_eq!(call.operation, Operation::RefreshTokenV3);
    assert_eq!(call.request.method, Method::Post);
    assert_eq!(call.request.url, "https://api.norisk.gg/api/v1/launcher/auth/validate/v2");
    assert!(call.request.authorization.is_none());
    assert_eq!(
        query_pairs(&call),
        pairs(&[("force", "true"), ("hwid", "hw-1"), ("username", "Steve"), ("server_id", "nrc-abc")])
    );
    let call = CopperApi::refresh_norisk_token_v3("h", "u", "s", false, false);
    assert_eq!(call.request.query.get("force").map(|s| s.as_str()), Some("false"));
}

#[test]
fn uuid_endpoints() {
    let call = CopperApi::request_from_norisk_endpoint("p/q", "t", "uu", false);
    assert_eq!(call.operation, Operation::PostWithParameters);
    assert_eq!(query_pairs(&call), pairs(&[("uuid", "uu")]));

    let call = CopperApi::get_from_norisk_endpoint("p/q", "t", None, false);
    assert_eq!(call.request.query.len(), 0);
    let call = CopperApi::get_from_norisk_endpoint("p/q", "t", Some("uu"), false);
    assert_eq!(query_pairs(&call), pairs(&[("uuid", "uu")]));

    let call = CopperApi::norisk_assets("pack-1", "t", "uu", false);
    assert_eq!(call.request.url, "https://api.norisk.gg/api/v1/launcher/pack/pack-1");
    assert_eq!(call.operation, Operation::GetWithParameters);

    let call = CopperApi::get_modpacks("t", true);
    assert_eq!(call.request.url, "https://api-staging.norisk.gg/api/v1/launcher/modpacks");
    assert_eq!(call.request.query.len(), 0);
    let call = CopperApi::get_standard_versions("t", false);
    assert_eq!(call.request.url, "https://api.norisk.gg/api/v1/launcher/versions");
}

#[test]
fn oauth_endpoints() {
    let c = CopperApi::discord_link_status("t", "uu", false);
    assert_eq!(c.request.url, "https://api.norisk.gg/api/v1/core/oauth/discord/check");
    assert_eq!(c.request.method, Method::Get);
    let c = CopperApi::unlink_discord("t", "uu", false);
    assert_eq!(c.request.url, "https://api.norisk.gg/api/v1/core/oauth/discord/unlink");
    assert_eq!(c.request.method, Method::Delete);
    assert_eq!(c.operation, Operation::DeleteText);
    assert_eq!(query_pairs(&c), pairs(&[("uuid", "uu")]));
    let c = CopperApi::github_link_status("t", "uu", false);
    assert_eq!(c.request.url, "https://api.norisk.gg/api/v1/core/oauth/github/check");
    let c = CopperApi::unlink_github("t", "uu", false);
    assert_eq!(c.request.url, "https://api.norisk.gg/api/v1/core/oauth/github/unlink");
}

#[test]
fn crash_log_and_mcreal_calls() {
    let c = CopperApi::submit_crash_log("t", "{\"mcLogsUrl\":\"x\"}", "uu", false);
    assert_eq!(c.operation, Operation::SubmitCrashLog);
    assert_eq!(c.request.url, "https://api.norisk.gg/api/v1/core/crashlog");
    assert_eq!(c.request.json_body.as_deref(), Some("{\"mcLogsUrl\":\"x\"}"));
    let c = CopperApi::get_mcreal_app_token("t", "uu", false);
    assert_eq!(c.request.method, Method::Get);
    assert_eq!(c.request.url, "https://api.norisk.gg/api/v1/mcreal/user/mobileAppToken");
    let c = CopperApi::reset_mcreal_app_token("t", "uu", false);
    assert_eq!(c.request.method, Method::Post);
    assert_eq!(c.request.url, "https://api.norisk.gg/api/v1/mcreal/user/mobileAppToken/reset");
}

#[test]
fn advent_calendar_calls() {
    let c = CopperApi::get_advent_calendar("t", "uu", false);
    assert_eq!(c.operation, Operation::GetAdventCalendar);
    assert_eq!(c.request.url, "https://api.norisk.gg/api/v1/core/advent/calendar");
    let c = CopperApi::claim_advent_calendar_day("t", 24, "uu", true);
    assert_eq!(c.operation, Operation::ClaimAdventCalendarDay);
    assert_eq!(c.request.method, Method::Post);
    assert_eq!(c.request.url, "https://api-staging.norisk.gg/api/v1/core/advent/claim/24");
    let c = CopperApi::claim_advent_calendar_day("t", 0, "uu", false);
    assert_eq!(c.request.url, "https://api.norisk.gg/api/v1/core/advent/claim/0");
}

#[test]
fn referral_calls() {
    let id = [
        0x67, 0xe5, 0x50, 0x44, 0x10, 0xb1, 0x42, 0x6f, 0x92, 0x47, 0xbb, 0x68, 0x0e, 0x5f, 0xe0, 0xc8,
    ];
    let c = CopperApi::report_referral_code("t", "FRIEND\"1\\\n", id, false);
    assert_eq!(c.operation, Operation::ReportReferralCode);
    assert_eq!(c.request.url, "https://api.norisk.gg/api/v1/launcher/referral/report");
    assert_eq!(query_pairs(&c), pairs(&[("uuid", "67e55044-10b1-426f-9247-bb680e5fe0c8")]));
    assert_eq!(c.request.json_body.as_deref(), Some("{\"code\":\"FRIEND\\\"1\\\\\\n\"}"));
    let c = CopperApi::report_referral_code("t", "a\u{1}b", [0; 16], false);
    assert_eq!(c.request.json_body.as_deref(), Some("{\"code\":\"a\\u0001b\"}"));
    assert_eq!(query_pairs(&c), pairs(&[("uuid", "00000000-0000-0000-0000-000000000000")]));

    let c = CopperApi::get_referral_info("CODE", false);
    assert_eq!(c.operation, Operation::GetReferralInfo);
    assert_eq!(c.request.method, Method::Get);
    assert!(c.request.authorization.is_none());
    assert_eq!(query_pairs(&c), pairs(&[("code", "CODE")]));
}
