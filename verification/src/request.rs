use vstd::prelude::*;

use crate::encode::{json_string, json_string_literal, uuid_text, uuid_to_string};
use crate::exchange::Operation;
use crate::query::{has_key, insert_all, keys_unique, lemma_insert_all_empty, pairs_to_map, PairView, QueryParams};
use crate::text::{decimal, decimal_string};

verus! {

/// The HTTP method of a request.
#[derive(Debug, Clone, Copy, PartialEq, Eq, Structural)]
pub enum Method {
    Get,
    Post,
    Delete,
}

/// A request to the Copper API, ready to be sent: method, full URL, the
/// value of the `Authorization` header if there is one, the query
/// parameters and the JSON body if there is one.
pub struct HttpRequest {
    pub method: Method,
    pub url: String,
    pub authorization: Option<String>,
    pub query: QueryParams,
    pub json_body: Option<String>,
}

/// A request as plain values.
pub struct RequestView {
    pub method: Method,
    pub url: Seq<char>,
    pub authorization: Option<Seq<char>>,
    pub query: Seq<PairView>,
    pub json_body: Option<Seq<char>>,
}

/// The text of an optional string.
pub open spec fn opt_view(o: Option<String>) -> Option<Seq<char>> {
    match o {
        Some(s) => Some(s@),
        None => None,
    }
}

impl View for HttpRequest {
    type V = RequestView;

    open spec fn view(&self) -> RequestView {
        RequestView {
            method: self.method,
            url: self.url@,
            authorization: opt_view(self.authorization),
            query: self.query@,
            json_body: opt_view(self.json_body),
        }
    }
}

/// A call of the Copper API: the request to send and the operation that
/// decides what its reply means.
pub struct Call {
    pub operation: Operation,
    pub request: HttpRequest,
}

/// A call as plain values.
pub struct CallView {
    pub operation: Operation,
    pub request: RequestView,
}

impl View for Call {
    type V = CallView;

    open spec fn view(&self) -> CallView {
        CallView { operation: self.operation, request: self.request@ }
    }
}

/// The API with which the Copper backend is reached.
pub struct CopperApi;

/// The base URL of the API: the staging server in experimental mode, the
/// production server otherwise.
pub open spec fn api_base(is_experimental: bool) -> Seq<char> {
    if is_experimental {
        "https://api-staging.norisk.gg/api/v1"@
    } else {
        "https://api.norisk.gg/api/v1"@
    }
}

/// The URL of an endpoint: the base URL, a slash and the endpoint's path.
pub open spec fn api_url(is_experimental: bool, endpoint: Seq<char>) -> Seq<char> {
    api_base(is_experimental) + "/"@ + endpoint
}

/// The `Authorization` header that carries a token.
pub open spec fn bearer(token: Seq<char>) -> Seq<char> {
    "Bearer "@ + token
}

/// The text of a boolean, as `to_string` gives it.
pub open spec fn bool_text(b: bool) -> Seq<char> {
    if b {
        "true"@
    } else {
        "false"@
    }
}

/// The parameters that a POST with parameters starts from: `params` under
/// the name "params", unless it is empty.
pub open spec fn base_params(params: Seq<char>) -> Seq<PairView> {
    if params.len() == 0 {
        Seq::empty()
    } else {
        seq![("params"@, params)]
    }
}

/// The parameters of an optional set of parameters: none where it is absent.
pub open spec fn opt_params(extra: Option<Seq<PairView>>) -> Seq<PairView> {
    match extra {
        Some(e) => e,
        None => Seq::empty(),
    }
}

/// A request as plain values.
pub open spec fn request_view(
    method: Method,
    url: Seq<char>,
    authorization: Option<Seq<char>>,
    query: Seq<PairView>,
    json_body: Option<Seq<char>>,
) -> RequestView {
    RequestView { method, url, authorization, query, json_body }
}

/// The JSON body that reports a referral code.
pub open spec fn referral_body(code: Seq<char>) -> Seq<char> {
    "{\"code\":"@ + json_string_literal(code) + "}"@
}

fn params_of(extra: Option<&QueryParams>) -> (r: QueryParams)
    ensures
        r@ == opt_params(
            match extra {
                Some(e) => Some(e@),
                None => None,
            },
        ),
{
    match extra {
        Some(e) => e.copy(),
        None => QueryParams::new(),
    }
}

fn uuid_params(request_uuid: &str) -> (r: QueryParams)
    ensures
        r@ == seq![("uuid"@, request_uuid@)],
{
    let mut q = QueryParams::new();
    q.insert("uuid", request_uuid);
    assert(q@ =~= seq![("uuid"@, request_uuid@)]);
    q
}

fn bool_string(b: bool) -> (r: String)
    ensures
        r@ == bool_text(b),
{
    if b {
        String::from_str("true")
    } else {
        String::from_str("false")
    }
}

impl CopperApi {
    /// The API handle.
    pub fn new() -> (r: CopperApi) {
        CopperApi
    }

    /// The base URL of the API: staging in experimental mode, production
    /// otherwise.
    pub fn get_api_base(is_experimental: bool) -> (r: String)
        ensures
            r@ == api_base(is_experimental),
    {
        if is_experimental {
            String::from_str("https://api-staging.norisk.gg/api/v1")
        } else {
            String::from_str("https://api.norisk.gg/api/v1")
        }
    }

    /// The URL of an endpoint of the API.
    pub fn endpoint_url(is_experimental: bool, endpoint: &str) -> (r: String)
        ensures
            r@ == api_url(is_experimental, endpoint@),
    {
        let mut url = Self::get_api_base(is_experimental);
        url.append("/");
        url.append(endpoint);
        url
    }

    /// The `Authorization` header value for a token.
    pub fn bearer_header(norisk_token: &str) -> (r: String)
        ensures
            r@ == bearer(norisk_token@),
    {
        let mut h = String::from_str("Bearer ");
        h.append(norisk_token);
        h
    }
}


/// The parameters that carry an optional request UUID.
pub open spec fn uuid_param(request_uuid: Option<Seq<char>>) -> Seq<PairView> {
    match request_uuid {
        Some(u) => seq![("uuid"@, u)],
        None => Seq::empty(),
    }
}

/// The parameters of the v3 token refresh.
pub open spec fn refresh_params(
    system_id: Seq<char>,
    username: Seq<char>,
    server_id: Seq<char>,
    force: bool,
) -> Seq<PairView> {
    seq![
        ("force"@, bool_text(force)),
        ("hwid"@, system_id),
        ("username"@, username),
        ("server_id"@, server_id),
    ]
}

impl CopperApi {
    /// Requests a new server ID from the Copper API for secure
    /// authentication: a POST to `launcher/auth/request-server-id`.
    pub fn request_server_id(is_experimental: bool) -> (r: Call)
        ensures
            r.operation == Operation::RequestServerId,
            r.request@ == request_view(
                Method::Post,
                api_url(is_experimental, "launcher/auth/request-server-id"@),
                None,
                Seq::empty(),
                None,
            ),
    {
        let url = Self::endpoint_url(is_experimental, "launcher/auth/request-server-id");
        Call {
            operation: Operation::RequestServerId,
            request: HttpRequest {
                method: Method::Post,
                url,
                authorization: None,
                query: QueryParams::new(),
                json_body: None,
            },
        }
    }

    /// A POST to an endpoint with the token as bearer: `params` under the
    /// name "params" unless it is empty, then each extra parameter, a later
    /// one replacing an earlier one of the same name.
    pub fn post_from_norisk_endpoint_with_parameters(
        endpoint: &str,
        norisk_token: &str,
        params: &str,
        extra_params: Option<&QueryParams>,
        is_experimental: bool,
    ) -> (r: Call)
        ensures
            r.operation == Operation::PostWithParameters,
            r.request@ == request_view(
                Method::Post,
                api_url(is_experimental, endpoint@),
                Some(bearer(norisk_token@)),
                insert_all(
                    base_params(params@),
                    opt_params(
                        match extra_params {
                            Some(e) => Some(e@),
                            None => None,
                        },
                    ),
                ),
                None,
            ),
            pairs_to_map(r.request@.query) == pairs_to_map(base_params(params@)).union_prefer_right(
                pairs_to_map(
                    opt_params(
                        match extra_params {
                            Some(e) => Some(e@),
                            None => None,
                        },
                    ),
                ),
            ),
            keys_unique(r.request@.query),
    {
        let url = Self::endpoint_url(is_experimental, endpoint);
        let mut query = QueryParams::new();
        if !params.is_empty() {
            query.insert("params", params);
            assert(query@ =~= base_params(params@));
        } else {
            assert(query@ =~= base_params(params@));
        }
        let extra = params_of(extra_params);
        query.merge(&extra);
        Call {
            operation: Operation::PostWithParameters,
            request: HttpRequest {
                method: Method::Post,
                url,
                authorization: Some(Self::bearer_header(norisk_token)),
                query,
                json_body: None,
            },
        }
    }

    /// A GET from an endpoint with the token as bearer and the extra
    /// parameters, if any.
    pub fn get_from_norisk_endpoint_with_parameters(
        endpoint: &str,
        norisk_token: &str,
        extra_params: Option<&QueryParams>,
        is_experimental: bool,
    ) -> (r: Call)
        ensures
            r.operation == Operation::GetWithParameters,
            r.request@ == request_view(
                Method::Get,
                api_url(is_experimental, endpoint@),
                Some(bearer(norisk_token@)),
                opt_params(
                    match extra_params {
                        Some(e) => Some(e@),
                        None => None,
                    },
                ),
                None,
            ),
    {
        let url = Self::endpoint_url(is_experimental, endpoint);
        Call {
            operation: Operation::GetWithParameters,
            request: HttpRequest {
                method: Method::Get,
                url,
                authorization: Some(Self::bearer_header(norisk_token)),
                query: params_of(extra_params),
                json_body: None,
            },
        }
    }

    /// A DELETE on an endpoint with the token as bearer and the extra
    /// parameters, if any; its reply is read as text.
    pub fn delete_from_norisk_endpoint_text_with_parameters(
        endpoint: &str,
        norisk_token: &str,
        extra_params: Option<&QueryParams>,
        is_experimental: bool,
    ) -> (r: Call)
        ensures
            r.operation == Operation::DeleteText,
            r.request@ == request_view(
                Method::Delete,
                api_url(is_experimental, endpoint@),
                Some(bearer(norisk_token@)),
                opt_params(
                    match extra_params {
                        Some(e) => Some(e@),
                        None => None,
                    },
                ),
                None,
            ),
    {
        let url = Self::endpoint_url(is_experimental, endpoint);
        Call {
            operation: Operation::DeleteText,
            request: HttpRequest {
                method: Method::Delete,
                url,
                authorization: Some(Self::bearer_header(norisk_token)),
                query: params_of(extra_params),
                json_body: None,
            },
        }
    }

    /// The third step of the secure token refresh: a POST to
    /// `launcher/auth/validate/v2` with force, hardware ID, user name and
    /// the server ID handed out before, all as query parameters.
    pub fn refresh_norisk_token_v3(
        system_id: &str,
        username: &str,
        server_id: &str,
        force: bool,
        is_experimental: bool,
    ) -> (r: Call)
        ensures
            r.operation == Operation::RefreshTokenV3,
            r.request@ == request_view(
                Method::Post,
                api_url(is_experimental, "launcher/auth/validate/v2"@),
                None,
                refresh_params(system_id@, username@, server_id@, force),
                None,
            ),
    {
        let url = Self::endpoint_url(is_experimental, "launcher/auth/validate/v2");
        let force_str = bool_string(force);
        proof {
            reveal_strlit("force");
            reveal_strlit("hwid");
            reveal_strlit("username");
            reveal_strlit("server_id");
        }
        assert("force"@.len() == 5 && "hwid"@.len() == 4 && "username"@.len() == 8
            && "server_id"@.len() == 9);
        let mut query = QueryParams::new();
        query.insert("force", force_str.as_str());
        assert(query@ =~= seq![("force"@, bool_text(force))]);
        assert(!has_key(query@, "hwid"@));
        query.insert("hwid", system_id);
        assert(query@ =~= seq![("force"@, bool_text(force)), ("hwid"@, system_id@)]);
        assert(!has_key(query@, "username"@));
        query.insert("username", username);
        assert(query@ =~= seq![
            ("force"@, bool_text(force)),
            ("hwid"@, system_id@),
            ("username"@, username@),
        ]);
        assert(!has_key(query@, "server_id"@));
        query.insert("server_id", server_id);
        assert(query@ =~= refresh_params(system_id@, username@, server_id@, force));
        Call {
            operation: Operation::RefreshTokenV3,
            request: HttpRequest {
                method: Method::Post,
                url,
                authorization: None,
                query,
                json_body: None,
            },
        }
    }

    /// A POST to an endpoint with the request UUID as its only parameter.
    pub fn request_from_norisk_endpoint(
        endpoint: &str,
        norisk_token: &str,
        request_uuid: &str,
        is_experimental: bool,
    ) -> (r: Call)
        ensures
            r.operation == Operation::PostWithParameters,
            r.request@ == request_view(
                Method::Post,
                api_url(is_experimental, endpoint@),
                Some(bearer(norisk_token@)),
                uuid_param(Some(request_uuid@)),
                None,
            ),
    {
        let extra = uuid_params(request_uuid);
        let r = Self::post_from_norisk_endpoint_with_parameters(
            endpoint,
            norisk_token,
            "",
            Some(&extra),
            is_experimental,
        );
        proof {
            reveal_strlit("");
            assert(base_params(""@) =~= Seq::<PairView>::empty());
            lemma_insert_all_empty(extra@);
        }
        r
    }

    /// A GET from an endpoint with the request UUID, if one is given, as its
    /// only parameter.
    pub fn get_from_norisk_endpoint(
        endpoint: &str,
        norisk_token: &str,
        request_uuid: Option<&str>,
        is_experimental: bool,
    ) -> (r: Call)
        ensures
            r.operation == Operation::GetWithParameters,
            r.request@ == request_view(
                Method::Get,
                api_url(is_experimental, endpoint@),
                Some(bearer(norisk_token@)),
                uuid_param(
                    match request_uuid {
                        Some(u) => Some(u@),
                        None => None,
                    },
                ),
                None,
            ),
    {
        let extra = match request_uuid {
            Some(u) => uuid_params(u),
            None => QueryParams::new(),
        };
        Self::get_from_norisk_endpoint_with_parameters(
            endpoint,
            norisk_token,
            Some(&extra),
            is_experimental,
        )
    }

}

impl CopperApi {
    /// The norisk assets of a pack: a GET from `launcher/pack/{pack}` with
    /// the request UUID.
    pub fn norisk_assets(
        pack: &str,
        norisk_token: &str,
        request_uuid: &str,
        is_experimental: bool,
    ) -> (r: Call)
        ensures
            r.operation == Operation::GetWithParameters,
            r.request@ == request_view(
                Method::Get,
                api_url(is_experimental, "launcher/pack/"@ + pack@),
                Some(bearer(norisk_token@)),
                uuid_param(Some(request_uuid@)),
                None,
            ),
    {
        let mut endpoint = String::from_str("launcher/pack/");
        endpoint.append(pack);
        Self::get_from_norisk_endpoint(
            endpoint.as_str(),
            norisk_token,
            Some(request_uuid),
            is_experimental,
        )
    }

    /// The modpack configuration: a GET from `launcher/modpacks`.
    pub fn get_modpacks(norisk_token: &str, is_experimental: bool) -> (r: Call)
        ensures
            r.operation == Operation::GetWithParameters,
            r.request@ == request_view(
                Method::Get,
                api_url(is_experimental, "launcher/modpacks"@),
                Some(bearer(norisk_token@)),
                Seq::empty(),
                None,
            ),
    {
        Self::get_from_norisk_endpoint(
            "launcher/modpacks",
            norisk_token,
            None,
            is_experimental,
        )
    }

    /// The standard version profiles: a GET from `launcher/versions`.
    pub fn get_standard_versions(norisk_token: &str, is_experimental: bool) -> (r: Call)
        ensures
            r.operation == Operation::GetWithParameters,
            r.request@ == request_view(
                Method::Get,
                api_url(is_experimental, "launcher/versions"@),
                Some(bearer(norisk_token@)),
                Seq::empty(),
                None,
            ),
    {
        Self::get_from_norisk_endpoint(
            "launcher/versions",
            norisk_token,
            None,
            is_experimental,
        )
    }

    /// Whether a Discord account is linked: a GET from
    /// `core/oauth/discord/check` with the request UUID.
    pub fn discord_link_status(
        norisk_token: &str,
        request_uuid: &str,
        is_experimental: bool,
    ) -> (r: Call)
        ensures
            r.operation == Operation::GetWithParameters,
            r.request@ == request_view(
                Method::Get,
                api_url(is_experimental, "core/oauth/discord/check"@),
                Some(bearer(norisk_token@)),
                uuid_param(Some(request_uuid@)),
                None,
            ),
    {
        Self::get_from_norisk_endpoint(
            "core/oauth/discord/check",
            norisk_token,
            Some(request_uuid),
            is_experimental,
        )
    }

    /// Unlinks the Discord account: a DELETE on `core/oauth/discord/unlink`
    /// with the request UUID.
    pub fn unlink_discord(
        norisk_token: &str,
        request_uuid: &str,
        is_experimental: bool,
    ) -> (r: Call)
        ensures
            r.operation == Operation::DeleteText,
            r.request@ == request_view(
                Method::Delete,
                api_url(is_experimental, "core/oauth/discord/unlink"@),
                Some(bearer(norisk_token@)),
                uuid_param(Some(request_uuid@)),
                None,
            ),
    {
        let extra = uuid_params(request_uuid);
        Self::delete_from_norisk_endpoint_text_with_parameters(
            "core/oauth/discord/unlink",
            norisk_token,
            Some(&extra),
            is_experimental,
        )
    }

    /// Whether a GitHub account is linked: a GET from
    /// `core/oauth/github/check` with the request UUID.
    pub fn github_link_status(
        norisk_token: &str,
        request_uuid: &str,
        is_experimental: bool,
    ) -> (r: Call)
        ensures
            r.operation == Operation::GetWithParameters,
            r.request@ == request_view(
                Method::Get,
                api_url(is_experimental, "core/oauth/github/check"@),
                Some(bearer(norisk_token@)),
                uuid_param(Some(request_uuid@)),
                None,
            ),
    {
        Self::get_from_norisk_endpoint(
            "core/oauth/github/check",
            norisk_token,
            Some(request_uuid),
            is_experimental,
        )
    }

    /// Unlinks the GitHub account: a DELETE on `core/oauth/github/unlink`
    /// with the request UUID.
    pub fn unlink_github(
        norisk_token: &str,
        request_uuid: &str,
        is_experimental: bool,
    ) -> (r: Call)
        ensures
            r.operation == Operation::DeleteText,
            r.request@ == request_view(
                Method::Delete,
                api_url(is_experimental, "core/oauth/github/unlink"@),
                Some(bearer(norisk_token@)),
                uuid_param(Some(request_uuid@)),
                None,
            ),
    {
        let extra = uuid_params(request_uuid);
        Self::delete_from_norisk_endpoint_text_with_parameters(
            "core/oauth/github/unlink",
            norisk_token,
            Some(&extra),
            is_experimental,
        )
    }

    /// Submits a crash log: a POST to `core/crashlog` with the request UUID
    /// and the crash log, already in JSON, as body.
    pub fn submit_crash_log(
        norisk_token: &str,
        crash_log_json: &str,
        request_uuid: &str,
        is_experimental: bool,
    ) -> (r: Call)
        ensures
            r.operation == Operation::SubmitCrashLog,
            r.request@ == request_view(
                Method::Post,
                api_url(is_experimental, "core/crashlog"@),
                Some(bearer(norisk_token@)),
                uuid_param(Some(request_uuid@)),
                Some(crash_log_json@),
            ),
    {
        Call {
            operation: Operation::SubmitCrashLog,
            request: HttpRequest {
                method: Method::Post,
                url: Self::endpoint_url(is_experimental, "core/crashlog"),
                authorization: Some(Self::bearer_header(norisk_token)),
                query: uuid_params(request_uuid),
                json_body: Some(String::from_str(crash_log_json)),
            },
        }
    }

    /// The McReal mobile app token: a GET from `mcreal/user/mobileAppToken`
    /// with the request UUID.
    pub fn get_mcreal_app_token(
        norisk_token: &str,
        request_uuid: &str,
        is_experimental: bool,
    ) -> (r: Call)
        ensures
            r.operation == Operation::GetMcrealAppToken,
            r.request@ == request_view(
                Method::Get,
                api_url(is_experimental, "mcreal/user/mobileAppToken"@),
                Some(bearer(norisk_token@)),
                uuid_param(Some(request_uuid@)),
                None,
            ),
    {
        Call {
            operation: Operation::GetMcrealAppToken,
            request: HttpRequest {
                method: Method::Get,
                url: Self::endpoint_url(is_experimental, "mcreal/user/mobileAppToken"),
                authorization: Some(Self::bearer_header(norisk_token)),
                query: uuid_params(request_uuid),
                json_body: None,
            },
        }
    }

    /// Resets the McReal mobile app token: a POST to
    /// `mcreal/user/mobileAppToken/reset` with the request UUID.
    pub fn reset_mcreal_app_token(
        norisk_token: &str,
        request_uuid: &str,
        is_experimental: bool,
    ) -> (r: Call)
        ensures
            r.operation == Operation::ResetMcrealAppToken,
            r.request@ == request_view(
                Method::Post,
                api_url(is_experimental, "mcreal/user/mobileAppToken/reset"@),
                Some(bearer(norisk_token@)),
                uuid_param(Some(request_uuid@)),
                None,
            ),
    {
        Call {
            operation: Operation::ResetMcrealAppToken,
            request: HttpRequest {
                method: Method::Post,
                url: Self::endpoint_url(is_experimental, "mcreal/user/mobileAppToken/reset"),
                authorization: Some(Self::bearer_header(norisk_token)),
                query: uuid_params(request_uuid),
                json_body: None,
            },
        }
    }

    /// The advent calendar: a GET from `core/advent/calendar` with the
    /// request UUID.
    pub fn get_advent_calendar(
        norisk_token: &str,
        request_uuid: &str,
        is_experimental: bool,
    ) -> (r: Call)
        ensures
            r.operation == Operation::GetAdventCalendar,
            r.request@ == request_view(
                Method::Get,
                api_url(is_experimental, "core/advent/calendar"@),
                Some(bearer(norisk_token@)),
                uuid_param(Some(request_uuid@)),
                None,
            ),
    {
        Call {
            operation: Operation::GetAdventCalendar,
            request: HttpRequest {
                method: Method::Get,
                url: Self::endpoint_url(is_experimental, "core/advent/calendar"),
                authorization: Some(Self::bearer_header(norisk_token)),
                query: uuid_params(request_uuid),
                json_body: None,
            },
        }
    }

    /// Claims the reward of one day of the advent calendar: a POST to
    /// `core/advent/claim/{tag}` with the request UUID.
    pub fn claim_advent_calendar_day(
        norisk_token: &str,
        tag: u32,
        request_uuid: &str,
        is_experimental: bool,
    ) -> (r: Call)
        ensures
            r.operation == Operation::ClaimAdventCalendarDay,
            r.request@ == request_view(
                Method::Post,
                api_url(is_experimental, "core/advent/claim/"@ + decimal(tag as nat)),
                Some(bearer(norisk_token@)),
                uuid_param(Some(request_uuid@)),
                None,
            ),
    {
        let mut endpoint = String::from_str("core/advent/claim/");
        let day = decimal_string(tag as u64);
        endpoint.append(day.as_str());
        Call {
            operation: Operation::ClaimAdventCalendarDay,
            request: HttpRequest {
                method: Method::Post,
                url: Self::endpoint_url(is_experimental, endpoint.as_str()),
                authorization: Some(Self::bearer_header(norisk_token)),
                query: uuid_params(request_uuid),
                json_body: None,
            },
        }
    }

    /// Reports a referral code for an account: a POST to
    /// `launcher/referral/report` with the token as bearer, the account's
    /// UUID as the "uuid" parameter and `{"code": ...}` as JSON body.
    pub fn report_referral_code(
        norisk_token: &str,
        code: &str,
        account_id: [u8; 16],
        is_experimental: bool,
    ) -> (r: Call)
        ensures
            r.operation == Operation::ReportReferralCode,
            r.request@ == request_view(
                Method::Post,
                api_url(is_experimental, "launcher/referral/report"@),
                Some(bearer(norisk_token@)),
                uuid_param(Some(uuid_text(account_id@))),
                Some(referral_body(code@)),
            ),
    {
        let account = uuid_to_string(account_id);
        let mut body = String::from_str("{\"code\":");
        match json_string(code) {
            Some(literal) => body.append(literal.as_str()),
            None => {},
        }
        body.append("}");
        Call {
            operation: Operation::ReportReferralCode,
            request: HttpRequest {
                method: Method::Post,
                url: Self::endpoint_url(is_experimental, "launcher/referral/report"),
                authorization: Some(Self::bearer_header(norisk_token)),
                query: uuid_params(account.as_str()),
                json_body: Some(body),
            },
        }
    }

    /// The information about a referral code, a public endpoint: a GET from
    /// `launcher/referral/info` with the code as parameter and no token.
    pub fn get_referral_info(code: &str, is_experimental: bool) -> (r: Call)
        ensures
            r.operation == Operation::GetReferralInfo,
            r.request@ == request_view(
                Method::Get,
                api_url(is_experimental, "launcher/referral/info"@),
                None,
                seq![("code"@, code@)],
                None,
            ),
    {
        let mut query = QueryParams::new();
        query.insert("code", code);
        assert(query@ =~= seq![("code"@, code@)]);
        Call {
            operation: Operation::GetReferralInfo,
            request: HttpRequest {
                method: Method::Get,
                url: Self::endpoint_url(is_experimental, "launcher/referral/info"),
                authorization: None,
                query,
                json_body: None,
            },
        }
    }
}

} // verus!
