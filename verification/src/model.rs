use vstd::prelude::*;

verus! {

/// A server ID handed out by the Copper API for the secure token refresh.
#[derive(Debug, Clone)]
pub struct ServerIdResponse {
    pub server_id: String,
    pub expires_in: i32,
}

/// Information about a referral code and its referrer.
#[derive(Debug, Clone)]
pub struct ReferralInfo {
    /// Display name of the referrer (username, creator name, etc.)
    pub referrer_name: String,
    /// Optional avatar/profile picture URL
    pub referrer_avatar: Option<String>,
    /// Whether the referral code is still valid
    pub valid: bool,
    /// Type of referral: "friend", "affiliate", "creator", "partner", etc.
    pub referral_type: Option<String>,
    /// Translation key for the banner message
    pub translation_key: Option<String>,
    /// Fallback message if the translation is not found
    pub fallback_message: Option<String>,
    /// Optional custom message from the referrer or the backend
    pub custom_message: Option<String>,
    /// Optional reward description
    pub reward_text: Option<String>,
}

/// The state of one day of the advent calendar.
#[derive(Debug, Clone, Copy, PartialEq, Eq, Structural)]
pub enum AdventCalendarDayStatus {
    Locked,
    Available,
    Claimed,
    Expired,
}

/// The kind of shop item that a reward hands out.
#[derive(Debug, Clone, Copy, PartialEq, Eq, Structural)]
pub enum ShopItemRewardType {
    Cosmetic,
    Emote,
}

/// A crash log report: the URL of the uploaded logs and, where known, the
/// metadata of the game process that crashed (of type `M`).
#[derive(Debug, Clone)]
pub struct CrashlogDto<M> {
    pub mc_logs_url: String,
    pub metadata: Option<M>,
}

/// What a Copper API call fails with: a request that failed or was refused,
/// or a reply that could not be read or parsed.
#[derive(Debug, Clone)]
pub enum ApiError {
    RequestError(String),
    ParseError(String),
}

/// An error as plain text, for contracts.
pub enum ApiErrorView {
    RequestError(Seq<char>),
    ParseError(Seq<char>),
}

impl View for ApiError {
    type V = ApiErrorView;

    open spec fn view(&self) -> ApiErrorView {
        match self {
            ApiError::RequestError(m) => ApiErrorView::RequestError(m@),
            ApiError::ParseError(m) => ApiErrorView::ParseError(m@),
        }
    }
}

} // verus!
