use vstd::prelude::*;

use crate::model::{ApiError, ApiErrorView};
use crate::status::{is_success, status_display, status_is_success, status_text};
use crate::text::has_prefix;

verus! {

/// The calls of the Copper API, each with its own way of reading the reply
/// and its own error messages.
#[derive(Debug, Clone, Copy, PartialEq, Eq, Structural)]
pub enum Operation {
    RequestServerId,
    PostWithParameters,
    GetWithParameters,
    DeleteText,
    RefreshTokenV3,
    SubmitCrashLog,
    GetMcrealAppToken,
    ResetMcrealAppToken,
    GetAdventCalendar,
    ClaimAdventCalendarDay,
    ReportReferralCode,
    GetReferralInfo,
}

/// How the body of a successful reply is taken.
#[derive(Debug, Clone, Copy, PartialEq, Eq, Structural)]
pub enum ReplyKind {
    /// The body is not read; the call succeeds with no value.
    Nothing,
    /// The body is decoded as JSON into the call's result.
    Json,
    /// The body is read as text, which is the call's result.
    Text,
    /// The body is read as text and then decoded as JSON.
    TextThenJson,
}

/// How the reply of each call is taken.
pub open spec fn reply_kind(op: Operation) -> ReplyKind {
    match op {
        Operation::RequestServerId => ReplyKind::Json,
        Operation::PostWithParameters => ReplyKind::Json,
        Operation::GetWithParameters => ReplyKind::Json,
        Operation::DeleteText => ReplyKind::Text,
        Operation::RefreshTokenV3 => ReplyKind::Json,
        Operation::SubmitCrashLog => ReplyKind::Nothing,
        Operation::GetMcrealAppToken => ReplyKind::Text,
        Operation::ResetMcrealAppToken => ReplyKind::Text,
        Operation::GetAdventCalendar => ReplyKind::TextThenJson,
        Operation::ClaimAdventCalendarDay => ReplyKind::TextThenJson,
        Operation::ReportReferralCode => ReplyKind::Nothing,
        Operation::GetReferralInfo => ReplyKind::Json,
    }
}

/// Whether a call reads the body of an error response into its message.
pub open spec fn reads_error_body(op: Operation) -> bool {
    match op {
        Operation::PostWithParameters => false,
        Operation::GetWithParameters => false,
        Operation::DeleteText => false,
        _ => true,
    }
}

/// The message that starts the error of a request that could not be sent.
pub open spec fn send_failure_prefix(op: Operation) -> Seq<char> {
    match op {
        Operation::RequestServerId => "Failed to request server ID from Copper API: "@,
        Operation::PostWithParameters => "Failed to send request to Copper API: "@,
        Operation::GetWithParameters => "Failed to send GET request to Copper API: "@,
        Operation::DeleteText => "Failed to send DELETE request to Copper API: "@,
        Operation::RefreshTokenV3 => "Failed to send v3 token refresh request to Copper API: "@,
        Operation::SubmitCrashLog => "Failed to send crash log to Copper API: "@,
        Operation::GetMcrealAppToken => "Failed to get mobile app token from Copper API: "@,
        Operation::ResetMcrealAppToken => "Failed to reset mobile app token from Copper API: "@,
        Operation::GetAdventCalendar => "Failed to send GET request to Copper API: "@,
        Operation::ClaimAdventCalendarDay => "Failed to claim advent calendar day: "@,
        Operation::ReportReferralCode => "Failed to report referral code: "@,
        Operation::GetReferralInfo => "Failed to fetch referral info: "@,
    }
}

/// The message that starts the error of a response with an error status.
pub open spec fn status_failure_prefix(op: Operation) -> Seq<char> {
    match op {
        Operation::RequestServerId => "Copper API returned error status for server ID request: "@,
        Operation::RefreshTokenV3 => "Copper API v3 returned error status: "@,
        Operation::SubmitCrashLog => "Copper API returned error status for crash log: "@,
        Operation::GetMcrealAppToken => "Copper API returned error status for mobile app token: "@,
        Operation::ResetMcrealAppToken => "Copper API returned error status for mobile app token reset: "@,
        Operation::ClaimAdventCalendarDay => "Copper API returned error status for advent calendar claim: "@,
        Operation::ReportReferralCode => "Copper API returned error status for referral report: "@,
        Operation::GetReferralInfo => "Copper API returned error status for referral info: "@,
        _ => "Copper API returned error status: "@,
    }
}

/// The message that starts the error of a reply that could not be read (or,
/// for a JSON reply, decoded).
pub open spec fn reply_failure_prefix(op: Operation) -> Seq<char> {
    match op {
        Operation::RequestServerId => "Failed to parse Copper API server ID response: "@,
        Operation::DeleteText => "Failed to read Copper API response text: "@,
        Operation::RefreshTokenV3 => "Failed to parse Copper API v3 response: "@,
        Operation::GetMcrealAppToken => "Failed to read Copper API mobile app token response: "@,
        Operation::ResetMcrealAppToken => "Failed to read Copper API mobile app token reset response: "@,
        Operation::GetAdventCalendar => "Failed to read Copper API response text: "@,
        Operation::ClaimAdventCalendarDay => "Failed to read Copper API response text: "@,
        Operation::GetReferralInfo => "Failed to parse referral info: "@,
        _ => "Failed to parse Copper API response: "@,
    }
}

/// The message that starts the error of a text reply that is not the
/// expected JSON.
pub open spec fn decode_failure_prefix(op: Operation) -> Seq<char> {
    match op {
        Operation::ClaimAdventCalendarDay => "Failed to parse Copper API advent calendar claim response: "@,
        _ => "Failed to parse Copper API response: "@,
    }
}

/// The prefix that every server ID handed out by the API carries.
pub open spec fn server_id_prefix() -> Seq<char> {
    "nrc-"@
}

/// Where an exchange with the API stands.
pub enum Phase {
    /// The request was sent; its response is awaited.
    AwaitingResponse,
    /// The response had an error status; its body is being read.
    AwaitingErrorBody { status: u16 },
    /// The response had a success status; its body is being read.
    AwaitingReply { status: u16 },
    /// The body was read as text; it is being decoded as JSON.
    AwaitingDecode { status: u16, text: String },
    /// The call has its result.
    Finished,
}

/// A phase as plain values.
pub enum PhaseView {
    AwaitingResponse,
    AwaitingErrorBody { status: u16 },
    AwaitingReply { status: u16 },
    AwaitingDecode { status: u16, text: Seq<char> },
    Finished,
}

impl View for Phase {
    type V = PhaseView;

    open spec fn view(&self) -> PhaseView {
        match self {
            Phase::AwaitingResponse => PhaseView::AwaitingResponse,
            Phase::AwaitingErrorBody { status } => PhaseView::AwaitingErrorBody { status: *status },
            Phase::AwaitingReply { status } => PhaseView::AwaitingReply { status: *status },
            Phase::AwaitingDecode { status, text } => PhaseView::AwaitingDecode {
                status: *status,
                text: text@,
            },
            Phase::Finished => PhaseView::Finished,
        }
    }
}

/// What the transport reports about a call.
pub enum Event {
    /// The request could not be sent; the transport's error text.
    SendFailed(String),
    /// A response arrived with this status code.
    Responded(u16),
    /// The body of an error response, or none where it could not be read.
    ErrorBodyRead(Option<String>),
    /// Reading or decoding the body failed; the error text.
    ReplyFailed(String),
    /// The body was read as this text.
    ReplyText(String),
    /// The body was decoded as the expected JSON.
    ReplyDecoded,
    /// The body was decoded as a server ID response with this server ID.
    ServerIdDecoded(String),
}

/// An event as plain values.
pub enum EventView {
    SendFailed(Seq<char>),
    Responded(u16),
    ErrorBodyRead(Option<Seq<char>>),
    ReplyFailed(Seq<char>),
    ReplyText(Seq<char>),
    ReplyDecoded,
    ServerIdDecoded(Seq<char>),
}

impl View for Event {
    type V = EventView;

    open spec fn view(&self) -> EventView {
        match self {
            Event::SendFailed(m) => EventView::SendFailed(m@),
            Event::Responded(s) => EventView::Responded(*s),
            Event::ErrorBodyRead(b) => EventView::ErrorBodyRead(
                match b {
                    Some(t) => Some(t@),
                    None => None,
                },
            ),
            Event::ReplyFailed(m) => EventView::ReplyFailed(m@),
            Event::ReplyText(t) => EventView::ReplyText(t@),
            Event::ReplyDecoded => EventView::ReplyDecoded,
            Event::ServerIdDecoded(id) => EventView::ServerIdDecoded(id@),
        }
    }
}

/// What the transport is to do next.
pub enum Action {
    /// Read the body of the error response as text.
    ReadErrorBody,
    /// Read the body and decode it as JSON.
    ReadJson,
    /// Read the body as text.
    ReadText,
    /// Decode this text (the body just read) as JSON.
    DecodeText(String),
    /// The call succeeds with the value decoded (none where nothing was read).
    Deliver,
    /// The call succeeds with this text.
    DeliverText(String),
    /// The call fails with this error.
    Fail(ApiError),
    /// The event does not belong where the exchange stands; nothing changed.
    Ignore,
}

/// An action as plain values.
pub enum ActionView {
    ReadErrorBody,
    ReadJson,
    ReadText,
    DecodeText(Seq<char>),
    Deliver,
    DeliverText(Seq<char>),
    Fail(ApiErrorView),
    Ignore,
}

impl View for Action {
    type V = ActionView;

    open spec fn view(&self) -> ActionView {
        match self {
            Action::ReadErrorBody => ActionView::ReadErrorBody,
            Action::ReadJson => ActionView::ReadJson,
            Action::ReadText => ActionView::ReadText,
            Action::DecodeText(t) => ActionView::DecodeText(t@),
            Action::Deliver => ActionView::Deliver,
            Action::DeliverText(t) => ActionView::DeliverText(t@),
            Action::Fail(e) => ActionView::Fail(e@),
            Action::Ignore => ActionView::Ignore,
        }
    }
}

/// The error of a request that could not be sent.
pub open spec fn send_failure(op: Operation, error: Seq<char>) -> ApiErrorView {
    ApiErrorView::RequestError(send_failure_prefix(op) + error)
}

/// The error of a response with an error status whose body is not read.
pub open spec fn status_failure(op: Operation, status: u16) -> ApiErrorView {
    ApiErrorView::RequestError(status_failure_prefix(op) + status_text(status))
}

/// The error of a response with an error status, with its body, or a
/// placeholder where the body could not be read.
pub open spec fn status_failure_with_body(
    op: Operation,
    status: u16,
    body: Option<Seq<char>>,
) -> ApiErrorView {
    ApiErrorView::RequestError(
        status_failure_prefix(op) + status_text(status) + ", Body: "@ + match body {
            Some(b) => b,
            None => "Failed to read error body"@,
        },
    )
}

/// The error of a reply that could not be read or decoded.
pub open spec fn reply_failure(op: Operation, error: Seq<char>) -> ApiErrorView {
    ApiErrorView::ParseError(reply_failure_prefix(op) + error)
}

/// The error of a text reply that is not the expected JSON; it quotes the text.
pub open spec fn decode_failure(op: Operation, error: Seq<char>, text: Seq<char>) -> ApiErrorView {
    ApiErrorView::ParseError(decode_failure_prefix(op) + error + ". Response body: "@ + text)
}

/// The error of a server ID that lacks the expected prefix.
pub open spec fn invalid_server_id(id: Seq<char>) -> ApiErrorView {
    ApiErrorView::RequestError("Invalid server ID received from Copper API: "@ + id)
}

/// The step of an exchange: from where it stands and what the transport
/// reports, where it stands next and what is to be done.
pub open spec fn next(op: Operation, p: PhaseView, e: EventView) -> (PhaseView, ActionView) {
    match p {
        PhaseView::AwaitingResponse => match e {
            EventView::SendFailed(m) => (
                PhaseView::Finished,
                ActionView::Fail(send_failure(op, m)),
            ),
            EventView::Responded(s) => if is_success(s) {
                match reply_kind(op) {
                    ReplyKind::Nothing => (PhaseView::Finished, ActionView::Deliver),
                    ReplyKind::Json => (PhaseView::AwaitingReply { status: s }, ActionView::ReadJson),
                    _ => (PhaseView::AwaitingReply { status: s }, ActionView::ReadText),
                }
            } else if reads_error_body(op) {
                (PhaseView::AwaitingErrorBody { status: s }, ActionView::ReadErrorBody)
            } else {
                (PhaseView::Finished, ActionView::Fail(status_failure(op, s)))
            },
            _ => (p, ActionView::Ignore),
        },
        PhaseView::AwaitingErrorBody { status } => match e {
            EventView::ErrorBodyRead(b) => (
                PhaseView::Finished,
                ActionView::Fail(status_failure_with_body(op, status, b)),
            ),
            _ => (p, ActionView::Ignore),
        },
        PhaseView::AwaitingReply { status } => match e {
            EventView::ReplyFailed(m) => (PhaseView::Finished, ActionView::Fail(reply_failure(op, m))),
            EventView::ReplyDecoded => if reply_kind(op) == ReplyKind::Json && op
                != Operation::RequestServerId {
                (PhaseView::Finished, ActionView::Deliver)
            } else {
                (p, ActionView::Ignore)
            },
            EventView::ServerIdDecoded(id) => if op == Operation::RequestServerId {
                if server_id_prefix().is_prefix_of(id) {
                    (PhaseView::Finished, ActionView::Deliver)
                } else {
                    (PhaseView::Finished, ActionView::Fail(invalid_server_id(id)))
                }
            } else {
                (p, ActionView::Ignore)
            },
            EventView::ReplyText(t) => if reply_kind(op) == ReplyKind::Text {
                (PhaseView::Finished, ActionView::DeliverText(t))
            } else if reply_kind(op) == ReplyKind::TextThenJson {
                (PhaseView::AwaitingDecode { status, text: t }, ActionView::DecodeText(t))
            } else {
                (p, ActionView::Ignore)
            },
            _ => (p, ActionView::Ignore),
        },
        PhaseView::AwaitingDecode { status, text } => match e {
            EventView::ReplyDecoded => (PhaseView::Finished, ActionView::Deliver),
            EventView::ReplyFailed(m) => (
                PhaseView::Finished,
                ActionView::Fail(decode_failure(op, m, text)),
            ),
            _ => (p, ActionView::Ignore),
        },
        PhaseView::Finished => (p, ActionView::Ignore),
    }
}

impl Operation {
    /// How the reply of this call is taken.
    pub fn reply_kind(&self) -> (r: ReplyKind)
        ensures
            r == reply_kind(*self),
    {
        match self {
            Operation::RequestServerId => ReplyKind::Json,
            Operation::PostWithParameters => ReplyKind::Json,
            Operation::GetWithParameters => ReplyKind::Json,
            Operation::DeleteText => ReplyKind::Text,
            Operation::RefreshTokenV3 => ReplyKind::Json,
            Operation::SubmitCrashLog => ReplyKind::Nothing,
            Operation::GetMcrealAppToken => ReplyKind::Text,
            Operation::ResetMcrealAppToken => ReplyKind::Text,
            Operation::GetAdventCalendar => ReplyKind::TextThenJson,
            Operation::ClaimAdventCalendarDay => ReplyKind::TextThenJson,
            Operation::ReportReferralCode => ReplyKind::Nothing,
            Operation::GetReferralInfo => ReplyKind::Json,
        }
    }

    /// Whether this call reads the body of an error response.
    pub fn reads_error_body(&self) -> (r: bool)
        ensures
            r == reads_error_body(*self),
    {
        match self {
            Operation::PostWithParameters => false,
            Operation::GetWithParameters => false,
            Operation::DeleteText => false,
            _ => true,
        }
    }

    fn send_failure_prefix(&self) -> (r: &'static str)
        ensures
            r@ == send_failure_prefix(*self),
    {
        match self {
            Operation::RequestServerId => "Failed to request server ID from Copper API: ",
            Operation::PostWithParameters => "Failed to send request to Copper API: ",
            Operation::GetWithParameters => "Failed to send GET request to Copper API: ",
            Operation::DeleteText => "Failed to send DELETE request to Copper API: ",
            Operation::RefreshTokenV3 => "Failed to send v3 token refresh request to Copper API: ",
            Operation::SubmitCrashLog => "Failed to send crash log to Copper API: ",
            Operation::GetMcrealAppToken => "Failed to get mobile app token from Copper API: ",
            Operation::ResetMcrealAppToken => "Failed to reset mobile app token from Copper API: ",
            Operation::GetAdventCalendar => "Failed to send GET request to Copper API: ",
            Operation::ClaimAdventCalendarDay => "Failed to claim advent calendar day: ",
            Operation::ReportReferralCode => "Failed to report referral code: ",
            Operation::GetReferralInfo => "Failed to fetch referral info: ",
        }
    }

    fn status_failure_prefix(&self) -> (r: &'static str)
        ensures
            r@ == status_failure_prefix(*self),
    {
        match self {
            Operation::RequestServerId => "Copper API returned error status for server ID request: ",
            Operation::RefreshTokenV3 => "Copper API v3 returned error status: ",
            Operation::SubmitCrashLog => "Copper API returned error status for crash log: ",
            Operation::GetMcrealAppToken => "Copper API returned error status for mobile app token: ",
            Operation::ResetMcrealAppToken => "Copper API returned error status for mobile app token reset: ",
            Operation::ClaimAdventCalendarDay => "Copper API returned error status for advent calendar claim: ",
            Operation::ReportReferralCode => "Copper API returned error status for referral report: ",
            Operation::GetReferralInfo => "Copper API returned error status for referral info: ",
            _ => "Copper API returned error status: ",
        }
    }

    fn reply_failure_prefix(&self) -> (r: &'static str)
        ensures
            r@ == reply_failure_prefix(*self),
    {
        match self {
            Operation::RequestServerId => "Failed to parse Copper API server ID response: ",
            Operation::DeleteText => "Failed to read Copper API response text: ",
            Operation::RefreshTokenV3 => "Failed to parse Copper API v3 response: ",
            Operation::GetMcrealAppToken => "Failed to read Copper API mobile app token response: ",
            Operation::ResetMcrealAppToken => "Failed to read Copper API mobile app token reset response: ",
            Operation::GetAdventCalendar => "Failed to read Copper API response text: ",
            Operation::ClaimAdventCalendarDay => "Failed to read Copper API response text: ",
            Operation::GetReferralInfo => "Failed to parse referral info: ",
            _ => "Failed to parse Copper API response: ",
        }
    }

    fn decode_failure_prefix(&self) -> (r: &'static str)
        ensures
            r@ == decode_failure_prefix(*self),
    {
        match self {
            Operation::ClaimAdventCalendarDay => "Failed to parse Copper API advent calendar claim response: ",
            _ => "Failed to parse Copper API response: ",
        }
    }
}

pub(crate) fn text_after(prefix: &str, rest: &str) -> (r: String)
    ensures
        r@ == prefix@ + rest@,
{
    let mut s = String::from_str(prefix);
    s.append(rest);
    s
}

/// One exchange of a call with the API, from the request sent to the
/// call's result.
pub struct Exchange {
    operation: Operation,
    phase: Phase,
}

/// An exchange as plain values.
pub struct ExchangeView {
    pub operation: Operation,
    pub phase: PhaseView,
}

impl View for Exchange {
    type V = ExchangeView;

    closed spec fn view(&self) -> ExchangeView {
        ExchangeView { operation: self.operation, phase: self.phase@ }
    }
}

impl Exchange {
    #[verifier::type_invariant]
    spec fn inv(self) -> bool {
        consistent(self.operation, self.phase@)
    }

    /// The exchange of a call whose request has just been sent.
    pub fn new(operation: Operation) -> (r: Exchange)
        ensures
            r@.operation == operation,
            r@.phase == PhaseView::AwaitingResponse,
            consistent(r@.operation, r@.phase),
    {
        Exchange { operation, phase: Phase::AwaitingResponse }
    }

    /// Whether the call has its result.
    pub fn is_finished(&self) -> (r: bool)
        ensures
            r == (self@.phase is Finished),
    {
        match self.phase {
            Phase::Finished => true,
            _ => false,
        }
    }

    /// Takes in what the transport reports and says what to do next.
    pub fn step(&mut self, event: Event) -> (r: Action)
        ensures
            final(self)@.operation == old(self)@.operation,
            (final(self)@.phase, r@) == next(old(self)@.operation, old(self)@.phase, event@),
            consistent(old(self)@.operation, old(self)@.phase),
            consistent(final(self)@.operation, final(self)@.phase),
    {
        proof {
            use_type_invariant(&*self);
            law_consistent(self.operation, self.phase@, event@);
        }
        let mut phase = Phase::Finished;
        std::mem::swap(&mut phase, &mut self.phase);
        let (next_phase, action) = transition(self.operation, phase, event);
        self.phase = next_phase;
        action
    }
}

fn status_message(op: Operation, status: u16) -> (r: String)
    ensures
        r@ == status_failure_prefix(op) + status_text(status),
{
    let mut msg = String::from_str(op.status_failure_prefix());
    let shown = status_display(status);
    msg.append(shown.as_str());
    msg
}

/// The step of an exchange, on owned values.
fn transition(op: Operation, phase: Phase, event: Event) -> (r: (Phase, Action))
    ensures
        (r.0@, r.1@) == next(op, phase@, event@),
{
    match phase {
        Phase::AwaitingResponse => match event {
            Event::SendFailed(m) => {
                let msg = text_after(op.send_failure_prefix(), m.as_str());
                (Phase::Finished, Action::Fail(ApiError::RequestError(msg)))
            },
            Event::Responded(s) => {
                if status_is_success(s) {
                    match op.reply_kind() {
                        ReplyKind::Nothing => (Phase::Finished, Action::Deliver),
                        ReplyKind::Json => (Phase::AwaitingReply { status: s }, Action::ReadJson),
                        _ => (Phase::AwaitingReply { status: s }, Action::ReadText),
                    }
                } else if op.reads_error_body() {
                    (Phase::AwaitingErrorBody { status: s }, Action::ReadErrorBody)
                } else {
                    let msg = status_message(op, s);
                    (Phase::Finished, Action::Fail(ApiError::RequestError(msg)))
                }
            },
            _ => (Phase::AwaitingResponse, Action::Ignore),
        },
        Phase::AwaitingErrorBody { status } => match event {
            Event::ErrorBodyRead(b) => {
                let mut msg = status_message(op, status);
                msg.append(", Body: ");
                match b {
                    Some(body) => msg.append(body.as_str()),
                    None => msg.append("Failed to read error body"),
                }
                (Phase::Finished, Action::Fail(ApiError::RequestError(msg)))
            },
            _ => (Phase::AwaitingErrorBody { status }, Action::Ignore),
        },
        Phase::AwaitingReply { status } => match event {
            Event::ReplyFailed(m) => {
                let msg = text_after(op.reply_failure_prefix(), m.as_str());
                (Phase::Finished, Action::Fail(ApiError::ParseError(msg)))
            },
            Event::ReplyDecoded => {
                if op.reply_kind() == ReplyKind::Json && op != Operation::RequestServerId {
                    (Phase::Finished, Action::Deliver)
                } else {
                    (Phase::AwaitingReply { status }, Action::Ignore)
                }
            },
            Event::ServerIdDecoded(id) => {
                if op == Operation::RequestServerId {
                    if has_prefix(id.as_str(), "nrc-") {
                        (Phase::Finished, Action::Deliver)
                    } else {
                        let msg = text_after(
                            "Invalid server ID received from Copper API: ",
                            id.as_str(),
                        );
                        (Phase::Finished, Action::Fail(ApiError::RequestError(msg)))
                    }
                } else {
                    (Phase::AwaitingReply { status }, Action::Ignore)
                }
            },
            Event::ReplyText(t) => {
                let kind = op.reply_kind();
                if kind == ReplyKind::Text {
                    (Phase::Finished, Action::DeliverText(t))
                } else if kind == ReplyKind::TextThenJson {
                    let copy = t.clone();
                    (Phase::AwaitingDecode { status, text: t }, Action::DecodeText(copy))
                } else {
                    (Phase::AwaitingReply { status }, Action::Ignore)
                }
            },
            _ => (Phase::AwaitingReply { status }, Action::Ignore),
        },
        Phase::AwaitingDecode { status, text } => match event {
            Event::ReplyDecoded => (Phase::Finished, Action::Deliver),
            Event::ReplyFailed(m) => {
                let mut msg = text_after(op.decode_failure_prefix(), m.as_str());
                msg.append(". Response body: ");
                msg.append(text.as_str());
                (Phase::Finished, Action::Fail(ApiError::ParseError(msg)))
            },
            _ => (Phase::AwaitingDecode { status, text }, Action::Ignore),
        },
        Phase::Finished => (Phase::Finished, Action::Ignore),
    }
}

/// Whether an action gives the call its result.
pub open spec fn is_outcome(a: ActionView) -> bool {
    a is Deliver || a is DeliverText || a is Fail
}

/// Whether an action makes the call succeed.
pub open spec fn is_delivery(a: ActionView) -> bool {
    a is Deliver || a is DeliverText
}

/// Where a phase stands in the order of an exchange.
pub open spec fn rank(p: PhaseView) -> nat {
    match p {
        PhaseView::AwaitingResponse => 0,
        PhaseView::AwaitingErrorBody { .. } => 1,
        PhaseView::AwaitingReply { .. } => 1,
        PhaseView::AwaitingDecode { .. } => 2,
        PhaseView::Finished => 3,
    }
}

/// What a phase says of the response, given the call: an error body is
/// read only after an error status of a call that reads it; a reply is read
/// only after a success status of a call with a body; a text is decoded
/// only for a call that decodes its text.
pub open spec fn consistent(op: Operation, p: PhaseView) -> bool {
    match p {
        PhaseView::AwaitingErrorBody { status } => !is_success(status) && reads_error_body(op),
        PhaseView::AwaitingReply { status } => is_success(status) && reply_kind(op)
            != ReplyKind::Nothing,
        PhaseView::AwaitingDecode { status, .. } => is_success(status) && reply_kind(op)
            == ReplyKind::TextThenJson,
        _ => true,
    }
}

/// The status of the response that a step knows of: the one it reports or
/// the one that the phase records.
pub open spec fn known_status(p: PhaseView, e: EventView) -> Option<u16> {
    match p {
        PhaseView::AwaitingResponse => match e {
            EventView::Responded(s) => Some(s),
            _ => None,
        },
        PhaseView::AwaitingErrorBody { status } => Some(status),
        PhaseView::AwaitingReply { status } => Some(status),
        PhaseView::AwaitingDecode { status, .. } => Some(status),
        PhaseView::Finished => None,
    }
}

/// A finished exchange stays finished and ignores every event.
pub proof fn law_finished_is_final(op: Operation, e: EventView)
    ensures
        next(op, PhaseView::Finished, e) == (PhaseView::Finished, ActionView::Ignore),
{
}

/// An ignored event leaves the exchange where it stood.
pub proof fn law_ignore_changes_nothing(op: Operation, p: PhaseView, e: EventView)
    ensures
        next(op, p, e).1 is Ignore ==> next(op, p, e).0 == p,
{
}

/// A step that gives the call its result finishes the exchange, and an
/// exchange finishes only by such a step.
pub proof fn law_outcome_finishes(op: Operation, p: PhaseView, e: EventView)
    ensures
        is_outcome(next(op, p, e).1) ==> next(op, p, e).0 is Finished,
        !(p is Finished) && next(op, p, e).0 is Finished ==> is_outcome(next(op, p, e).1),
{
}

/// Every step that is not ignored moves the exchange forward, so that an
/// exchange has its result after at most three events that it takes in.
pub proof fn law_progress(op: Operation, p: PhaseView, e: EventView)
    ensures
        !(next(op, p, e).1 is Ignore) ==> rank(next(op, p, e).0) > rank(p),
        rank(next(op, p, e).0) <= 3,
{
}

/// Every step keeps the phase consistent with the call.
pub proof fn law_consistent(op: Operation, p: PhaseView, e: EventView)
    requires
        consistent(op, p),
    ensures
        consistent(op, next(op, p, e).0),
{
}

/// A call succeeds only on a response with a success status (200..=299).
pub proof fn law_success_needs_success_status(op: Operation, p: PhaseView, e: EventView)
    requires
        consistent(op, p),
        is_delivery(next(op, p, e).1),
    ensures
        known_status(p, e) matches Some(s) && is_success(s),
{
}

/// A response with an error status makes the call fail with a request
/// error that names the status: after its body is read, for the calls
/// that read it (with a placeholder where it cannot be read), at once for
/// the others.
pub proof fn law_error_status_fails(op: Operation, status: u16, body: Option<Seq<char>>)
    requires
        !is_success(status),
    ensures
        reads_error_body(op) ==> {
            let (q, a) = next(op, PhaseView::AwaitingResponse, EventView::Responded(status));
            &&& q == PhaseView::AwaitingErrorBody { status }
            &&& a == ActionView::ReadErrorBody
            &&& next(op, q, EventView::ErrorBodyRead(body)) == (
                PhaseView::Finished,
                ActionView::Fail(status_failure_with_body(op, status, body)),
            )
        },
        !reads_error_body(op) ==> next(
            op,
            PhaseView::AwaitingResponse,
            EventView::Responded(status),
        ) == (PhaseView::Finished, ActionView::Fail(status_failure(op, status))),
{
}

/// A request that cannot be sent makes the call fail with a request error
/// that carries the transport's error text.
pub proof fn law_send_failure_fails(op: Operation, error: Seq<char>)
    ensures
        next(op, PhaseView::AwaitingResponse, EventView::SendFailed(error)) == (
            PhaseView::Finished,
            ActionView::Fail(send_failure(op, error)),
        ),
{
}

/// A server ID request succeeds only with a server ID that begins with
/// "nrc-", and a decoded server ID without it makes the call fail.
pub proof fn law_server_id_prefix(p: PhaseView, e: EventView)
    requires
        consistent(Operation::RequestServerId, p),
    ensures
        is_delivery(next(Operation::RequestServerId, p, e).1) ==> (e matches EventView::ServerIdDecoded(
            id,
        ) && server_id_prefix().is_prefix_of(id)),
        forall|id: Seq<char>|
            #![trigger invalid_server_id(id)]
            p is AwaitingReply && !server_id_prefix().is_prefix_of(id) && e == EventView::ServerIdDecoded(id)
                ==> next(Operation::RequestServerId, p, e).1 == ActionView::Fail(invalid_server_id(id)),
{
}

/// A call whose reply is text and then JSON, on a reply that is not the
/// expected JSON, fails with a parse error that quotes the text read.
pub proof fn law_decode_failure_quotes_body(
    op: Operation,
    status: u16,
    text: Seq<char>,
    error: Seq<char>,
)
    requires
        is_success(status),
        reply_kind(op) == ReplyKind::TextThenJson,
    ensures
        ({
            let (q, a) = next(op, PhaseView::AwaitingReply { status }, EventView::ReplyText(text));
            &&& a == ActionView::DecodeText(text)
            &&& next(op, q, EventView::ReplyFailed(error)) == (
                PhaseView::Finished,
                ActionView::Fail(decode_failure(op, error, text)),
            )
        }),
{
}

/// The calls that return a decoded JSON value (other than the server ID
/// request): a POST or GET with parameters, the token validation and the
/// referral information. On a success status their body is read as JSON,
/// and a body that decodes makes the call succeed with the decoded value.
pub proof fn law_json_reply_delivers_decoded(op: Operation, status: u16)
    requires
        op == Operation::PostWithParameters || op == Operation::GetWithParameters || op
            == Operation::RefreshTokenV3 || op == Operation::GetReferralInfo,
        200 <= status <= 299,
    ensures
        next(op, PhaseView::AwaitingResponse, EventView::Responded(status)) == (
            PhaseView::AwaitingReply { status },
            ActionView::ReadJson,
        ),
        next(op, PhaseView::AwaitingReply { status }, EventView::ReplyDecoded) == (
            PhaseView::Finished,
            ActionView::Deliver,
        ),
{
}

/// The server ID request reads its body as JSON on a success status, and a
/// decoded server ID that begins with "nrc-" makes it succeed.
pub proof fn law_server_id_reply_delivers(status: u16, id: Seq<char>)
    requires
        200 <= status <= 299,
        "nrc-"@.is_prefix_of(id),
    ensures
        next(Operation::RequestServerId, PhaseView::AwaitingResponse, EventView::Responded(status))
            == (PhaseView::AwaitingReply { status }, ActionView::ReadJson),
        next(
            Operation::RequestServerId,
            PhaseView::AwaitingReply { status },
            EventView::ServerIdDecoded(id),
        ) == (PhaseView::Finished, ActionView::Deliver),
{
}

/// The calls that return the body as text: the DELETE with parameters (the
/// account unlinks) and the two McReal token calls. On a success status the
/// body is read as text, and the call succeeds with exactly that text.
pub proof fn law_text_reply_delivers_text(op: Operation, status: u16, text: Seq<char>)
    requires
        op == Operation::DeleteText || op == Operation::GetMcrealAppToken || op
            == Operation::ResetMcrealAppToken,
        200 <= status <= 299,
    ensures
        next(op, PhaseView::AwaitingResponse, EventView::Responded(status)) == (
            PhaseView::AwaitingReply { status },
            ActionView::ReadText,
        ),
        next(op, PhaseView::AwaitingReply { status }, EventView::ReplyText(text)) == (
            PhaseView::Finished,
            ActionView::DeliverText(text),
        ),
{
}

/// The advent calendar calls read the body as text on a success status,
/// decode exactly that text as JSON, and succeed with the decoded value when
/// it decodes.
pub proof fn law_text_then_json_reply_delivers_decoded(
    op: Operation,
    status: u16,
    text: Seq<char>,
)
    requires
        op == Operation::GetAdventCalendar || op == Operation::ClaimAdventCalendarDay,
        200 <= status <= 299,
    ensures
        next(op, PhaseView::AwaitingResponse, EventView::Responded(status)) == (
            PhaseView::AwaitingReply { status },
            ActionView::ReadText,
        ),
        next(op, PhaseView::AwaitingReply { status }, EventView::ReplyText(text)) == (
            PhaseView::AwaitingDecode { status, text },
            ActionView::DecodeText(text),
        ),
        next(op, PhaseView::AwaitingDecode { status, text }, EventView::ReplyDecoded) == (
            PhaseView::Finished,
            ActionView::Deliver,
        ),
{
}

/// The crash log and the referral report read no body: a success status
/// makes them succeed at once.
pub proof fn law_unit_reply_delivers(op: Operation, status: u16)
    requires
        op == Operation::SubmitCrashLog || op == Operation::ReportReferralCode,
        200 <= status <= 299,
    ensures
        next(op, PhaseView::AwaitingResponse, EventView::Responded(status)) == (
            PhaseView::Finished,
            ActionView::Deliver,
        ),
{
}

} // verus!
