use vstd::prelude::*;

use crate::exchange::{invalid_server_id, server_id_prefix, text_after, Operation};
use crate::model::{ApiError, ApiErrorView};
use crate::request::{
    api_url, refresh_params, request_view, Call, CallView, CopperApi, Method,
};
use crate::text::has_prefix;

verus! {

/// Where a secure token refresh stands. The refresh asks the API for a server
/// ID, joins the Minecraft server session with that ID, and then has the API
/// validate the join under the same ID, so that no one in between can choose
/// the server ID.
pub enum RefreshPhase {
    /// The server ID request was sent; its result is awaited.
    AwaitingServerId,
    /// The session is being joined with the server ID that the API issued.
    AwaitingJoin { server_id: String },
    /// The validation request with that server ID was sent; its result is awaited.
    AwaitingValidation { server_id: String },
    /// The refresh has its result.
    Finished,
}

/// A refresh phase as plain values.
pub enum RefreshPhaseView {
    AwaitingServerId,
    AwaitingJoin { server_id: Seq<char> },
    AwaitingValidation { server_id: Seq<char> },
    Finished,
}

impl View for RefreshPhase {
    type V = RefreshPhaseView;

    open spec fn view(&self) -> RefreshPhaseView {
        match self {
            RefreshPhase::AwaitingServerId => RefreshPhaseView::AwaitingServerId,
            RefreshPhase::AwaitingJoin { server_id } => RefreshPhaseView::AwaitingJoin {
                server_id: server_id@,
            },
            RefreshPhase::AwaitingValidation { server_id } => RefreshPhaseView::AwaitingValidation {
                server_id: server_id@,
            },
            RefreshPhase::Finished => RefreshPhaseView::Finished,
        }
    }
}

/// What the transport reports about the steps of a refresh.
pub enum RefreshEvent {
    /// The server ID request succeeded with this server ID.
    ServerIdIssued(String),
    /// The server ID request failed with this error.
    ServerIdFailed(ApiError),
    /// The Minecraft server session was joined.
    SessionJoined,
    /// Joining the session failed with this error.
    JoinFailed(ApiError),
    /// The validation request succeeded; its token is the refresh's result.
    Validated,
    /// The validation request failed with this error.
    ValidationFailed(ApiError),
}

/// A refresh event as plain values.
pub enum RefreshEventView {
    ServerIdIssued(Seq<char>),
    ServerIdFailed(ApiErrorView),
    SessionJoined,
    JoinFailed(ApiErrorView),
    Validated,
    ValidationFailed(ApiErrorView),
}

impl View for RefreshEvent {
    type V = RefreshEventView;

    open spec fn view(&self) -> RefreshEventView {
        match self {
            RefreshEvent::ServerIdIssued(id) => RefreshEventView::ServerIdIssued(id@),
            RefreshEvent::ServerIdFailed(e) => RefreshEventView::ServerIdFailed(e@),
            RefreshEvent::SessionJoined => RefreshEventView::SessionJoined,
            RefreshEvent::JoinFailed(e) => RefreshEventView::JoinFailed(e@),
            RefreshEvent::Validated => RefreshEventView::Validated,
            RefreshEvent::ValidationFailed(e) => RefreshEventView::ValidationFailed(e@),
        }
    }
}

/// What the transport is to do next in a refresh.
pub enum RefreshAction {
    /// Join the Minecraft server session with these credentials and server ID.
    Join { access_token: String, selected_profile: String, server_id: String },
    /// Send this validation call and report its result.
    SendValidation(Call),
    /// The refresh succeeds with the token that the validation returned.
    Deliver,
    /// The refresh fails with this error.
    Fail(ApiError),
    /// The event does not belong where the refresh stands; nothing changed.
    Ignore,
}

/// A refresh action as plain values.
pub enum RefreshActionView {
    Join { access_token: Seq<char>, selected_profile: Seq<char>, server_id: Seq<char> },
    SendValidation(CallView),
    Deliver,
    Fail(ApiErrorView),
    Ignore,
}

impl View for RefreshAction {
    type V = RefreshActionView;

    open spec fn view(&self) -> RefreshActionView {
        match self {
            RefreshAction::Join { access_token, selected_profile, server_id } =>
                RefreshActionView::Join {
                access_token: access_token@,
                selected_profile: selected_profile@,
                server_id: server_id@,
            },
            RefreshAction::SendValidation(c) => RefreshActionView::SendValidation(c@),
            RefreshAction::Deliver => RefreshActionView::Deliver,
            RefreshAction::Fail(e) => RefreshActionView::Fail(e@),
            RefreshAction::Ignore => RefreshActionView::Ignore,
        }
    }
}

/// A secure token refresh: the credentials it was started with and where it stands.
pub struct TokenRefresh {
    system_id: String,
    username: String,
    access_token: String,
    selected_profile: String,
    force: bool,
    is_experimental: bool,
    phase: RefreshPhase,
}

/// A refresh as plain values.
pub struct RefreshView {
    pub system_id: Seq<char>,
    pub username: Seq<char>,
    pub access_token: Seq<char>,
    pub selected_profile: Seq<char>,
    pub force: bool,
    pub is_experimental: bool,
    pub phase: RefreshPhaseView,
}

impl View for TokenRefresh {
    type V = RefreshView;

    closed spec fn view(&self) -> RefreshView {
        RefreshView {
            system_id: self.system_id@,
            username: self.username@,
            access_token: self.access_token@,
            selected_profile: self.selected_profile@,
            force: self.force,
            is_experimental: self.is_experimental,
            phase: self.phase@,
        }
    }
}

/// The same refresh, standing elsewhere.
pub open spec fn with_phase(s: RefreshView, p: RefreshPhaseView) -> RefreshView {
    RefreshView {
        system_id: s.system_id,
        username: s.username,
        access_token: s.access_token,
        selected_profile: s.selected_profile,
        force: s.force,
        is_experimental: s.is_experimental,
        phase: p,
    }
}

/// Joining the session with the refresh's credentials and a server ID.
pub open spec fn join_action(s: RefreshView, server_id: Seq<char>) -> RefreshActionView {
    RefreshActionView::Join {
        access_token: s.access_token,
        selected_profile: s.selected_profile,
        server_id,
    }
}

/// The validation call of a refresh for a server ID: a POST to
/// `launcher/auth/validate/v2` with force, hardware ID, user name and that
/// server ID as query parameters.
pub open spec fn validation_call(s: RefreshView, server_id: Seq<char>) -> CallView {
    CallView {
        operation: Operation::RefreshTokenV3,
        request: request_view(
            Method::Post,
            api_url(s.is_experimental, "launcher/auth/validate/v2"@),
            None,
            refresh_params(s.system_id, s.username, server_id, s.force),
            None,
        ),
    }
}

/// The step of a refresh: from where it stands and what the transport
/// reports, where it stands next and what is to be done.
pub open spec fn refresh_next(s: RefreshView, e: RefreshEventView) -> (RefreshPhaseView, RefreshActionView) {
    match s.phase {
        RefreshPhaseView::AwaitingServerId => match e {
            RefreshEventView::ServerIdIssued(id) => if server_id_prefix().is_prefix_of(id) {
                (RefreshPhaseView::AwaitingJoin { server_id: id }, join_action(s, id))
            } else {
                (RefreshPhaseView::Finished, RefreshActionView::Fail(invalid_server_id(id)))
            },
            RefreshEventView::ServerIdFailed(err) => (
                RefreshPhaseView::Finished,
                RefreshActionView::Fail(err),
            ),
            _ => (s.phase, RefreshActionView::Ignore),
        },
        RefreshPhaseView::AwaitingJoin { server_id } => match e {
            RefreshEventView::SessionJoined => (
                RefreshPhaseView::AwaitingValidation { server_id },
                RefreshActionView::SendValidation(validation_call(s, server_id)),
            ),
            RefreshEventView::JoinFailed(err) => (
                RefreshPhaseView::Finished,
                RefreshActionView::Fail(err),
            ),
            _ => (s.phase, RefreshActionView::Ignore),
        },
        RefreshPhaseView::AwaitingValidation { .. } => match e {
            RefreshEventView::Validated => (RefreshPhaseView::Finished, RefreshActionView::Deliver),
            RefreshEventView::ValidationFailed(err) => (
                RefreshPhaseView::Finished,
                RefreshActionView::Fail(err),
            ),
            _ => (s.phase, RefreshActionView::Ignore),
        },
        RefreshPhaseView::Finished => (s.phase, RefreshActionView::Ignore),
    }
}

impl TokenRefresh {
    /// Starts a secure token refresh: the refresh awaits the server ID, and
    /// the call to send first is the server ID request.
    pub fn start(
        system_id: &str,
        username: &str,
        access_token: &str,
        selected_profile: &str,
        force: bool,
        is_experimental: bool,
    ) -> (r: (TokenRefresh, Call))
        ensures
            r.0@ == (RefreshView {
                system_id: system_id@,
                username: username@,
                access_token: access_token@,
                selected_profile: selected_profile@,
                force,
                is_experimental,
                phase: RefreshPhaseView::AwaitingServerId,
            }),
            r.1.operation == Operation::RequestServerId,
            r.1.request@ == request_view(
                Method::Post,
                api_url(is_experimental, "launcher/auth/request-server-id"@),
                None,
                Seq::empty(),
                None,
            ),
    {
        let refresh = TokenRefresh {
            system_id: String::from_str(system_id),
            username: String::from_str(username),
            access_token: String::from_str(access_token),
            selected_profile: String::from_str(selected_profile),
            force,
            is_experimental,
            phase: RefreshPhase::AwaitingServerId,
        };
        (refresh, CopperApi::request_server_id(is_experimental))
    }

    /// Whether the refresh has its result.
    pub fn is_finished(&self) -> (r: bool)
        ensures
            r == (self@.phase is Finished),
    {
        match self.phase {
            RefreshPhase::Finished => true,
            _ => false,
        }
    }

    /// Takes in what the transport reports and says what to do next.
    pub fn step(&mut self, event: RefreshEvent) -> (a: RefreshAction)
        ensures
            final(self)@ == with_phase(old(self)@, refresh_next(old(self)@, event@).0),
            a@ == refresh_next(old(self)@, event@).1,
    {
        let mut phase = RefreshPhase::Finished;
        std::mem::swap(&mut phase, &mut self.phase);
        let (next_phase, action) = match phase {
            RefreshPhase::AwaitingServerId => match event {
                RefreshEvent::ServerIdIssued(id) => {
                    if has_prefix(id.as_str(), "nrc-") {
                        let join = RefreshAction::Join {
                            access_token: self.access_token.clone(),
                            selected_profile: self.selected_profile.clone(),
                            server_id: id.clone(),
                        };
                        (RefreshPhase::AwaitingJoin { server_id: id }, join)
                    } else {
                        let msg = text_after(
                            "Invalid server ID received from Copper API: ",
                            id.as_str(),
                        );
                        (RefreshPhase::Finished, RefreshAction::Fail(ApiError::RequestError(msg)))
                    }
                },
                RefreshEvent::ServerIdFailed(err) => (RefreshPhase::Finished, RefreshAction::Fail(err)),
                _ => (RefreshPhase::AwaitingServerId, RefreshAction::Ignore),
            },
            RefreshPhase::AwaitingJoin { server_id } => match event {
                RefreshEvent::SessionJoined => {
                    let call = CopperApi::refresh_norisk_token_v3(
                        self.system_id.as_str(),
                        self.username.as_str(),
                        server_id.as_str(),
                        self.force,
                        self.is_experimental,
                    );
                    (RefreshPhase::AwaitingValidation { server_id }, RefreshAction::SendValidation(call))
                },
                RefreshEvent::JoinFailed(err) => (RefreshPhase::Finished, RefreshAction::Fail(err)),
                _ => (RefreshPhase::AwaitingJoin { server_id }, RefreshAction::Ignore),
            },
            RefreshPhase::AwaitingValidation { server_id } => match event {
                RefreshEvent::Validated => (RefreshPhase::Finished, RefreshAction::Deliver),
                RefreshEvent::ValidationFailed(err) => (RefreshPhase::Finished, RefreshAction::Fail(err)),
                _ => (RefreshPhase::AwaitingValidation { server_id }, RefreshAction::Ignore),
            },
            RefreshPhase::Finished => (RefreshPhase::Finished, RefreshAction::Ignore),
        };
        self.phase = next_phase;
        action
    }
}

/// The refresh after a sequence of events, with the action of each event in order.
pub open spec fn refresh_run(s: RefreshView, events: Seq<RefreshEventView>) -> (
    RefreshView,
    Seq<RefreshActionView>,
)
    decreases events.len(),
{
    if events.len() == 0 {
        (s, Seq::empty())
    } else {
        let prev = refresh_run(s, events.drop_last());
        let step = refresh_next(prev.0, events.last());
        (with_phase(prev.0, step.0), prev.1.push(step.1))
    }
}

/// Where a phase stands in the order of a refresh.
pub open spec fn refresh_rank(p: RefreshPhaseView) -> nat {
    match p {
        RefreshPhaseView::AwaitingServerId => 0,
        RefreshPhaseView::AwaitingJoin { .. } => 1,
        RefreshPhaseView::AwaitingValidation { .. } => 2,
        RefreshPhaseView::Finished => 3,
    }
}

/// A run keeps the refresh's credentials and gives one action per event.
pub proof fn lemma_run_basics(s: RefreshView, events: Seq<RefreshEventView>)
    ensures
        refresh_run(s, events).1.len() == events.len(),
        refresh_run(s, events).0 == with_phase(s, refresh_run(s, events).0.phase),
    decreases events.len(),
{
    if events.len() > 0 {
        lemma_run_basics(s, events.drop_last());
    }
}

/// The actions of the first `n` events are the first `n` actions of the run.
pub proof fn lemma_run_prefix(s: RefreshView, events: Seq<RefreshEventView>, n: int)
    requires
        0 <= n <= events.len(),
    ensures
        refresh_run(s, events.take(n)).1 == refresh_run(s, events).1.take(n),
    decreases events.len(),
{
    lemma_run_basics(s, events);
    if n < events.len() {
        assert(events.take(n) =~= events.drop_last().take(n));
        lemma_run_prefix(s, events.drop_last(), n);
        lemma_run_basics(s, events.drop_last());
        assert(refresh_run(s, events).1.take(n) =~= refresh_run(s, events.drop_last()).1.take(n));
    } else {
        assert(events.take(n) =~= events);
        assert(refresh_run(s, events).1.take(n) =~= refresh_run(s, events).1);
    }
}

/// The action of the event at `k` is the step from where the refresh stood
/// after the events before it.
pub proof fn lemma_run_action(s: RefreshView, events: Seq<RefreshEventView>, k: int)
    requires
        0 <= k < events.len(),
    ensures
        refresh_run(s, events).1[k] == refresh_next(refresh_run(s, events.take(k)).0, events[k]).1,
        refresh_run(s, events.take(k + 1)).0.phase == refresh_next(
            refresh_run(s, events.take(k)).0,
            events[k],
        ).0,
{
    assert(events.take(k + 1).drop_last() =~= events.take(k));
    lemma_run_prefix(s, events, k + 1);
    lemma_run_basics(s, events.take(k + 1));
    lemma_run_basics(s, events.take(k));
    lemma_run_basics(s, events);
    let before = refresh_run(s, events.take(k));
    assert(events.take(k + 1).last() == events[k]);
    assert(refresh_run(s, events.take(k + 1)).1 == before.1.push(
        refresh_next(before.0, events[k]).1,
    ));
    assert(refresh_run(s, events.take(k + 1)).1[k] == refresh_next(before.0, events[k]).1);
    assert(refresh_run(s, events).1.take(k + 1)[k] == refresh_run(s, events).1[k]);
}

/// Along a run, the refresh never moves back.
pub proof fn lemma_rank_monotone(s: RefreshView, events: Seq<RefreshEventView>, n1: int, n2: int)
    requires
        0 <= n1 <= n2 <= events.len(),
    ensures
        refresh_rank(refresh_run(s, events.take(n1)).0.phase) <= refresh_rank(
            refresh_run(s, events.take(n2)).0.phase,
        ),
        refresh_run(s, events.take(n1)).0.phase is Finished ==> refresh_run(
            s,
            events.take(n2),
        ).0.phase is Finished,
    decreases n2 - n1,
{
    if n1 < n2 {
        lemma_rank_monotone(s, events, n1, n2 - 1);
        lemma_run_action(s, events, n2 - 1);
    }
}

/// From the start, a refresh that awaits the join holds an issued server ID
/// that begins with "nrc-" and was answered by a join with it; one that
/// awaits validation has, after that, had its session joined and sent the
/// validation with that same server ID.
pub proof fn lemma_run_milestones(s: RefreshView, events: Seq<RefreshEventView>)
    requires
        s.phase == RefreshPhaseView::AwaitingServerId,
    ensures
        ({
            let t = refresh_run(s, events).0;
            let acts = refresh_run(s, events).1;
            &&& t.phase matches RefreshPhaseView::AwaitingJoin { server_id } ==> {
                &&& server_id_prefix().is_prefix_of(server_id)
                &&& exists|i: int|
                    0 <= i < events.len() && events[i] == RefreshEventView::ServerIdIssued(server_id)
                        && acts[i] == join_action(s, server_id)
            }
            &&& t.phase matches RefreshPhaseView::AwaitingValidation { server_id } ==> {
                &&& server_id_prefix().is_prefix_of(server_id)
                &&& exists|i: int, j: int|
                    0 <= i < j < events.len() && events[i] == RefreshEventView::ServerIdIssued(
                        server_id,
                    ) && acts[i] == join_action(s, server_id) && events[j]
                        == RefreshEventView::SessionJoined && acts[j]
                        == RefreshActionView::SendValidation(validation_call(s, server_id))
            }
        }),
    decreases events.len(),
{
    if events.len() > 0 {
        let dl = events.drop_last();
        let k = events.len() - 1;
        lemma_run_milestones(s, dl);
        lemma_run_basics(s, dl);
        lemma_run_basics(s, events);
        let prev = refresh_run(s, dl);
        let t = refresh_run(s, events).0;
        let acts = refresh_run(s, events).1;
        assert(acts == prev.1.push(refresh_next(prev.0, events[k]).1));
        assert(forall|i: int| 0 <= i < k ==> events[i] == dl[i]);
        assert(forall|i: int| 0 <= i < k ==> acts[i] == prev.1[i]);
        match t.phase {
            RefreshPhaseView::AwaitingJoin { server_id } => {
                if prev.0.phase is AwaitingServerId {
                    assert(events[k] == RefreshEventView::ServerIdIssued(server_id));
                    assert(acts[k] == join_action(s, server_id));
                } else {
                    assert(prev.0.phase == t.phase);
                    let i = choose|i: int|
                        0 <= i < dl.len() && dl[i] == RefreshEventView::ServerIdIssued(server_id)
                            && prev.1[i] == join_action(s, server_id);
                    assert(events[i] == RefreshEventView::ServerIdIssued(server_id));
                    assert(acts[i] == join_action(s, server_id));
                }
            },
            RefreshPhaseView::AwaitingValidation { server_id } => {
                if prev.0.phase is AwaitingJoin {
                    assert(prev.0.phase == RefreshPhaseView::AwaitingJoin { server_id });
                    let i = choose|i: int|
                        0 <= i < dl.len() && dl[i] == RefreshEventView::ServerIdIssued(server_id)
                            && prev.1[i] == join_action(s, server_id);
                    assert(events[i] == RefreshEventView::ServerIdIssued(server_id));
                    assert(acts[i] == join_action(s, server_id));
                    assert(events[k] == RefreshEventView::SessionJoined);
                    assert(acts[k] == RefreshActionView::SendValidation(validation_call(s, server_id)));
                } else {
                    assert(prev.0.phase == t.phase);
                    let (i, j) = choose|i: int, j: int|
                        0 <= i < j < dl.len() && dl[i] == RefreshEventView::ServerIdIssued(server_id)
                            && prev.1[i] == join_action(s, server_id) && dl[j]
                            == RefreshEventView::SessionJoined && prev.1[j]
                            == RefreshActionView::SendValidation(validation_call(s, server_id));
                    assert(events[i] == RefreshEventView::ServerIdIssued(server_id));
                    assert(acts[i] == join_action(s, server_id));
                    assert(events[j] == RefreshEventView::SessionJoined);
                    assert(acts[j] == RefreshActionView::SendValidation(validation_call(s, server_id)));
                }
            },
            _ => {},
        }
    }
}

/// A refresh succeeds only on the validation's success, and only after the
/// API issued a server ID that begins with "nrc-", the session was joined
/// with the refresh's credentials and that server ID, and the validation was
/// sent with that same server ID, in that order.
pub proof fn law_refresh_succeeds_after_all_steps(
    s: RefreshView,
    events: Seq<RefreshEventView>,
    k: int,
)
    requires
        s.phase == RefreshPhaseView::AwaitingServerId,
        0 <= k < events.len(),
        refresh_run(s, events).1[k] == RefreshActionView::Deliver,
    ensures
        events[k] == RefreshEventView::Validated,
        exists|i: int, j: int, id: Seq<char>|
            0 <= i < j < k && server_id_prefix().is_prefix_of(id) && events[i]
                == RefreshEventView::ServerIdIssued(id) && refresh_run(s, events).1[i] == join_action(
                s,
                id,
            ) && events[j] == RefreshEventView::SessionJoined && refresh_run(s, events).1[j]
                == RefreshActionView::SendValidation(validation_call(s, id)),
{
    lemma_run_action(s, events, k);
    let before = refresh_run(s, events.take(k));
    lemma_run_milestones(s, events.take(k));
    lemma_run_prefix(s, events, k);
    lemma_run_basics(s, events);
    match before.0.phase {
        RefreshPhaseView::AwaitingValidation { server_id } => {
            let (i, j) = choose|i: int, j: int|
                0 <= i < j < events.take(k).len() && events.take(k)[i]
                    == RefreshEventView::ServerIdIssued(server_id) && before.1[i] == join_action(
                    s,
                    server_id,
                ) && events.take(k)[j] == RefreshEventView::SessionJoined && before.1[j]
                    == RefreshActionView::SendValidation(validation_call(s, server_id));
            assert(events[i] == RefreshEventView::ServerIdIssued(server_id));
            assert(refresh_run(s, events).1[i] == join_action(s, server_id));
            assert(refresh_run(s, events).1[j] == RefreshActionView::SendValidation(
                validation_call(s, server_id),
            ));
        },
        _ => {},
    }
}

/// The session is joined only with a server ID that the API issued in the
/// event it answers, one that begins with "nrc-", and with the refresh's
/// own access token and profile, while the refresh awaited that ID.
pub proof fn law_refresh_joins_with_issued_id(s: RefreshView, events: Seq<RefreshEventView>, k: int)
    requires
        0 <= k < events.len(),
        refresh_run(s, events).1[k] is Join,
    ensures
        refresh_run(s, events.take(k)).0.phase == RefreshPhaseView::AwaitingServerId,
        exists|id: Seq<char>|
            server_id_prefix().is_prefix_of(id) && events[k] == RefreshEventView::ServerIdIssued(id)
                && refresh_run(s, events).1[k] == join_action(s, id),
{
    lemma_run_action(s, events, k);
    lemma_run_basics(s, events.take(k));
    let before = refresh_run(s, events.take(k));
    match events[k] {
        RefreshEventView::ServerIdIssued(id) => {
            assert(join_action(before.0, id) == join_action(s, id));
        },
        _ => {},
    }
}

/// The validation is sent only after the session was joined, and with the
/// server ID that the API issued and the session was joined with.
pub proof fn law_refresh_validates_issued_id(
    s: RefreshView,
    events: Seq<RefreshEventView>,
    k: int,
)
    requires
        s.phase == RefreshPhaseView::AwaitingServerId,
        0 <= k < events.len(),
        refresh_run(s, events).1[k] is SendValidation,
    ensures
        events[k] == RefreshEventView::SessionJoined,
        exists|i: int, id: Seq<char>|
            0 <= i < k && server_id_prefix().is_prefix_of(id) && events[i]
                == RefreshEventView::ServerIdIssued(id) && refresh_run(s, events).1[i] == join_action(
                s,
                id,
            ) && refresh_run(s, events).1[k] == RefreshActionView::SendValidation(
                validation_call(s, id),
            ),
{
    lemma_run_action(s, events, k);
    let before = refresh_run(s, events.take(k));
    lemma_run_milestones(s, events.take(k));
    lemma_run_prefix(s, events, k);
    lemma_run_basics(s, events);
    lemma_run_basics(s, events.take(k));
    match before.0.phase {
        RefreshPhaseView::AwaitingJoin { server_id } => {
            let i = choose|i: int|
                0 <= i < events.take(k).len() && events.take(k)[i]
                    == RefreshEventView::ServerIdIssued(server_id) && before.1[i] == join_action(
                    s,
                    server_id,
                );
            assert(events[i] == RefreshEventView::ServerIdIssued(server_id));
            assert(refresh_run(s, events).1[i] == join_action(s, server_id));
            assert(validation_call(before.0, server_id) == validation_call(s, server_id));
        },
        _ => {},
    }
}

/// Once a refresh has its result (a success or a failure), every later event
/// is ignored: no join and no validation follow a failed step.
pub proof fn law_refresh_stops_after_outcome(
    s: RefreshView,
    events: Seq<RefreshEventView>,
    k: int,
    m: int,
)
    requires
        0 <= k < m < events.len(),
        refresh_run(s, events).1[k] is Deliver || refresh_run(s, events).1[k] is Fail,
    ensures
        refresh_run(s, events).1[m] is Ignore,
{
    lemma_run_action(s, events, k);
    lemma_rank_monotone(s, events, k + 1, m);
    lemma_run_action(s, events, m);
}

/// A refresh joins the session at most once and sends the validation at
/// most once.
pub proof fn law_refresh_each_step_once(
    s: RefreshView,
    events: Seq<RefreshEventView>,
    i: int,
    j: int,
)
    requires
        0 <= i < j < events.len(),
    ensures
        refresh_run(s, events).1[i] is Join ==> !(refresh_run(s, events).1[j] is Join),
        refresh_run(s, events).1[i] is SendValidation ==> !(refresh_run(
            s,
            events,
        ).1[j] is SendValidation),
{
    lemma_run_action(s, events, i);
    lemma_run_action(s, events, j);
    lemma_rank_monotone(s, events, i + 1, j);
}

/// A failed server ID request, a failed join or a failed validation ends the
/// refresh with that very error.
pub proof fn law_refresh_failure_ends(s: RefreshView, err: ApiErrorView)
    ensures
        s.phase is AwaitingServerId ==> refresh_next(s, RefreshEventView::ServerIdFailed(err)) == (
            RefreshPhaseView::Finished,
            RefreshActionView::Fail(err),
        ),
        s.phase is AwaitingJoin ==> refresh_next(s, RefreshEventView::JoinFailed(err)) == (
            RefreshPhaseView::Finished,
            RefreshActionView::Fail(err),
        ),
        s.phase is AwaitingValidation ==> refresh_next(s, RefreshEventView::ValidationFailed(err))
            == (RefreshPhaseView::Finished, RefreshActionView::Fail(err)),
{
}

} // verus!
