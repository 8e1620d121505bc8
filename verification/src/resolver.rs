//! Session resolution: from the `Authorization` header of a request to the
//! user behind it, one lookup at a time. The caller performs each lookup that
//! a step asks for and hands the answer to the next step.

use vstd::prelude::*;
use crate::auth::{is_alphanumeric_char, is_session_token};
use crate::bearer::{bearer_text, bearer_token, has_no_space, is_space, lemma_bearer_format, parse_bearer};
use crate::error::AuthError;
use crate::models::{User, UserView};
use crate::session::{session_key, session_key_of};

verus! {

/// Where the resolution of one request stands. The first three states wait
/// for an answer; the other six are final.
#[derive(Clone, Debug, PartialEq, Eq)]
pub enum ResolverState {
    /// The header has not been read yet.
    AwaitingHeader,
    /// The header was a bearer header; the session kept under `key` is asked for.
    AwaitingSession { key: String },
    /// The session names `user_id`; that user is asked for.
    AwaitingUser { user_id: i32 },
    /// The request has no `Authorization` header.
    NoToken,
    /// The header is not a bearer header.
    MalformedHeader,
    /// No session is kept for the token.
    TokenNotFound,
    /// The session names a user that does not exist.
    UserMissing,
    /// The session cache or the user directory could not be reached.
    StoreUnavailable,
    /// The request comes from this user.
    Resolved(User),
}

/// An answer from outside.
#[derive(Clone, Debug, PartialEq, Eq)]
pub enum ResolverEvent {
    /// The value of the `Authorization` header, if the request has one.
    Header(Option<String>),
    /// The user id kept in the session, if the cache holds the key.
    Session(Option<i32>),
    /// The user with the id that was asked for, if there is one.
    User(Option<User>),
    /// The cache or the directory that was asked could not be reached.
    Unavailable,
}

/// What the caller is to do next.
#[derive(Clone, Debug, PartialEq, Eq)]
pub enum ResolverAction {
    /// Read the `Authorization` header and answer with `Header`.
    ReadHeader,
    /// Look `key` up in the session cache and answer with `Session`.
    LookupSession { key: String },
    /// Fetch the user with this id and answer with `User`.
    LookupUser { id: i32 },
    /// Nothing is left to do: the state is final.
    Finish,
}

/// What a [`ResolverState`] is to the contracts.
pub ghost enum ResolverStateView {
    AwaitingHeader,
    AwaitingSession { key: Seq<char> },
    AwaitingUser { user_id: i32 },
    NoToken,
    MalformedHeader,
    TokenNotFound,
    UserMissing,
    StoreUnavailable,
    Resolved(UserView),
}

/// What a [`ResolverEvent`] is to the contracts.
pub ghost enum ResolverEventView {
    Header(Option<Seq<char>>),
    Session(Option<i32>),
    User(Option<UserView>),
    Unavailable,
}

/// What a [`ResolverAction`] is to the contracts.
pub ghost enum ResolverActionView {
    ReadHeader,
    LookupSession { key: Seq<char> },
    LookupUser { id: i32 },
    Finish,
}

impl View for ResolverState {
    type V = ResolverStateView;

    open spec fn view(&self) -> ResolverStateView {
        match self {
            ResolverState::AwaitingHeader => ResolverStateView::AwaitingHeader,
            ResolverState::AwaitingSession { key } => ResolverStateView::AwaitingSession {
                key: key@,
            },
            ResolverState::AwaitingUser { user_id } => ResolverStateView::AwaitingUser {
                user_id: *user_id,
            },
            ResolverState::NoToken => ResolverStateView::NoToken,
            ResolverState::MalformedHeader => ResolverStateView::MalformedHeader,
            ResolverState::TokenNotFound => ResolverStateView::TokenNotFound,
            ResolverState::UserMissing => ResolverStateView::UserMissing,
            ResolverState::StoreUnavailable => ResolverStateView::StoreUnavailable,
            ResolverState::Resolved(user) => ResolverStateView::Resolved(user@),
        }
    }
}

impl View for ResolverEvent {
    type V = ResolverEventView;

    open spec fn view(&self) -> ResolverEventView {
        match self {
            ResolverEvent::Header(Some(h)) => ResolverEventView::Header(Some(h@)),
            ResolverEvent::Header(None) => ResolverEventView::Header(None),
            ResolverEvent::Session(id) => ResolverEventView::Session(*id),
            ResolverEvent::User(Some(user)) => ResolverEventView::User(Some(user@)),
            ResolverEvent::User(None) => ResolverEventView::User(None),
            ResolverEvent::Unavailable => ResolverEventView::Unavailable,
        }
    }
}

impl View for ResolverAction {
    type V = ResolverActionView;

    open spec fn view(&self) -> ResolverActionView {
        match self {
            ResolverAction::ReadHeader => ResolverActionView::ReadHeader,
            ResolverAction::LookupSession { key } => ResolverActionView::LookupSession {
                key: key@,
            },
            ResolverAction::LookupUser { id } => ResolverActionView::LookupUser { id: *id },
            ResolverAction::Finish => ResolverActionView::Finish,
        }
    }
}

/// Whether a state is final.
pub open spec fn is_final(state: ResolverStateView) -> bool {
    match state {
        ResolverStateView::AwaitingHeader => false,
        ResolverStateView::AwaitingSession { .. } => false,
        ResolverStateView::AwaitingUser { .. } => false,
        _ => true,
    }
}

/// The state after an event. A lookup that could not be made ends the
/// resolution as unavailable, which is no miss. An event that does not answer
/// what the state waits for changes nothing, and nothing changes a final
/// state.
pub open spec fn next_state(state: ResolverStateView, event: ResolverEventView) -> ResolverStateView {
    match (state, event) {
        (ResolverStateView::AwaitingHeader, ResolverEventView::Header(None)) => {
            ResolverStateView::NoToken
        },
        (ResolverStateView::AwaitingHeader, ResolverEventView::Header(Some(header))) => {
            match bearer_token(header) {
                Some(token) => ResolverStateView::AwaitingSession { key: session_key(token) },
                None => ResolverStateView::MalformedHeader,
            }
        },
        (ResolverStateView::AwaitingSession { .. }, ResolverEventView::Session(None)) => {
            ResolverStateView::TokenNotFound
        },
        (ResolverStateView::AwaitingSession { .. }, ResolverEventView::Session(Some(user_id))) => {
            ResolverStateView::AwaitingUser { user_id }
        },
        (ResolverStateView::AwaitingUser { .. }, ResolverEventView::User(None)) => {
            ResolverStateView::UserMissing
        },
        (ResolverStateView::AwaitingUser { .. }, ResolverEventView::User(Some(user))) => {
            ResolverStateView::Resolved(user)
        },
        (ResolverStateView::AwaitingSession { .. }, ResolverEventView::Unavailable) => {
            ResolverStateView::StoreUnavailable
        },
        (ResolverStateView::AwaitingUser { .. }, ResolverEventView::Unavailable) => {
            ResolverStateView::StoreUnavailable
        },
        _ => state,
    }
}

/// What a state asks of the caller.
pub open spec fn pending_action(state: ResolverStateView) -> ResolverActionView {
    match state {
        ResolverStateView::AwaitingHeader => ResolverActionView::ReadHeader,
        ResolverStateView::AwaitingSession { key } => ResolverActionView::LookupSession { key },
        ResolverStateView::AwaitingUser { user_id } => ResolverActionView::LookupUser {
            id: user_id,
        },
        _ => ResolverActionView::Finish,
    }
}

/// What the request is answered with once the state is final: the user, the
/// error of a store that could not be reached, or the one error that stands
/// for every way in which the request fails to name a user.
pub open spec fn outcome_of(state: ResolverStateView) -> Option<Result<UserView, AuthError>> {
    match state {
        ResolverStateView::AwaitingHeader => None,
        ResolverStateView::AwaitingSession { .. } => None,
        ResolverStateView::AwaitingUser { .. } => None,
        ResolverStateView::Resolved(user) => Some(Ok(user)),
        ResolverStateView::StoreUnavailable => Some(Err(AuthError::StoreUnavailable)),
        _ => Some(Err(AuthError::Unauthenticated)),
    }
}

impl ResolverState {
    /// The state in which every resolution begins.
    pub fn start() -> (state: ResolverState)
        ensures
            state@ == ResolverStateView::AwaitingHeader,
    {
        ResolverState::AwaitingHeader
    }

    /// What this state asks of the caller.
    pub fn action(&self) -> (action: ResolverAction)
        ensures
            action@ == pending_action(self@),
    {
        match self {
            ResolverState::AwaitingHeader => ResolverAction::ReadHeader,
            ResolverState::AwaitingSession { key } => ResolverAction::LookupSession {
                key: key.clone(),
            },
            ResolverState::AwaitingUser { user_id } => ResolverAction::LookupUser { id: *user_id },
            _ => ResolverAction::Finish,
        }
    }

    /// Takes one event and moves to the next state.
    pub fn step(self, event: ResolverEvent) -> (next: ResolverState)
        ensures
            next@ == next_state(self@, event@),
    {
        match (self, event) {
            (ResolverState::AwaitingHeader, ResolverEvent::Header(None)) => ResolverState::NoToken,
            (ResolverState::AwaitingHeader, ResolverEvent::Header(Some(header))) => {
                match parse_bearer(header.as_str()) {
                    Some(token) => ResolverState::AwaitingSession {
                        key: session_key_of(token.as_str()),
                    },
                    None => ResolverState::MalformedHeader,
                }
            },
            (ResolverState::AwaitingSession { .. }, ResolverEvent::Session(None)) => {
                ResolverState::TokenNotFound
            },
            (ResolverState::AwaitingSession { .. }, ResolverEvent::Session(Some(user_id))) => {
                ResolverState::AwaitingUser { user_id }
            },
            (ResolverState::AwaitingUser { .. }, ResolverEvent::User(None)) => {
                ResolverState::UserMissing
            },
            (ResolverState::AwaitingUser { .. }, ResolverEvent::User(Some(user))) => {
                ResolverState::Resolved(user)
            },
            (ResolverState::AwaitingSession { .. }, ResolverEvent::Unavailable) => {
                ResolverState::StoreUnavailable
            },
            (ResolverState::AwaitingUser { .. }, ResolverEvent::Unavailable) => {
                ResolverState::StoreUnavailable
            },
            (state, _) => state,
        }
    }

    /// The answer to the request, once the state is final.
    pub fn outcome(self) -> (r: Option<Result<User, AuthError>>)
        ensures
            match r {
                Some(Ok(user)) => outcome_of(self@) == Some(Ok::<UserView, AuthError>(user@)),
                Some(Err(e)) => outcome_of(self@) == Some(Err::<UserView, AuthError>(e)),
                None => outcome_of(self@) is None,
            },
    {
        match self {
            ResolverState::AwaitingHeader => None,
            ResolverState::AwaitingSession { .. } => None,
            ResolverState::AwaitingUser { .. } => None,
            ResolverState::Resolved(user) => Some(Ok(user)),
            ResolverState::StoreUnavailable => Some(Err(AuthError::StoreUnavailable)),
            _ => Some(Err(AuthError::Unauthenticated)),
        }
    }
}

/// Takes one event, and says with the next state what the caller is to do.
pub fn resolver_step(state: ResolverState, event: ResolverEvent) -> (r: (
    ResolverState,
    ResolverAction,
))
    ensures
        r.0@ == next_state(state@, event@),
        r.1@ == pending_action(r.0@),
{
    let next = state.step(event);
    let action = next.action();
    (next, action)
}

/// The event that answers a session lookup: `None` where the cache could not
/// be reached, and else what it holds for the key.
pub open spec fn session_event(answer: Option<Option<i32>>) -> ResolverEventView {
    match answer {
        Some(found) => ResolverEventView::Session(found),
        None => ResolverEventView::Unavailable,
    }
}

/// The event that answers a user lookup: `None` where the directory could not
/// be reached, and else what it holds for the id.
pub open spec fn user_event(answer: Option<Option<UserView>>) -> ResolverEventView {
    match answer {
        Some(found) => ResolverEventView::User(found),
        None => ResolverEventView::Unavailable,
    }
}

/// The whole path of one request, given the answers that the lookups would
/// give: the header, the session behind a key, the user behind an id. A
/// lookup answers `None` where its store cannot be reached.
pub open spec fn resolution(
    header: Option<Seq<char>>,
    sessions: spec_fn(Seq<char>) -> Option<Option<i32>>,
    users: spec_fn(i32) -> Option<Option<UserView>>,
) -> ResolverStateView {
    let after_header = next_state(
        ResolverStateView::AwaitingHeader,
        ResolverEventView::Header(header),
    );
    match after_header {
        ResolverStateView::AwaitingSession { key } => {
            let after_session = next_state(after_header, session_event(sessions(key)));
            match after_session {
                ResolverStateView::AwaitingUser { user_id } => next_state(
                    after_session,
                    user_event(users(user_id)),
                ),
                _ => after_session,
            }
        },
        _ => after_header,
    }
}

/// Resolution ends after at most three answers, in a final state, and it ends
/// with a user exactly when the header is a bearer header, the token has a
/// session and the session's user exists; then it is that user. A store that
/// cannot be reached ends it as unavailable, and that is the only way to that
/// error. Every other request is unauthenticated, whichever step failed.
pub proof fn lemma_resolution(
    header: Option<Seq<char>>,
    sessions: spec_fn(Seq<char>) -> Option<Option<i32>>,
    users: spec_fn(i32) -> Option<Option<UserView>>,
)
    ensures
        is_final(resolution(header, sessions, users)),
        header is None ==> resolution(header, sessions, users) == ResolverStateView::NoToken,
        header is Some && bearer_token(header->0) is None ==> resolution(header, sessions, users)
            == ResolverStateView::MalformedHeader,
        header is Some && bearer_token(header->0) is Some ==> {
            let key = session_key(bearer_token(header->0)->0);
            match sessions(key) {
                None => resolution(header, sessions, users) == ResolverStateView::StoreUnavailable,
                Some(None) => resolution(header, sessions, users)
                    == ResolverStateView::TokenNotFound,
                Some(Some(user_id)) => match users(user_id) {
                    None => resolution(header, sessions, users)
                        == ResolverStateView::StoreUnavailable,
                    Some(None) => resolution(header, sessions, users)
                        == ResolverStateView::UserMissing,
                    Some(Some(user)) => resolution(header, sessions, users)
                        == ResolverStateView::Resolved(user),
                },
            }
        },
        outcome_of(resolution(header, sessions, users)) == (match resolution(
            header,
            sessions,
            users,
        ) {
            ResolverStateView::Resolved(user) => Some(Ok::<UserView, AuthError>(user)),
            ResolverStateView::StoreUnavailable => Some(
                Err::<UserView, AuthError>(AuthError::StoreUnavailable),
            ),
            _ => Some(Err::<UserView, AuthError>(AuthError::Unauthenticated)),
        }),
{
}

/// The header that a client sends for a token.
pub open spec fn bearer_header(token: Seq<char>) -> Seq<char> {
    bearer_text() + seq![' '] + token
}

/// A token of the form that login issues, sent in a bearer header, resolves
/// to the user whose session is kept under the key of that token, as long as
/// that user exists.
pub proof fn lemma_issued_token_resolves(
    token: Seq<char>,
    user: UserView,
    sessions: spec_fn(Seq<char>) -> Option<Option<i32>>,
    users: spec_fn(i32) -> Option<Option<UserView>>,
)
    requires
        is_session_token(token),
        sessions(session_key(token)) == Some(Some(user.id)),
        users(user.id) == Some(Some(user)),
    ensures
        bearer_token(bearer_header(token)) == Some(token),
        resolution(Some(bearer_header(token)), sessions, users) == ResolverStateView::Resolved(
            user,
        ),
{
    assert(has_no_space(token)) by {
        assert forall|i: int| 0 <= i < token.len() implies !is_space(#[trigger] token[i]) by {
            assert(is_alphanumeric_char(token[i]));
        }
    }
    lemma_bearer_format(token);
}

/// A final state stays as it is under every event, and asks for nothing more.
pub proof fn lemma_final_states_stay(state: ResolverStateView, event: ResolverEventView)
    requires
        is_final(state),
    ensures
        next_state(state, event) == state,
        pending_action(state) == ResolverActionView::Finish,
        outcome_of(state) is Some,
{
}

} // verus!
