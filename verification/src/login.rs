//! The login path: find the user, check the password, issue a token, store
//! the session. The caller performs the lookup and the store that a step asks
//! for and hands the answer to the next step.

use vstd::prelude::*;
use crate::auth::{Credentials, CredentialsView, HashCheck, stored_check, authorize_user, is_session_token};
use crate::error::{AuthError, status_of};
use crate::models::{User, UserView};
use crate::session::{session_key, session_key_of};

verus! {

/// Where one login stands. The first two states wait for an answer; the
/// other two are final.
#[derive(Clone, Debug, PartialEq, Eq)]
pub enum LoginState {
    /// The user with the username of the credentials is asked for. `ttl` is
    /// the lifetime, in seconds, that the session is to have.
    AwaitingUser { credentials: Credentials, ttl: u64 },
    /// The password matched and the session of `token` is being stored for
    /// `user_id`, to last `ttl` seconds.
    AwaitingStore { token: String, user_id: i32, ttl: u64 },
    /// The session is stored; `token` goes to the client.
    LoggedIn { token: String },
    /// The login failed.
    Failed(AuthError),
}

/// An answer from outside.
#[derive(Clone, Debug, PartialEq, Eq)]
pub enum LoginEvent {
    /// The user with the username that was asked for, if there is one.
    User(Option<User>),
    /// Whether the session cache took the session.
    Stored(bool),
    /// The directory or the cache that was asked could not be reached.
    Unavailable,
}

/// What the caller is to do next.
#[derive(Clone, Debug, PartialEq, Eq)]
pub enum LoginAction {
    /// Fetch the user with this username and answer with `User`.
    FindUser { username: String },
    /// Store `user_id` under `key` for `ttl` seconds and answer with `Stored`.
    StoreSession { key: String, user_id: i32, ttl: u64 },
    /// Nothing is left to do: the state is final.
    Finish,
}

/// What a [`LoginState`] is to the contracts.
pub ghost enum LoginStateView {
    AwaitingUser { credentials: CredentialsView, ttl: u64 },
    AwaitingStore { token: Seq<char>, user_id: i32, ttl: u64 },
    LoggedIn { token: Seq<char> },
    Failed(AuthError),
}

/// What a [`LoginEvent`] is to the contracts.
pub ghost enum LoginEventView {
    User(Option<UserView>),
    Stored(bool),
    Unavailable,
}

/// What a [`LoginAction`] is to the contracts.
pub ghost enum LoginActionView {
    FindUser { username: Seq<char> },
    StoreSession { key: Seq<char>, user_id: i32, ttl: u64 },
    Finish,
}

impl View for LoginState {
    type V = LoginStateView;

    open spec fn view(&self) -> LoginStateView {
        match self {
            LoginState::AwaitingUser { credentials, ttl } => LoginStateView::AwaitingUser {
                credentials: credentials@,
                ttl: *ttl,
            },
            LoginState::AwaitingStore { token, user_id, ttl } => LoginStateView::AwaitingStore {
                token: token@,
                user_id: *user_id,
                ttl: *ttl,
            },
            LoginState::LoggedIn { token } => LoginStateView::LoggedIn { token: token@ },
            LoginState::Failed(e) => LoginStateView::Failed(*e),
        }
    }
}

impl View for LoginEvent {
    type V = LoginEventView;

    open spec fn view(&self) -> LoginEventView {
        match self {
            LoginEvent::User(Some(user)) => LoginEventView::User(Some(user@)),
            LoginEvent::User(None) => LoginEventView::User(None),
            LoginEvent::Stored(ok) => LoginEventView::Stored(*ok),
            LoginEvent::Unavailable => LoginEventView::Unavailable,
        }
    }
}

impl View for LoginAction {
    type V = LoginActionView;

    open spec fn view(&self) -> LoginActionView {
        match self {
            LoginAction::FindUser { username } => LoginActionView::FindUser { username: username@ },
            LoginAction::StoreSession { key, user_id, ttl } => LoginActionView::StoreSession {
                key: key@,
                user_id: *user_id,
                ttl: *ttl,
            },
            LoginAction::Finish => LoginActionView::Finish,
        }
    }
}

/// What a state asks of the caller.
pub open spec fn login_action(state: LoginStateView) -> LoginActionView {
    match state {
        LoginStateView::AwaitingUser { credentials, .. } => LoginActionView::FindUser {
            username: credentials.username,
        },
        LoginStateView::AwaitingStore { token, user_id, ttl } => LoginActionView::StoreSession {
            key: session_key(token),
            user_id,
            ttl,
        },
        _ => LoginActionView::Finish,
    }
}

/// Whether `next` is a state that the login may reach from `state` on
/// `event`, where `check` is how the password of the credentials stands to
/// the hash of the user that was found. All of the step is fixed but the
/// token, which is fresh and has the form of a session token. A directory or
/// a cache that could not be reached fails the login as unavailable, which is
/// neither a missing user nor a wrong password. An event that does not answer
/// what the state waits for changes nothing, and nothing changes a final
/// state.
pub open spec fn login_steps(
    state: LoginStateView,
    event: LoginEventView,
    check: HashCheck,
    next: LoginStateView,
) -> bool {
    match (state, event) {
        (LoginStateView::AwaitingUser { .. }, LoginEventView::User(None)) => {
            next == LoginStateView::Failed(AuthError::InvalidCredentials)
        },
        (LoginStateView::AwaitingUser { ttl, .. }, LoginEventView::User(Some(user))) => {
            if check == HashCheck::Match {
                &&& next is AwaitingStore
                &&& is_session_token(next->AwaitingStore_token)
                &&& next->AwaitingStore_user_id == user.id
                &&& next->AwaitingStore_ttl == ttl
            } else {
                next == LoginStateView::Failed(AuthError::InvalidCredentials)
            }
        },
        (LoginStateView::AwaitingStore { token, .. }, LoginEventView::Stored(true)) => {
            next == (LoginStateView::LoggedIn { token })
        },
        (LoginStateView::AwaitingStore { .. }, LoginEventView::Stored(false)) => {
            next == LoginStateView::Failed(AuthError::StoreUnavailable)
        },
        (LoginStateView::AwaitingUser { .. }, LoginEventView::Unavailable) => {
            next == LoginStateView::Failed(AuthError::StoreUnavailable)
        },
        (LoginStateView::AwaitingStore { .. }, LoginEventView::Unavailable) => {
            next == LoginStateView::Failed(AuthError::StoreUnavailable)
        },
        _ => next == state,
    }
}

/// How the password of the credentials in `state` stands to the hash of the
/// user in `event`; where the step checks no password, a mismatch.
pub open spec fn check_of(state: LoginStateView, event: LoginEventView) -> HashCheck {
    match (state, event) {
        (
            LoginStateView::AwaitingUser { credentials, .. },
            LoginEventView::User(Some(user)),
        ) => stored_check(user.password, credentials.password),
        _ => HashCheck::Mismatch,
    }
}

/// What the client is answered with once the state is final.
pub open spec fn login_outcome(state: LoginStateView) -> Option<Result<Seq<char>, AuthError>> {
    match state {
        LoginStateView::LoggedIn { token } => Some(Ok(token)),
        LoginStateView::Failed(e) => Some(Err(e)),
        _ => None,
    }
}

/// The state after the user lookup, given the user's id with what the
/// password check and the issue of a token brought, or `None` where no user
/// was found. A missing user and a failed check give the same state.
pub fn login_decide(found: Option<(i32, Result<String, AuthError>)>, ttl: u64) -> (next: LoginState)
    ensures
        match found {
            Some((user_id, Ok(token))) => next@ == (LoginStateView::AwaitingStore {
                token: token@,
                user_id,
                ttl,
            }),
            _ => next@ == LoginStateView::Failed(AuthError::InvalidCredentials),
        },
{
    match found {
        Some((user_id, Ok(token))) => LoginState::AwaitingStore { token, user_id, ttl },
        _ => LoginState::Failed(AuthError::InvalidCredentials),
    }
}

impl LoginState {
    /// The state in which a login with these credentials begins. Sessions
    /// that it stores last `ttl` seconds.
    pub fn start(credentials: Credentials, ttl: u64) -> (state: LoginState)
        ensures
            state@ == (LoginStateView::AwaitingUser { credentials: credentials@, ttl }),
    {
        LoginState::AwaitingUser { credentials, ttl }
    }

    /// What this state asks of the caller.
    pub fn action(&self) -> (action: LoginAction)
        ensures
            action@ == login_action(self@),
    {
        match self {
            LoginState::AwaitingUser { credentials, .. } => LoginAction::FindUser {
                username: credentials.username.clone(),
            },
            LoginState::AwaitingStore { token, user_id, ttl } => LoginAction::StoreSession {
                key: session_key_of(token.as_str()),
                user_id: *user_id,
                ttl: *ttl,
            },
            _ => LoginAction::Finish,
        }
    }

    /// Takes one event and moves to the next state.
    pub fn step(self, event: LoginEvent) -> (next: LoginState)
        ensures
            login_steps(self@, event@, check_of(self@, event@), next@),
    {
        match (self, event) {
            (LoginState::AwaitingUser { ttl, .. }, LoginEvent::User(None)) => login_decide(
                None,
                ttl,
            ),
            (LoginState::AwaitingUser { credentials, ttl }, LoginEvent::User(Some(user))) => {
                let issued = authorize_user(&user, &credentials);
                login_decide(Some((user.id, issued)), ttl)
            },
            (LoginState::AwaitingStore { token, .. }, LoginEvent::Stored(true)) => {
                LoginState::LoggedIn { token }
            },
            (LoginState::AwaitingStore { .. }, LoginEvent::Stored(false)) => LoginState::Failed(
                AuthError::StoreUnavailable,
            ),
            (LoginState::AwaitingUser { .. }, LoginEvent::Unavailable) => LoginState::Failed(
                AuthError::StoreUnavailable,
            ),
            (LoginState::AwaitingStore { .. }, LoginEvent::Unavailable) => LoginState::Failed(
                AuthError::StoreUnavailable,
            ),
            (state, _) => state,
        }
    }

    /// The answer to the client, once the state is final.
    pub fn outcome(self) -> (r: Option<Result<String, AuthError>>)
        ensures
            match r {
                Some(Ok(token)) => login_outcome(self@) == Some(
                    Ok::<Seq<char>, AuthError>(token@),
                ),
                Some(Err(e)) => login_outcome(self@) == Some(Err::<Seq<char>, AuthError>(e)),
                None => login_outcome(self@) is None,
            },
    {
        match self {
            LoginState::LoggedIn { token } => Some(Ok(token)),
            LoginState::Failed(e) => Some(Err(e)),
            _ => None,
        }
    }
}

/// Begins a login and says what the caller is to do first.
pub fn login_start(credentials: Credentials, ttl: u64) -> (r: (LoginState, LoginAction))
    ensures
        r.0@ == (LoginStateView::AwaitingUser { credentials: credentials@, ttl }),
        r.1@ == (LoginActionView::FindUser { username: credentials.username@ }),
{
    let state = LoginState::start(credentials, ttl);
    let action = state.action();
    (state, action)
}

/// Takes one event, and says with the next state what the caller is to do.
pub fn login_step(state: LoginState, event: LoginEvent) -> (r: (LoginState, LoginAction))
    ensures
        login_steps(state@, event@, check_of(state@, event@), r.0@),
        r.1@ == login_action(r.0@),
{
    let next = state.step(event);
    let action = next.action();
    (next, action)
}

/// A login with a wrong password and a login with an unknown username end
/// alike: the same final state, the same answer, nothing more to do. So does a
/// login against a stored hash that cannot be read.
pub proof fn lemma_failed_logins_alike(
    state: LoginStateView,
    user: UserView,
    check: HashCheck,
    wrong_password: LoginStateView,
    unknown_user: LoginStateView,
)
    requires
        state is AwaitingUser,
        check != HashCheck::Match,
        login_steps(state, LoginEventView::User(Some(user)), check, wrong_password),
        login_steps(state, LoginEventView::User(None), HashCheck::Mismatch, unknown_user),
    ensures
        wrong_password == unknown_user,
        login_outcome(wrong_password) == Some(
            Err::<Seq<char>, AuthError>(AuthError::InvalidCredentials),
        ),
        login_action(wrong_password) == LoginActionView::Finish,
{
}

/// A directory or a cache that cannot be reached fails the login as
/// unavailable, with a server status, where a missing user fails it as
/// invalid credentials, with a client status.
pub proof fn lemma_unavailable_is_no_miss(
    state: LoginStateView,
    unreachable: LoginStateView,
    missing: LoginStateView,
)
    requires
        state is AwaitingUser || state is AwaitingStore,
        login_steps(state, LoginEventView::Unavailable, HashCheck::Mismatch, unreachable),
        login_steps(state, LoginEventView::User(None), HashCheck::Mismatch, missing),
    ensures
        login_outcome(unreachable) == Some(
            Err::<Seq<char>, AuthError>(AuthError::StoreUnavailable),
        ),
        login_outcome(missing) != login_outcome(unreachable),
        status_of(AuthError::StoreUnavailable) == 500,
        status_of(AuthError::InvalidCredentials) == 401,
{
}

/// A login that succeeds answers with a token of 128 letters and digits, the
/// one whose session the caller was asked to store, under the key of that
/// token and for the user that was found.
pub proof fn lemma_login_token(
    state: LoginStateView,
    user: UserView,
    stored: LoginStateView,
    done: LoginStateView,
)
    requires
        state is AwaitingUser,
        login_steps(state, LoginEventView::User(Some(user)), HashCheck::Match, stored),
        login_steps(stored, LoginEventView::Stored(true), HashCheck::Mismatch, done),
    ensures
        login_outcome(done) is Some,
        login_outcome(done)->0 is Ok,
        is_session_token(login_outcome(done)->0->Ok_0),
        login_action(stored) == (LoginActionView::StoreSession {
            key: session_key(login_outcome(done)->0->Ok_0),
            user_id: user.id,
            ttl: state->AwaitingUser_ttl,
        }),
{
}

} // verus!
