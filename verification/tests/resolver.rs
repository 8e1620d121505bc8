use eshop_auth::error::AuthError;
use eshop_auth::models::User;
use eshop_auth::resolver::{resolver_step, ResolverAction, ResolverEvent, ResolverState};
use eshop_auth::session::SessionStore;

fn alice() -> User {
    User {
        id: 7,
        username: "alice".to_string(),
        password: "$argon2id$stored".to_string(),
        email: "alice@example.com".to_string(),
        created_at: 0,
    }
}

fn find_user(users: &[User], id: i32) -> Option<User> {
    users.iter().find(|u| u.id == id).cloned()
}

fn resolve(header: Option<&str>, store: &SessionStore, now: u64, users: &[User]) -> ResolverState {
    let mut state = ResolverState::start();
    loop {
        let event = match state.action() {
            ResolverAction::ReadHeader => ResolverEvent::Header(header.map(|h| h.to_string())),
            ResolverAction::LookupSession { key } => {
                let token = key.strip_prefix("session:").unwrap().to_string();
                ResolverEvent::Session(store.get(&token, now))
            }
            ResolverAction::LookupUser { id } => ResolverEvent::User(find_user(users, id)),
            ResolverAction::Finish => return state,
        };
        state = state.step(event);
    }
}

fn store_with(token: &str, user_id: i32) -> SessionStore {
    let mut store = SessionStore::new();
    store.put(token, user_id, 3600, 100);
    store
}

#[test]
fn starts_by_reading_the_header() {
    let state = ResolverState::start();
    assert_eq!(state, ResolverState::AwaitingHeader);
    assert_eq!(state.action(), ResolverAction::ReadHeader);
    assert_eq!(state.outcome(), None);
}

#[test]
fn no_header_is_unauthenticated() {
    let state = resolve(None, &store_with("tok", 7), 200, &[alice()]);
    assert_eq!(state, ResolverState::NoToken);
    assert_eq!(state.outcome(), Some(Err(AuthError::Unauthenticated)));
}

#[test]
fn bearer_alone_is_unauthenticated() {
    let state = resolve(Some("Bearer"), &store_with("tok", 7), 200, &[alice()]);
    assert_eq!(state, ResolverState::MalformedHeader);
    assert_eq!(state.outcome(), Some(Err(AuthError::Unauthenticated)));
}

#[test]
fn unknown_token_is_unauthenticated() {
    let state = resolve(Some("Bearer badtoken"), &store_with("tok", 7), 200, &[alice()]);
    assert_eq!(state, ResolverState::TokenNotFound);
    assert_eq!(state.outcome(), Some(Err(AuthError::Unauthenticated)));
}

#[test]
fn session_of_a_deleted_user_is_unauthenticated() {
    let state = resolve(Some("Bearer tok"), &store_with("tok", 8), 200, &[alice()]);
    assert_eq!(state, ResolverState::UserMissing);
    assert_eq!(state.outcome(), Some(Err(AuthError::Unauthenticated)));
}

#[test]
fn valid_session_resolves_to_its_user() {
    let state = resolve(Some("Bearer tok"), &store_with("tok", 7), 200, &[alice()]);
    assert_eq!(state, ResolverState::Resolved(alice()));
    assert_eq!(state.outcome(), Some(Ok(alice())));
}

#[test]
fn expired_session_is_unauthenticated() {
    let state = resolve(Some("Bearer tok"), &store_with("tok", 7), 3700, &[alice()]);
    assert_eq!(state, ResolverState::TokenNotFound);
}

#[test]
fn wrong_scheme_is_malformed() {
    for header in ["Basic tok", "bearer tok", "Bearer tok extra", "tok", ""] {
        let state = resolve(Some(header), &store_with("tok", 7), 200, &[alice()]);
        assert_eq!(state, ResolverState::MalformedHeader, "{:?}", header);
    }
}

#[test]
fn header_step_asks_for_the_session_key() {
    let (state, action) = resolver_step(
        ResolverState::start(),
        ResolverEvent::Header(Some("Bearer abc".to_string())),
    );
    assert_eq!(state, ResolverState::AwaitingSession { key: "session:abc".to_string() });
    assert_eq!(action, ResolverAction::LookupSession { key: "session:abc".to_string() });
}

#[test]
fn session_step_asks_for_the_user() {
    let (state, action) = resolver_step(
        ResolverState::AwaitingSession { key: "session:abc".to_string() },
        ResolverEvent::Session(Some(12)),
    );
    assert_eq!(state, ResolverState::AwaitingUser { user_id: 12 });
    assert_eq!(action, ResolverAction::LookupUser { id: 12 });
}

#[test]
fn user_step_finishes() {
    let (state, action) =
        resolver_step(ResolverState::AwaitingUser { user_id: 7 }, ResolverEvent::User(Some(alice())));
    assert_eq!(state, ResolverState::Resolved(alice()));
    assert_eq!(action, ResolverAction::Finish);
    let (state, action) =
        resolver_step(ResolverState::AwaitingUser { user_id: 7 }, ResolverEvent::User(None));
    assert_eq!(state, ResolverState::UserMissing);
    assert_eq!(action, ResolverAction::Finish);
}

#[test]
fn an_event_out_of_turn_changes_nothing() {
    let (state, action) =
        resolver_step(ResolverState::AwaitingHeader, ResolverEvent::User(Some(alice())));
    assert_eq!(state, ResolverState::AwaitingHeader);
    assert_eq!(action, ResolverAction::ReadHeader);
    let waiting = ResolverState::AwaitingSession { key: "session:abc".to_string() };
    let (state, action) = resolver_step(waiting.clone(), ResolverEvent::User(Some(alice())));
    assert_eq!(state, waiting);
    assert_eq!(action, ResolverAction::LookupSession { key: "session:abc".to_string() });
    let (state, _) = resolver_step(
        ResolverState::AwaitingUser { user_id: 3 },
        ResolverEvent::Header(Some("Bearer abc".to_string())),
    );
    assert_eq!(state, ResolverState::AwaitingUser { user_id: 3 });
}

#[test]
fn final_states_stay() {
    let finals = [
        ResolverState::NoToken,
        ResolverState::MalformedHeader,
        ResolverState::TokenNotFound,
        ResolverState::UserMissing,
        ResolverState::StoreUnavailable,
        ResolverState::Resolved(alice()),
    ];
    for state in finals {
        let events = [
            ResolverEvent::Header(Some("Bearer abc".to_string())),
            ResolverEvent::Header(None),
            ResolverEvent::Session(Some(1)),
            ResolverEvent::User(Some(alice())),
            ResolverEvent::Unavailable,
        ];
        for event in events {
            let (next, action) = resolver_step(state.clone(), event);
            assert_eq!(next, state);
            assert_eq!(action, ResolverAction::Finish);
        }
    }
}

#[test]
fn unreachable_cache_is_store_unavailable() {
    let (state, action) = resolver_step(
        ResolverState::AwaitingSession { key: "session:abc".to_string() },
        ResolverEvent::Unavailable,
    );
    assert_eq!(state, ResolverState::StoreUnavailable);
    assert_eq!(action, ResolverAction::Finish);
    assert_eq!(state.outcome(), Some(Err(AuthError::StoreUnavailable)));
}

#[test]
fn unreachable_directory_is_store_unavailable() {
    let (state, action) =
        resolver_step(ResolverState::AwaitingUser { user_id: 7 }, ResolverEvent::Unavailable);
    assert_eq!(state, ResolverState::StoreUnavailable);
    assert_eq!(action, ResolverAction::Finish);
    assert_eq!(state.outcome(), Some(Err(AuthError::StoreUnavailable)));
}

#[test]
fn store_unavailable_is_a_server_error_and_a_miss_is_not() {
    let unreachable = ResolverState::AwaitingSession { key: "session:abc".to_string() }
        .step(ResolverEvent::Unavailable)
        .outcome()
        .unwrap()
        .unwrap_err();
    let miss = ResolverState::AwaitingSession { key: "session:abc".to_string() }
        .step(ResolverEvent::Session(None))
        .outcome()
        .unwrap()
        .unwrap_err();
    assert_eq!(unreachable.status(), 500);
    assert_eq!(miss.status(), 401);
}

#[test]
fn unavailable_before_any_lookup_changes_nothing() {
    let (state, action) = resolver_step(ResolverState::start(), ResolverEvent::Unavailable);
    assert_eq!(state, ResolverState::AwaitingHeader);
    assert_eq!(action, ResolverAction::ReadHeader);
}
