use abyssal::error::Error;
use abyssal::models::token::Token;
use abyssal::models::user::{User, UserMethods};
use abyssal::resolver::{
    advance, parse_authorization, step, Credentials, ResolverAction, ResolverEvent, ResolverState,
};
use abyssal::types::str_uuid::Uuid;
use abyssal::types::timestamp::Timestamp;

fn at(secs: i64) -> Timestamp {
    Timestamp { secs, nanos: 0 }
}

fn token_id() -> Uuid {
    Uuid::from_str("0b0d3c52-6f2a-4f6e-9d57-3c1f5f0a9e11").unwrap()
}

fn user_id() -> Uuid {
    Uuid::from_str("7c9e6679-7425-40de-944b-e07fc1f90ae7").unwrap()
}

fn header(value: &str) -> ResolverEvent {
    ResolverEvent::Header(Some(value.to_string()))
}

fn refused(outcome: &(ResolverState, ResolverAction)) -> bool {
    matches!(
        outcome,
        (ResolverState::Done, ResolverAction::Fail { failure: Error::MissingAuthorization })
    )
}

fn some_user() -> User {
    User::Local(abyssal::models::user::LocalUser::new("alice".to_string(), "hash".to_string()))
        .with_id(user_id())
}

#[test]
fn parse_authorization_schemes() {
    match parse_authorization("Token abc") {
        Some(Credentials::Token { id }) => assert_eq!(id, "abc"),
        other => panic!("expected a token, got {:?}", other),
    }
    match parse_authorization("Application id:se:cret") {
        Some(Credentials::Application { client_id, client_secret }) => {
            assert_eq!(client_id, "id");
            assert_eq!(client_secret, "se:cret");
        }
        other => panic!("expected an application, got {:?}", other),
    }
    match parse_authorization("Token ") {
        Some(Credentials::Token { id }) => assert_eq!(id, ""),
        other => panic!("expected a token, got {:?}", other),
    }
    assert!(parse_authorization("Application idsecret").is_none());
    assert!(parse_authorization("Bearer abc").is_none());
    assert!(parse_authorization("token abc").is_none());
    assert!(parse_authorization("Token").is_none());
    assert!(parse_authorization("").is_none());
    assert!(parse_authorization(" Token abc").is_none());
}

#[test]
fn no_header_is_refused() {
    assert!(refused(&advance(ResolverState::Start, ResolverEvent::Header(None), at(0))));
}

#[test]
fn other_schemes_are_refused() {
    for value in ["Bearer abc", "Basic dXNlcjpwYXNz", "Token", "", "Application nocolon"] {
        assert!(refused(&advance(ResolverState::Start, header(value), at(0))));
    }
}

#[test]
fn a_token_that_is_no_uuid_is_refused() {
    assert!(refused(&advance(ResolverState::Start, header("Token opaque"), at(0))));
}

#[test]
fn valid_token_for_an_existing_user() {
    let text = format!("Token {}", token_id().to_string().to_uppercase());
    let (state, action) = advance(ResolverState::Start, header(&text), at(100));
    assert!(matches!(state, ResolverState::AwaitingToken));
    match action {
        ResolverAction::FindToken { id } => assert_eq!(id, token_id()),
        other => panic!("expected a token lookup, got {:?}", other),
    }

    let stored = Token::from_parts(token_id(), user_id(), at(10), at(20));
    let (state, action) = advance(state, ResolverEvent::TokenLookup(Some(stored)), at(100));
    match action {
        ResolverAction::FindUser { id } => assert_eq!(id, user_id()),
        other => panic!("expected a user lookup, got {:?}", other),
    }

    let (state, action) = advance(state, ResolverEvent::UserLookup(Some(some_user())), at(100));
    match action {
        ResolverAction::SaveToken { token } => {
            assert_eq!(token.id(), token_id());
            assert_eq!(token.user(), user_id());
            assert_eq!(token.created(), at(10));
            assert_eq!(token.refreshed(), at(100));
            assert!(at(20).is_before(&token.refreshed()));
        }
        other => panic!("expected the token to be saved, got {:?}", other),
    }

    let (state, action) = advance(state, ResolverEvent::TokenSaved(None), at(101));
    assert!(matches!(state, ResolverState::Done));
    match action {
        ResolverAction::Succeed { user } => {
            assert_eq!(user.id(), user_id());
            assert_eq!(user.name(), "alice");
        }
        other => panic!("expected the user, got {:?}", other),
    }
}

#[test]
fn a_token_that_cannot_be_saved_resolves_to_nobody() {
    let state = ResolverState::AwaitingTokenSaved { user: some_user() };
    let failure = Error::Database("connection lost".to_string());
    let (state, action) = advance(state, ResolverEvent::TokenSaved(Some(failure)), at(0));
    assert!(matches!(state, ResolverState::Done));
    match action {
        ResolverAction::Fail { failure: Error::Database(cause) } => assert_eq!(cause, "connection lost"),
        other => panic!("expected the failure of saving, got {:?}", other),
    }
}

#[test]
fn unknown_token_is_refused() {
    assert!(refused(&advance(ResolverState::AwaitingToken, ResolverEvent::TokenLookup(None), at(0))));
}

#[test]
fn token_of_a_deleted_user_is_removed() {
    let stored = Token::from_parts(token_id(), user_id(), at(10), at(20));
    let state = ResolverState::AwaitingTokenUser { token: stored };
    let (state, action) = advance(state, ResolverEvent::UserLookup(None), at(100));
    assert!(matches!(state, ResolverState::AwaitingTokenDeleted));
    match action {
        ResolverAction::DeleteToken { id } => assert_eq!(id, token_id()),
        other => panic!("expected the token to be deleted, got {:?}", other),
    }
    assert!(refused(&advance(state, ResolverEvent::TokenDeleted(None), at(100))));
}

#[test]
fn a_token_that_cannot_be_deleted_reports_the_failure() {
    let failure = Error::Database("read only".to_string());
    let (_, action) = advance(
        ResolverState::AwaitingTokenDeleted,
        ResolverEvent::TokenDeleted(Some(failure)),
        at(0),
    );
    assert!(matches!(action, ResolverAction::Fail { failure: Error::Database(_) }));
}

#[test]
fn application_with_the_right_secret() {
    let (application, secret) = User::create_application("backup", user_id()).unwrap();
    let client_id = match &application {
        User::Application(a) => a.client_id(),
        other => panic!("expected an application, got {:?}", other),
    };
    let text = format!("Application {}:{}", client_id, secret);
    let (state, action) = advance(ResolverState::Start, header(&text), at(0));
    match action {
        ResolverAction::FindApplication { client_id: asked } => assert_eq!(asked, client_id),
        other => panic!("expected an application lookup, got {:?}", other),
    }
    let id = application.id();
    let (state, action) = advance(state, ResolverEvent::ApplicationLookup(Some(application)), at(0));
    assert!(matches!(state, ResolverState::Done));
    match action {
        ResolverAction::Succeed { user } => assert_eq!(user.id(), id),
        other => panic!("expected the application, got {:?}", other),
    }
}

#[test]
fn application_with_a_wrong_secret_is_refused() {
    let (application, _) = User::create_application("backup", user_id()).unwrap();
    let (state, _) = advance(ResolverState::Start, header("Application id:wrongsecret"), at(0));
    match &state {
        ResolverState::AwaitingApplication { client_secret } => assert_eq!(client_secret, "wrongsecret"),
        other => panic!("expected to wait for the application, got {:?}", other),
    }
    let outcome = advance(state, ResolverEvent::ApplicationLookup(Some(application)), at(0));
    assert!(refused(&outcome));
    assert!(!matches!(outcome.1, ResolverAction::Fail { failure: Error::IncorrectCredentials }));
}

#[test]
fn unknown_application_is_refused() {
    let state = ResolverState::AwaitingApplication { client_secret: "secret".to_string() };
    assert!(refused(&advance(state, ResolverEvent::ApplicationLookup(None), at(0))));
}

#[test]
fn application_whose_hash_cannot_be_checked_is_refused() {
    let broken = User::Application(abyssal::models::user::ApplicationUser::new(
        "backup".to_string(),
        user_id(),
        "id".to_string(),
        "not a hash".to_string(),
    ));
    let state = ResolverState::AwaitingApplication { client_secret: "secret".to_string() };
    assert!(refused(&advance(state, ResolverEvent::ApplicationLookup(Some(broken)), at(0))));
    let state = ResolverState::AwaitingApplication { client_secret: "secret".to_string() };
    assert!(refused(&advance(state, ResolverEvent::ApplicationLookup(Some(some_user())), at(0))));
}

#[test]
fn events_out_of_turn_are_refused() {
    assert!(refused(&advance(ResolverState::Start, ResolverEvent::TokenSaved(None), at(0))));
    assert!(refused(&advance(ResolverState::Done, header("Token x"), at(0))));
    assert!(refused(&advance(
        ResolverState::AwaitingToken,
        ResolverEvent::UserLookup(Some(some_user())),
        at(0)
    )));
    assert!(refused(&advance(
        ResolverState::AwaitingTokenSaved { user: some_user() },
        ResolverEvent::TokenDeleted(None),
        at(0)
    )));
}

#[test]
fn step_refreshes_at_the_time_of_the_call() {
    let stored = Token::from_parts(token_id(), user_id(), at(10), at(20));
    let state = ResolverState::AwaitingTokenUser { token: stored };
    match step(state, ResolverEvent::UserLookup(Some(some_user()))) {
        (ResolverState::AwaitingTokenSaved { .. }, ResolverAction::SaveToken { token }) => {
            assert_eq!(token.created(), at(10));
            assert!(at(20).is_before(&token.refreshed()));
            assert!(at(1_600_000_000).is_before(&token.refreshed()));
        }
        other => panic!("expected the token to be saved, got {:?}", other),
    }
}
