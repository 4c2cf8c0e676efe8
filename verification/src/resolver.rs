//! The credential resolver: from the `Authorization` header of a request to
//! the user that the request is made for.
//!
//! The resolver decides; it does not reach the store itself. Each step takes
//! the answer to what the step before asked for and says what to do next:
//! look something up, save or delete a token, or finish. The caller performs
//! the action and comes back with the answer.

use vstd::prelude::*;
use vstd::string::StringExecFns;
use crate::error::{Error, ErrorView};
use crate::models::token::{Token, TokenView};
use crate::models::user::{check_of, User, UserView};
use crate::types::str_uuid::Uuid;
use crate::types::timestamp::Timestamp;
use crate::util::clock::now;
use crate::util::text::{after_first, before_first, has_char, split_once, str_eq};
use crate::util::uuid_text::uuid_canonical;

verus! {

/// Mathematical model of `Credentials`.
pub enum CredentialsView {
    Token { id: Seq<char> },
    Application { client_id: Seq<char>, client_secret: Seq<char> },
}

/// What an `Authorization` header carries.
#[derive(Debug)]
pub enum Credentials {
    /// `Token <id>`: the identifier of a bearer token, as it was written.
    Token { id: String },
    /// `Application <client id>:<client secret>`.
    Application { client_id: String, client_secret: String },
}

impl View for Credentials {
    type V = CredentialsView;

    open spec fn view(&self) -> CredentialsView {
        match self {
            Credentials::Token { id } => CredentialsView::Token { id: id@ },
            Credentials::Application { client_id, client_secret } => CredentialsView::Application {
                client_id: client_id@,
                client_secret: client_secret@,
            },
        }
    }
}

impl DeepView for Credentials {
    type V = CredentialsView;

    open spec fn deep_view(&self) -> CredentialsView {
        self@
    }
}

/// The credentials that the header value `header` carries, if any.
///
/// The scheme is what stands before the first space. After `Token` all that
/// follows is the token's identifier. After `Application` what follows is
/// split at its first colon into client id and client secret. Any other
/// scheme, a header without a space, and an application without a colon
/// carry nothing.
pub open spec fn credentials_of(header: Seq<char>) -> Option<CredentialsView> {
    if !has_char(header, ' ') {
        None
    } else {
        let scheme = before_first(header, ' ');
        let rest = after_first(header, ' ');
        if scheme == "Token"@ {
            Some(CredentialsView::Token { id: rest })
        } else if scheme == "Application"@ {
            if has_char(rest, ':') {
                Some(
                    CredentialsView::Application {
                        client_id: before_first(rest, ':'),
                        client_secret: after_first(rest, ':'),
                    },
                )
            } else {
                None
            }
        } else {
            None
        }
    }
}

/// Reads the value of an `Authorization` header.
pub fn parse_authorization(header: &str) -> (r: Option<Credentials>)
    ensures
        r.deep_view() == credentials_of(header@),
{
    match split_once(header, ' ') {
        None => None,
        Some((scheme, rest)) => {
            if str_eq(scheme.as_str(), "Token") {
                Some(Credentials::Token { id: rest })
            } else if str_eq(scheme.as_str(), "Application") {
                match split_once(rest.as_str(), ':') {
                    Some((client_id, client_secret)) => Some(
                        Credentials::Application { client_id, client_secret },
                    ),
                    None => None,
                }
            } else {
                None
            }
        },
    }
}

/// Mathematical model of `ResolverState`.
pub enum StateView {
    Start,
    AwaitingToken,
    AwaitingTokenUser { token: TokenView },
    AwaitingTokenSaved { user: UserView },
    AwaitingTokenDeleted,
    AwaitingApplication { client_secret: Seq<char> },
    Done,
}

/// Where a resolution stands.
#[derive(Debug)]
pub enum ResolverState {
    /// Nothing was done yet: the header is awaited.
    Start,
    /// The token was asked for.
    AwaitingToken,
    /// The user of `token` was asked for.
    AwaitingTokenUser { token: Token },
    /// The refreshed token was handed over to be saved; `user` is its user.
    AwaitingTokenSaved { user: User },
    /// A token without a user was handed over to be deleted.
    AwaitingTokenDeleted,
    /// The application with the client id of the header was asked for;
    /// `client_secret` is the secret of the header.
    AwaitingApplication { client_secret: String },
    /// The resolution is over.
    Done,
}

impl View for ResolverState {
    type V = StateView;

    open spec fn view(&self) -> StateView {
        match self {
            ResolverState::Start => StateView::Start,
            ResolverState::AwaitingToken => StateView::AwaitingToken,
            ResolverState::AwaitingTokenUser { token } => StateView::AwaitingTokenUser {
                token: token@,
            },
            ResolverState::AwaitingTokenSaved { user } => StateView::AwaitingTokenSaved {
                user: user@,
            },
            ResolverState::AwaitingTokenDeleted => StateView::AwaitingTokenDeleted,
            ResolverState::AwaitingApplication { client_secret } => StateView::AwaitingApplication {
                client_secret: client_secret@,
            },
            ResolverState::Done => StateView::Done,
        }
    }
}

/// Mathematical model of `ResolverEvent`.
pub enum EventView {
    Header(Option<Seq<char>>),
    TokenLookup(Option<TokenView>),
    UserLookup(Option<UserView>),
    TokenSaved(Option<ErrorView>),
    TokenDeleted(Option<ErrorView>),
    ApplicationLookup(Option<UserView>),
}

/// The answer to what a step asked for.
#[derive(Debug)]
pub enum ResolverEvent {
    /// The value of the `Authorization` header, if the request has one.
    Header(Option<String>),
    /// The token that was asked for; nothing where the store has none or
    /// could not be asked.
    TokenLookup(Option<Token>),
    /// The user that was asked for; nothing where the store has none or could
    /// not be asked.
    UserLookup(Option<User>),
    /// The token was saved, or the failure of saving it.
    TokenSaved(Option<Error>),
    /// The token was deleted, or the failure of deleting it.
    TokenDeleted(Option<Error>),
    /// The application that was asked for; nothing where the store has none
    /// or could not be asked.
    ApplicationLookup(Option<User>),
}

impl View for ResolverEvent {
    type V = EventView;

    open spec fn view(&self) -> EventView {
        match self {
            ResolverEvent::Header(header) => EventView::Header(header.deep_view()),
            ResolverEvent::TokenLookup(token) => EventView::TokenLookup(
                match token {
                    Some(token) => Some(token@),
                    None => None,
                },
            ),
            ResolverEvent::UserLookup(user) => EventView::UserLookup(
                match user {
                    Some(user) => Some(user@),
                    None => None,
                },
            ),
            ResolverEvent::TokenSaved(failure) => EventView::TokenSaved(
                match failure {
                    Some(failure) => Some(failure@),
                    None => None,
                },
            ),
            ResolverEvent::TokenDeleted(failure) => EventView::TokenDeleted(
                match failure {
                    Some(failure) => Some(failure@),
                    None => None,
                },
            ),
            ResolverEvent::ApplicationLookup(user) => EventView::ApplicationLookup(
                match user {
                    Some(user) => Some(user@),
                    None => None,
                },
            ),
        }
    }
}

/// Mathematical model of `ResolverAction`.
pub enum ActionView {
    FindToken { id: Seq<char> },
    FindUser { id: Seq<char> },
    SaveToken { token: TokenView },
    DeleteToken { id: Seq<char> },
    FindApplication { client_id: Seq<char> },
    Succeed { user: UserView },
    Fail { failure: ErrorView },
}

/// What a step tells the caller to do.
#[derive(Debug)]
pub enum ResolverAction {
    /// Look up the token `id` and come back with `TokenLookup`.
    FindToken { id: Uuid },
    /// Look up the user `id` and come back with `UserLookup`.
    FindUser { id: Uuid },
    /// Save `token` in place of the stored one and come back with `TokenSaved`.
    SaveToken { token: Token },
    /// Delete the token `id` and come back with `TokenDeleted`.
    DeleteToken { id: Uuid },
    /// Look up the application with the client id `client_id` and come back
    /// with `ApplicationLookup`.
    FindApplication { client_id: String },
    /// The request is made for `user`.
    Succeed { user: User },
    /// The request is made for nobody.
    Fail { failure: Error },
}

impl View for ResolverAction {
    type V = ActionView;

    open spec fn view(&self) -> ActionView {
        match self {
            ResolverAction::FindToken { id } => ActionView::FindToken { id: id@ },
            ResolverAction::FindUser { id } => ActionView::FindUser { id: id@ },
            ResolverAction::SaveToken { token } => ActionView::SaveToken { token: token@ },
            ResolverAction::DeleteToken { id } => ActionView::DeleteToken { id: id@ },
            ResolverAction::FindApplication { client_id } => ActionView::FindApplication {
                client_id: client_id@,
            },
            ResolverAction::Succeed { user } => ActionView::Succeed { user: user@ },
            ResolverAction::Fail { failure } => ActionView::Fail { failure: failure@ },
        }
    }
}

/// The end of a resolution for nobody.
pub open spec fn refused() -> (StateView, ActionView) {
    (StateView::Done, ActionView::Fail { failure: ErrorView::MissingAuthorization })
}

/// What the header leads to: the lookup of the token or of the application
/// that it names, or the end where it names neither.
pub open spec fn after_header(header: Option<Seq<char>>) -> (StateView, ActionView) {
    match header {
        None => refused(),
        Some(header) => match credentials_of(header) {
            None => refused(),
            Some(CredentialsView::Token { id }) => match uuid_canonical(id) {
                Some(id) => (StateView::AwaitingToken, ActionView::FindToken { id }),
                None => refused(),
            },
            Some(CredentialsView::Application { client_id, client_secret }) => (
                StateView::AwaitingApplication { client_secret },
                ActionView::FindApplication { client_id },
            ),
        },
    }
}

/// Whether `user` is an application whose stored hash accepts `client_secret`.
pub open spec fn secret_accepted(user: UserView, client_secret: Seq<char>) -> bool {
    user.client_secret_hash() matches Some(hashed) && check_of(client_secret, hashed) == Some(true)
}

/// One step of a resolution: the state that follows `state` on `event` at the
/// time `now`, and what the caller is to do.
///
/// - No header, another scheme than `Token` or `Application`, a token
///   identifier that is no UUID: the end, for nobody.
/// - A token: look it up. Where there is none: the end, for nobody. Else look
///   up its user. Where there is one: save the token as last used at `now`,
///   then the end, for that user, or with the failure of saving. Where there
///   is none: delete the token, then the end, for nobody, or with the failure
///   of deleting.
/// - An application: look it up by its client id. The end, for the application
///   where its stored hash accepts the secret; for nobody where there is no
///   such application, where the secret does not match and where it cannot be
///   checked.
/// - An event that the state does not wait for: the end, for nobody.
pub open spec fn resolve_step(state: StateView, event: EventView, now: Timestamp) -> (
    StateView,
    ActionView,
) {
    match (state, event) {
        (StateView::Start, EventView::Header(header)) => after_header(header),
        (StateView::AwaitingToken, EventView::TokenLookup(Some(token))) => (
            StateView::AwaitingTokenUser { token },
            ActionView::FindUser { id: token.user },
        ),
        (StateView::AwaitingTokenUser { token }, EventView::UserLookup(Some(user))) => (
            StateView::AwaitingTokenSaved { user },
            ActionView::SaveToken { token: TokenView { refreshed: now, ..token } },
        ),
        (StateView::AwaitingTokenUser { token }, EventView::UserLookup(None)) => (
            StateView::AwaitingTokenDeleted,
            ActionView::DeleteToken { id: token.id },
        ),
        (StateView::AwaitingTokenSaved { user }, EventView::TokenSaved(None)) => (
            StateView::Done,
            ActionView::Succeed { user },
        ),
        (StateView::AwaitingTokenSaved { user }, EventView::TokenSaved(Some(failure))) => (
            StateView::Done,
            ActionView::Fail { failure },
        ),
        (StateView::AwaitingTokenDeleted, EventView::TokenDeleted(Some(failure))) => (
            StateView::Done,
            ActionView::Fail { failure },
        ),
        (
            StateView::AwaitingApplication { client_secret },
            EventView::ApplicationLookup(Some(user)),
        ) => {
            if secret_accepted(user, client_secret) {
                (StateView::Done, ActionView::Succeed { user })
            } else {
                refused()
            }
        },
        _ => refused(),
    }
}

/// The end of a resolution for nobody.
fn refuse() -> (r: (ResolverState, ResolverAction))
    ensures
        (r.0@, r.1@) == refused(),
{
    (ResolverState::Done, ResolverAction::Fail { failure: Error::MissingAuthorization })
}

/// What the header leads to.
fn begin(header: Option<String>) -> (r: (ResolverState, ResolverAction))
    ensures
        (r.0@, r.1@) == after_header(header.deep_view()),
{
    let header = match header {
        Some(header) => header,
        None => {
            return refuse();
        },
    };
    match parse_authorization(header.as_str()) {
        None => refuse(),
        Some(Credentials::Token { id }) => match Uuid::from_str(id.as_str()) {
            Ok(id) => (ResolverState::AwaitingToken, ResolverAction::FindToken { id }),
            Err(_) => refuse(),
        },
        Some(Credentials::Application { client_id, client_secret }) => (
            ResolverState::AwaitingApplication { client_secret },
            ResolverAction::FindApplication { client_id },
        ),
    }
}

/// One step of a resolution at the time `now`.
pub fn advance(state: ResolverState, event: ResolverEvent, now: Timestamp) -> (r: (
    ResolverState,
    ResolverAction,
))
    ensures
        (r.0@, r.1@) == resolve_step(state@, event@, now),
{
    match (state, event) {
        (ResolverState::Start, ResolverEvent::Header(header)) => begin(header),
        (ResolverState::AwaitingToken, ResolverEvent::TokenLookup(Some(token))) => {
            let id = token.user();
            (ResolverState::AwaitingTokenUser { token }, ResolverAction::FindUser { id })
        },
        (ResolverState::AwaitingTokenUser { token }, ResolverEvent::UserLookup(Some(user))) => (
            ResolverState::AwaitingTokenSaved { user },
            ResolverAction::SaveToken { token: token.refreshed_at(now) },
        ),
        (ResolverState::AwaitingTokenUser { token }, ResolverEvent::UserLookup(None)) => (
            ResolverState::AwaitingTokenDeleted,
            ResolverAction::DeleteToken { id: token.id() },
        ),
        (ResolverState::AwaitingTokenSaved { user }, ResolverEvent::TokenSaved(None)) => (
            ResolverState::Done,
            ResolverAction::Succeed { user },
        ),
        (ResolverState::AwaitingTokenSaved { user }, ResolverEvent::TokenSaved(Some(failure))) => (
            ResolverState::Done,
            ResolverAction::Fail { failure },
        ),
        (ResolverState::AwaitingTokenDeleted, ResolverEvent::TokenDeleted(Some(failure))) => (
            ResolverState::Done,
            ResolverAction::Fail { failure },
        ),
        (
            ResolverState::AwaitingApplication { client_secret },
            ResolverEvent::ApplicationLookup(Some(user)),
        ) => {
            match user.verify_client_secret(client_secret.as_str()) {
                Ok(true) => (ResolverState::Done, ResolverAction::Succeed { user }),
                _ => refuse(),
            }
        },
        _ => refuse(),
    }
}

/// One step of a resolution at the time of the call.
pub fn step(state: ResolverState, event: ResolverEvent) -> (r: (ResolverState, ResolverAction))
    ensures
        exists|at: Timestamp| (r.0@, r.1@) == #[trigger] resolve_step(state@, event@, at),
{
    advance(state, event, now())
}

/// How many steps a resolution can still take from `state`.
pub open spec fn steps_left(state: StateView) -> nat {
    match state {
        StateView::Start => 4,
        StateView::AwaitingToken => 3,
        StateView::AwaitingTokenUser { .. } => 2,
        StateView::AwaitingTokenSaved { .. } => 1,
        StateView::AwaitingTokenDeleted => 1,
        StateView::AwaitingApplication { .. } => 1,
        StateView::Done => 0,
    }
}

/// Whether `action` ends a resolution.
pub open spec fn is_final(action: ActionView) -> bool {
    action is Succeed || action is Fail
}

/// A resolution is a single pass: each step brings it closer to its end, the
/// end is reached with the action that ends it and with no other, and after
/// the end every event is refused.
pub proof fn lemma_single_pass(state: StateView, event: EventView, now: Timestamp)
    ensures
        !(state is Done) ==> steps_left(resolve_step(state, event, now).0) < steps_left(state),
        resolve_step(state, event, now).0 is Done <==> is_final(resolve_step(state, event, now).1),
        state is Done ==> resolve_step(state, event, now) == refused(),
{
}

/// A request without a header, with another scheme than `Token` and
/// `Application`, or with a token identifier that is no UUID is made for
/// nobody, and nothing is asked of the store.
pub proof fn lemma_unreadable_header_is_refused(header: Option<Seq<char>>, now: Timestamp)
    requires
        match header {
            None => true,
            Some(text) => match credentials_of(text) {
                None => true,
                Some(CredentialsView::Token { id }) => uuid_canonical(id) is None,
                Some(CredentialsView::Application { .. }) => false,
            },
        },
    ensures
        resolve_step(StateView::Start, EventView::Header(header), now) == refused(),
{
}

/// A token whose user the store has is saved as last used at the time of the
/// step, with nothing else changed, and the request is then made for that
/// user. Where the token was last used before that time, the time of its last
/// use grows strictly.
pub proof fn lemma_token_is_refreshed(token: TokenView, user: UserView, now: Timestamp)
    ensures
        resolve_step(
            StateView::AwaitingTokenUser { token },
            EventView::UserLookup(Some(user)),
            now,
        ) == (
            StateView::AwaitingTokenSaved { user },
            ActionView::SaveToken { token: TokenView { refreshed: now, ..token } },
        ),
        resolve_step(StateView::AwaitingTokenSaved { user }, EventView::TokenSaved(None), now) == (
            StateView::Done,
            ActionView::Succeed { user },
        ),
        token.refreshed.before(now) ==> token.refreshed.before(
            (TokenView { refreshed: now, ..token }).refreshed,
        ),
{
}

/// A refreshed token that cannot be saved gives the request no user: the
/// resolution ends with the failure of saving.
pub proof fn lemma_unsaved_refresh_gives_no_user(
    user: UserView,
    failure: ErrorView,
    now: Timestamp,
)
    ensures
        resolve_step(
            StateView::AwaitingTokenSaved { user },
            EventView::TokenSaved(Some(failure)),
            now,
        ) == (StateView::Done, ActionView::Fail { failure }),
{
}

/// A token whose user the store does not have is deleted, and the request is
/// then made for nobody.
pub proof fn lemma_orphaned_token_is_deleted(token: TokenView, now: Timestamp)
    ensures
        resolve_step(StateView::AwaitingTokenUser { token }, EventView::UserLookup(None), now) == (
            StateView::AwaitingTokenDeleted,
            ActionView::DeleteToken { id: token.id },
        ),
        resolve_step(StateView::AwaitingTokenDeleted, EventView::TokenDeleted(None), now)
            == refused(),
{
}

/// An application is resolved exactly where the store has it and its stored
/// hash accepts the secret of the header; in every other case the request is
/// made for nobody, with the same failure whether the application is unknown,
/// the secret wrong or the stored hash unreadable.
pub proof fn lemma_application_secret_decides(
    client_secret: Seq<char>,
    found: Option<UserView>,
    now: Timestamp,
)
    ensures
        resolve_step(
            StateView::AwaitingApplication { client_secret },
            EventView::ApplicationLookup(found),
            now,
        ) == if found matches Some(user) && secret_accepted(user, client_secret) {
            (StateView::Done, ActionView::Succeed { user: found->0 })
        } else {
            refused()
        },
{
}

/// A resolution fails with a missing authorization, or with the failure that
/// the store reported for saving or deleting a token; never with another
/// failure of its own, such as incorrect credentials.
pub proof fn lemma_failures_of_a_resolution(state: StateView, event: EventView, now: Timestamp)
    ensures
        resolve_step(state, event, now).1 matches ActionView::Fail { failure } ==> {
            ||| failure == ErrorView::MissingAuthorization
            ||| event == EventView::TokenSaved(Some(failure))
            ||| event == EventView::TokenDeleted(Some(failure))
        },
{
}

/// A resolution succeeds only for a user that the store handed over: the user
/// of a token once the token was saved, or the application whose secret was
/// accepted.
pub proof fn lemma_success_of_a_resolution(state: StateView, event: EventView, now: Timestamp)
    ensures
        resolve_step(state, event, now).1 matches ActionView::Succeed { user } ==> {
            ||| state == (StateView::AwaitingTokenSaved { user }) && event == EventView::TokenSaved(
                None,
            )
            ||| state matches StateView::AwaitingApplication { client_secret } && event
                == EventView::ApplicationLookup(Some(user)) && secret_accepted(user, client_secret)
        },
{
}

} // verus!
