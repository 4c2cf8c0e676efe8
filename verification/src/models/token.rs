//! Bearer tokens.

use vstd::prelude::*;
use crate::models::Model;
use crate::types::str_uuid::Uuid;
use crate::types::timestamp::Timestamp;
use crate::util::clock::now;
use crate::util::uuid_text::uuid_canonical;

verus! {

/// Mathematical model of `Token`.
pub struct TokenView {
    pub id: Seq<char>,
    pub user: Seq<char>,
    pub created: Timestamp,
    pub refreshed: Timestamp,
}

/// A bearer token: it stands for the user `user` from `created` on and was
/// last used at `refreshed`.
#[derive(Debug)]
pub struct Token {
    id: Uuid,
    user: Uuid,
    created: Timestamp,
    refreshed: Timestamp,
}

impl View for Token {
    type V = TokenView;

    closed spec fn view(&self) -> TokenView {
        TokenView {
            id: self.id@,
            user: self.user@,
            created: self.created,
            refreshed: self.refreshed,
        }
    }
}

impl Clone for Token {
    fn clone(&self) -> (r: Self)
        ensures
            r@ == self@,
    {
        Token {
            id: self.id.clone(),
            user: self.user.clone(),
            created: self.created,
            refreshed: self.refreshed,
        }
    }
}

impl Token {
    /// A token with the given parts.
    pub fn from_parts(id: Uuid, user: Uuid, created: Timestamp, refreshed: Timestamp) -> (r: Self)
        ensures
            r@ == (TokenView { id: id@, user: user@, created, refreshed }),
    {
        Token { id, user, created, refreshed }
    }

    /// A token for `user` with a fresh identifier, created and last used at
    /// `at`.
    pub fn issued_at(user: Uuid, at: Timestamp) -> (r: Self)
        ensures
            r@.user == user@,
            r@.created == at,
            r@.refreshed == at,
            uuid_canonical(r@.id) == Some(r@.id),
    {
        Token { id: Uuid::new(), user, created: at, refreshed: at }
    }

    /// A token for `user` with a fresh identifier, created and last used at
    /// the time of the call.
    pub fn new(user: Uuid) -> (r: Self)
        ensures
            r@.user == user@,
            uuid_canonical(r@.id) == Some(r@.id),
    {
        Token { id: Uuid::new(), user, created: now(), refreshed: now() }
    }

    /// The same token, last used at `at`.
    pub fn refreshed_at(self, at: Timestamp) -> (r: Self)
        ensures
            r@ == (TokenView { refreshed: at, ..self@ }),
    {
        Token { refreshed: at, ..self }
    }

    /// The same token, last used at the time of the call.
    pub fn refresh_token(self) -> (r: Self)
        ensures
            r@.id == self@.id,
            r@.user == self@.user,
            r@.created == self@.created,
    {
        self.refreshed_at(now())
    }

    /// Identifier.
    pub fn id(&self) -> (r: Uuid)
        ensures
            r@ == self@.id,
    {
        self.id.clone()
    }

    /// Identifier of the user that the token stands for.
    pub fn user(&self) -> (r: Uuid)
        ensures
            r@ == self@.user,
    {
        self.user.clone()
    }

    /// When the token was made.
    pub fn created(&self) -> (r: Timestamp)
        ensures
            r == self@.created,
    {
        self.created
    }

    /// When the token was last used.
    pub fn refreshed(&self) -> (r: Timestamp)
        ensures
            r == self@.refreshed,
    {
        self.refreshed
    }
}

impl Model for Token {
    open spec fn model_id_of(&self) -> Seq<char> {
        self@.id
    }

    fn collection() -> (r: &'static str)
        ensures
            r@ == "auth.tokens"@,
    {
        "auth.tokens"
    }

    fn model_id(&self) -> (r: Uuid) {
        self.id()
    }
}

} // verus!
