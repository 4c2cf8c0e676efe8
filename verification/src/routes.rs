//! What the routes of the service decide, apart from what they read and send.

use vstd::prelude::*;
use vstd::string::StringExecFns;
use crate::error::{joined, Error};
use crate::models::token::Token;
use crate::models::user::{check_of, password_kinds, User, UserKind, UserMethods, UserView};
use crate::util::uuid_text::uuid_canonical;

verus! {

/// The kind of user that the administrator has to be, as a failure names it.
pub open spec fn owner_kinds() -> Seq<char> {
    joined(seq![UserKind::Owner.name_of()], ", "@)
}

/// Signs in the user that the store has under the name of a sign-in request,
/// with the password of the request.
///
/// Gives the user and a new token for it where the stored hash accepts the
/// password. Fails with `IncorrectCredentials` where the store has no such
/// user and where the password does not match, so that the two cannot be told
/// apart; with `InvalidUserType`, naming `local, owner`, for a user without a
/// password; and with `PasswordGeneration` where the stored hash cannot be
/// read or checked.
pub fn login(found: Option<User>, password: &str) -> (r: Result<(Token, User), Error>)
    ensures
        match found {
            None => r matches Err(Error::IncorrectCredentials),
            Some(user) => match user@.password_hash() {
                None => r matches Err(Error::InvalidUserType(kinds)) && kinds@ == password_kinds(),
                Some(hashed) => match check_of(password@, hashed) {
                    Some(true) => {
                        &&& r matches Ok((token, same))
                        &&& same@ == user@
                        &&& token@.user == user@.id()
                        &&& uuid_canonical(token@.id) == Some(token@.id)
                    },
                    Some(false) => r matches Err(Error::IncorrectCredentials),
                    None => r matches Err(Error::PasswordGeneration(_)),
                },
            },
        },
{
    match found {
        None => Err(Error::IncorrectCredentials),
        Some(user) => match user.verify_password(password) {
            Ok(true) => {
                let token = Token::new(user.id());
                Ok((token, user))
            },
            Ok(false) => Err(Error::IncorrectCredentials),
            Err(error) => Err(error),
        },
    }
}

/// Makes sure that the administrator exists: given what the store has under
/// the administrator's name, says what to store.
///
/// Nothing where the store has an owner of that name. A new owner with the
/// configured name and password where the store has nobody of that name.
/// Fails with `InvalidUserType`, naming `owner`, where another kind of user
/// has the name, and as `User::create_owner` does where the password cannot be
/// hashed.
pub fn ensure_admin(existing: Option<User>, admin_user: &str, admin_password: &str) -> (r: Result<
    Option<User>,
    Error,
>)
    ensures
        match existing {
            Some(user) => {
                if user@.kind() == UserKind::Owner {
                    r matches Ok(None)
                } else {
                    r matches Err(Error::InvalidUserType(kinds)) && kinds@ == owner_kinds()
                }
            },
            None => match r {
                Ok(Some(created)) => {
                    &&& created@ matches UserView::Owner(owner)
                    &&& owner.name == admin_user@
                    &&& check_of(admin_password@, owner.password) == Some(true)
                },
                Ok(None) => false,
                Err(Error::PasswordGeneration(_)) => true,
                Err(Error::Unknown(_)) => true,
                Err(_) => false,
            },
        },
{
    match existing {
        Some(user) => match user.kind() {
            UserKind::Owner => Ok(None),
            _ => {
                let mut expected: Vec<String> = Vec::new();
                expected.push(UserKind::Owner.to_string());
                assert(expected.deep_view() =~= seq![UserKind::Owner.name_of()]);
                Err(Error::invalid_user_type(&expected))
            },
        },
        None => match User::create_owner(admin_user, admin_password) {
            Ok(created) => Ok(Some(created)),
            Err(error) => Err(error),
        },
    }
}

} // verus!
