//! The failures that the library reports, and what a transport shows of them.

use vstd::prelude::*;
use vstd::string::StringExecFns;

verus! {

/// A failure of the access-control core.
#[derive(Debug)]
pub enum Error {
    /// An internal failure without a category of its own; carries its text.
    Unknown(String),
    /// The configuration could not be read; carries the text of the cause.
    Configuration(String),
    /// The persistence layer failed; carries the text of the cause.
    Database(String),
    /// A secret could not be hashed, or a stored hash could not be read;
    /// carries the text of the cause.
    PasswordGeneration(String),
    /// The secret that was given does not match the stored hash.
    IncorrectCredentials,
    /// A piece of application state is missing; carries its name.
    MissingState(String),
    /// An operation was asked of a kind of user that does not support it;
    /// carries the kinds that do, separated by a comma and a space.
    InvalidUserType(String),
    /// A dotted path names a segment that the schema does not have; carries
    /// the segment.
    UnknownPermission(String),
    /// A schema node whose name gives no usable path segment: an empty one,
    /// the wildcard token, or one with a dot in it; carries the node's name.
    InvalidSegment(String),
    /// Two sibling nodes of a schema share a path segment; carries the segment.
    DuplicateSegment(String),
    /// A text that should denote a UUID and denotes none; carries the text.
    InvalidUuid(String),
    /// The notation of a permission tree goes wrong at the position that the
    /// failure carries: of a character where the text cannot be read as
    /// tokens, of a token where the tokens are no tree.
    UnexpectedToken(usize),
    /// No credential was given, or the one given resolves to nobody.
    MissingAuthorization,
}

/// Mathematical model of `Error`: the same failures with their texts as
/// sequences of characters.
pub enum ErrorView {
    Unknown(Seq<char>),
    Configuration(Seq<char>),
    Database(Seq<char>),
    PasswordGeneration(Seq<char>),
    IncorrectCredentials,
    MissingState(Seq<char>),
    InvalidUserType(Seq<char>),
    UnknownPermission(Seq<char>),
    InvalidSegment(Seq<char>),
    DuplicateSegment(Seq<char>),
    InvalidUuid(Seq<char>),
    UnexpectedToken(usize),
    MissingAuthorization,
}

impl View for Error {
    type V = ErrorView;

    open spec fn view(&self) -> ErrorView {
        match self {
            Error::Unknown(text) => ErrorView::Unknown(text@),
            Error::Configuration(text) => ErrorView::Configuration(text@),
            Error::Database(text) => ErrorView::Database(text@),
            Error::PasswordGeneration(text) => ErrorView::PasswordGeneration(text@),
            Error::IncorrectCredentials => ErrorView::IncorrectCredentials,
            Error::MissingState(text) => ErrorView::MissingState(text@),
            Error::InvalidUserType(text) => ErrorView::InvalidUserType(text@),
            Error::UnknownPermission(text) => ErrorView::UnknownPermission(text@),
            Error::InvalidSegment(text) => ErrorView::InvalidSegment(text@),
            Error::DuplicateSegment(text) => ErrorView::DuplicateSegment(text@),
            Error::InvalidUuid(text) => ErrorView::InvalidUuid(text@),
            Error::UnexpectedToken(position) => ErrorView::UnexpectedToken(*position),
            Error::MissingAuthorization => ErrorView::MissingAuthorization,
        }
    }
}

impl Clone for Error {
    fn clone(&self) -> (r: Self)
        ensures
            r@ == self@,
    {
        match self {
            Error::Unknown(text) => Error::Unknown(text.clone()),
            Error::Configuration(text) => Error::Configuration(text.clone()),
            Error::Database(text) => Error::Database(text.clone()),
            Error::PasswordGeneration(text) => Error::PasswordGeneration(text.clone()),
            Error::IncorrectCredentials => Error::IncorrectCredentials,
            Error::MissingState(text) => Error::MissingState(text.clone()),
            Error::InvalidUserType(text) => Error::InvalidUserType(text.clone()),
            Error::UnknownPermission(text) => Error::UnknownPermission(text.clone()),
            Error::InvalidSegment(text) => Error::InvalidSegment(text.clone()),
            Error::DuplicateSegment(text) => Error::DuplicateSegment(text.clone()),
            Error::InvalidUuid(text) => Error::InvalidUuid(text.clone()),
            Error::UnexpectedToken(position) => Error::UnexpectedToken(*position),
            Error::MissingAuthorization => Error::MissingAuthorization,
        }
    }
}

/// What a transport shows of a failure.
#[derive(Debug)]
pub struct ErrorMeta {
    /// HTTP status.
    pub status: u16,
    /// Stable machine-readable code.
    pub code: String,
    /// Human-readable message.
    pub message: String,
    /// Longer description; empty where there is none.
    pub description: String,
}

/// `parts` with `separator` between each two neighbours.
pub open spec fn joined(parts: Seq<Seq<char>>, separator: Seq<char>) -> Seq<char>
    decreases parts.len(),
{
    if parts.len() == 0 {
        Seq::empty()
    } else if parts.len() == 1 {
        parts[0]
    } else {
        joined(parts.drop_last(), separator) + separator + parts.last()
    }
}

/// The strings of `parts` with `separator` between each two neighbours.
pub fn join(parts: &Vec<String>, separator: &str) -> (r: String)
    ensures
        r@ == joined(parts.deep_view(), separator@),
{
    let ghost all = parts.deep_view();
    let mut out = String::new();
    let mut i: usize = 0;
    while i < parts.len()
        invariant
            i <= parts.len(),
            all == parts.deep_view(),
            out@ == joined(all.take(i as int), separator@),
        decreases parts.len() - i,
    {
        proof {
            assert(all.take(i + 1).drop_last() =~= all.take(i as int));
            assert(all.take(i + 1).last() == parts[i as int]@);
            if i == 0 {
                assert(all.take(0).len() == 0);
                assert(out@ =~= Seq::<char>::empty());
            }
        }
        if i > 0 {
            out.append(separator);
        }
        out.append(parts[i].as_str());
        proof {
            if i == 0 {
                assert(out@ =~= parts[0]@);
            }
        }
        i += 1;
    }
    assert(all.take(parts.len() as int) =~= all);
    out
}

impl Error {
    /// The failure of an operation that only the kinds `expected` support.
    pub fn invalid_user_type(expected: &Vec<String>) -> (r: Self)
        ensures
            r matches Error::InvalidUserType(kinds) && kinds@ == joined(
                expected.deep_view(),
                ", "@,
            ),
    {
        Error::InvalidUserType(join(expected, ", "))
    }

    /// The failure of decoding a path with the unknown segment `segment`.
    pub fn unknown_permission(segment: &str) -> (r: Self)
        ensures
            r matches Error::UnknownPermission(unknown) && unknown@ == segment@,
    {
        Error::UnknownPermission(String::from_str(segment))
    }

    /// HTTP status of the failure: 403 for a secret that does not match, 401
    /// for a missing authorization, 400 for input that cannot be read, 500 for
    /// the rest.
    pub open spec fn status_of(&self) -> u16 {
        match self {
            Error::IncorrectCredentials => 403,
            Error::MissingAuthorization => 401,
            Error::UnknownPermission(_) => 400,
            Error::InvalidUuid(_) => 400,
            Error::UnexpectedToken(_) => 400,
            _ => 500,
        }
    }

    /// Stable code of the failure.
    pub open spec fn code_of(&self) -> Seq<char> {
        match self {
            Error::Unknown(_) => "server.unknown"@,
            Error::Configuration(_) => "server.configuration"@,
            Error::Database(_) => "server.database"@,
            Error::PasswordGeneration(_) => "server.password_generation"@,
            Error::IncorrectCredentials => "auth.credentials"@,
            Error::MissingState(_) => "server.missing_state"@,
            Error::InvalidUserType(_) => "auth.invalid_user_type"@,
            Error::UnknownPermission(_) => "auth.unknown_permission"@,
            Error::InvalidSegment(_) => "server.invalid_segment"@,
            Error::DuplicateSegment(_) => "server.duplicate_segment"@,
            Error::InvalidUuid(_) => "server.invalid_uuid"@,
            Error::UnexpectedToken(_) => "server.unexpected_token"@,
            Error::MissingAuthorization => "auth.missing_authorization"@,
        }
    }

    /// Message of the failure.
    pub open spec fn message_of(&self) -> Seq<char> {
        match self {
            Error::Unknown(cause) => "An unknown error occurred: "@ + cause@,
            Error::Configuration(cause) => "Configuration error: "@ + cause@,
            Error::Database(cause) => "Database error: "@ + cause@,
            Error::PasswordGeneration(cause) => "Password generation error: "@ + cause@,
            Error::IncorrectCredentials => "Invalid credentials (incorrect username/password)"@,
            Error::MissingState(name) => "Missing application state (critical): <"@ + name@ + ">"@,
            Error::InvalidUserType(kinds) => "Invalid user type: should be one of ["@ + kinds@
                + "]"@,
            Error::UnknownPermission(segment) => "Unknown permission: "@ + segment@,
            Error::InvalidSegment(name) => "Invalid permission node name: "@ + name@,
            Error::DuplicateSegment(segment) => "Duplicate permission segment: "@ + segment@,
            Error::InvalidUuid(text) => "Invalid UUID: "@ + text@,
            Error::UnexpectedToken(_) => "Unexpected token in a permission tree"@,
            Error::MissingAuthorization => "Missing or unresolvable authorization"@,
        }
    }

    /// HTTP status of the failure.
    pub fn status(&self) -> (r: u16)
        ensures
            r == self.status_of(),
    {
        match self {
            Error::IncorrectCredentials => 403,
            Error::MissingAuthorization => 401,
            Error::UnknownPermission(_) => 400,
            Error::InvalidUuid(_) => 400,
            Error::UnexpectedToken(_) => 400,
            _ => 500,
        }
    }

    /// Stable code of the failure.
    pub fn code(&self) -> (r: String)
        ensures
            r@ == self.code_of(),
    {
        let code = match self {
            Error::Unknown(_) => "server.unknown",
            Error::Configuration(_) => "server.configuration",
            Error::Database(_) => "server.database",
            Error::PasswordGeneration(_) => "server.password_generation",
            Error::IncorrectCredentials => "auth.credentials",
            Error::MissingState(_) => "server.missing_state",
            Error::InvalidUserType(_) => "auth.invalid_user_type",
            Error::UnknownPermission(_) => "auth.unknown_permission",
            Error::InvalidSegment(_) => "server.invalid_segment",
            Error::DuplicateSegment(_) => "server.duplicate_segment",
            Error::InvalidUuid(_) => "server.invalid_uuid",
            Error::UnexpectedToken(_) => "server.unexpected_token",
            Error::MissingAuthorization => "auth.missing_authorization",
        };
        String::from_str(code)
    }

    /// Message of the failure.
    pub fn message(&self) -> (r: String)
        ensures
            r@ == self.message_of(),
    {
        match self {
            Error::Unknown(cause) => String::from_str("An unknown error occurred: ").concat(
                cause.as_str(),
            ),
            Error::Configuration(cause) => String::from_str("Configuration error: ").concat(
                cause.as_str(),
            ),
            Error::Database(cause) => String::from_str("Database error: ").concat(cause.as_str()),
            Error::PasswordGeneration(cause) => String::from_str(
                "Password generation error: ",
            ).concat(cause.as_str()),
            Error::IncorrectCredentials => String::from_str(
                "Invalid credentials (incorrect username/password)",
            ),
            Error::MissingState(name) => String::from_str(
                "Missing application state (critical): <",
            ).concat(name.as_str()).concat(">"),
            Error::InvalidUserType(kinds) => String::from_str(
                "Invalid user type: should be one of [",
            ).concat(kinds.as_str()).concat("]"),
            Error::UnknownPermission(segment) => String::from_str("Unknown permission: ").concat(
                segment.as_str(),
            ),
            Error::InvalidSegment(name) => String::from_str("Invalid permission node name: ").concat(
                name.as_str(),
            ),
            Error::DuplicateSegment(segment) => String::from_str(
                "Duplicate permission segment: ",
            ).concat(segment.as_str()),
            Error::InvalidUuid(text) => String::from_str("Invalid UUID: ").concat(text.as_str()),
            Error::UnexpectedToken(_) => String::from_str("Unexpected token in a permission tree"),
            Error::MissingAuthorization => String::from_str("Missing or unresolvable authorization"),
        }
    }

    /// What a transport shows of the failure.
    pub fn metadata(&self) -> (r: ErrorMeta)
        ensures
            r.status == self.status_of(),
            r.code@ == self.code_of(),
            r.message@ == self.message_of(),
            r.description@ == Seq::<char>::empty(),
    {
        ErrorMeta {
            status: self.status(),
            code: self.code(),
            message: self.message(),
            description: String::new(),
        }
    }
}

} // verus!
