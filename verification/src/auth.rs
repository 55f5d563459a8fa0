//! Who may use the relay: the authorization header held against the tokens.

use crate::credentials::{is_valid_token, valid_tokens, CredentialSet};
use crate::text::{has_prefix, optional_text, strip_prefix};
use vstd::prelude::*;
use vstd::string::*;

verus! {

/// The HTTP status of a request that was not authorized.
pub const UNAUTHORIZED: u16 = 401;

/// The word that may stand before the token in the header, with its space.
pub open spec fn bearer_prefix() -> Seq<char> {
    seq!['B', 'e', 'a', 'r', 'e', 'r', ' ']
}

/// The token that a header presents: what follows the bearer prefix, or the
/// whole header if it does not begin with the prefix.
pub open spec fn presented_token(header: Seq<char>) -> Seq<char> {
    if has_prefix(header, bearer_prefix()) {
        header.skip(bearer_prefix().len() as int)
    } else {
        header
    }
}

/// Why a request was not authorized.
#[derive(Clone, Copy, Debug, PartialEq, Eq, Structural)]
pub enum AuthError {
    /// The request had no authorization header.
    MissingToken,
    /// The header presented a token that is not in the set.
    InvalidToken,
}

/// The mark of an authorized request.
#[derive(Clone, Copy, Debug, PartialEq, Eq, Structural)]
pub struct Auth;

/// What becomes of a request with the authorization header `header`, where
/// `tokens` are the tokens that open the relay.
pub open spec fn decision(header: Option<Seq<char>>, tokens: Seq<Seq<char>>) -> Result<
    Auth,
    AuthError,
> {
    match header {
        None => Err(AuthError::MissingToken),
        Some(h) => if tokens.contains(presented_token(h)) {
            Ok(Auth)
        } else {
            Err(AuthError::InvalidToken)
        },
    }
}

impl AuthError {
    /// The words that tell the caller why the request was not authorized.
    pub open spec fn reason(self) -> Seq<char> {
        match self {
            AuthError::MissingToken => "Missing Authorization token."@,
            AuthError::InvalidToken => "Invalid Authorization token."@,
        }
    }

    /// Writes the words that tell the caller why the request was not
    /// authorized. They are never empty.
    pub fn message(&self) -> (text: String)
        ensures
            text@ == self.reason(),
            text@.len() > 0,
    {
        proof {
            reveal_strlit("Missing Authorization token.");
            reveal_strlit("Invalid Authorization token.");
        }
        match self {
            AuthError::MissingToken => String::from_str("Missing Authorization token."),
            AuthError::InvalidToken => String::from_str("Invalid Authorization token."),
        }
    }

    /// The HTTP status that answers the request: always 401.
    pub fn status(&self) -> (code: u16)
        ensures
            code == UNAUTHORIZED,
    {
        UNAUTHORIZED
    }
}

/// Takes the token out of an authorization header.
pub fn token_of<'a>(header: &'a str) -> (token: &'a str)
    ensures
        token@ == presented_token(header@),
{
    proof {
        reveal_strlit("Bearer ");
        assert("Bearer "@ =~= bearer_prefix());
    }
    match strip_prefix(header, "Bearer ") {
        Some(rest) => rest,
        None => header,
    }
}

/// Decides whether a request may use the relay. A request without a header
/// is turned away as missing its token, one whose token is not in the set as
/// presenting an invalid one; any other is authorized.
pub fn authenticate(header: Option<&str>, credentials: &CredentialSet) -> (outcome: Result<
    Auth,
    AuthError,
>)
    ensures
        outcome == decision(optional_text(header), credentials@),
{
    match header {
        None => Err(AuthError::MissingToken),
        Some(h) => if is_valid_token(credentials, token_of(h)) {
            Ok(Auth)
        } else {
            Err(AuthError::InvalidToken)
        },
    }
}

/// A header made of the bearer prefix and a token is authorized if and only
/// if the token is in the set.
pub proof fn bearer_header_authorized_iff_member(tokens: Seq<Seq<char>>, token: Seq<char>)
    ensures
        decision(Some(bearer_prefix() + token), tokens) == if tokens.contains(token) {
            Ok::<Auth, AuthError>(Auth)
        } else {
            Err::<Auth, AuthError>(AuthError::InvalidToken)
        },
{
    let header = bearer_prefix() + token;
    assert(header.subrange(0, bearer_prefix().len() as int) =~= bearer_prefix());
    assert(header.skip(bearer_prefix().len() as int) =~= token);
}

/// A request without a header is never authorized: it is turned away as
/// missing its token, whatever the set holds.
pub proof fn missing_header_rejected(tokens: Seq<Seq<char>>)
    ensures
        decision(None, tokens) == Err::<Auth, AuthError>(AuthError::MissingToken),
        AuthError::MissingToken.reason() == "Missing Authorization token."@,
{
}

/// A header that is a token of the set, with no prefix before it, is
/// authorized.
pub proof fn bare_token_authorized(tokens: Seq<Seq<char>>, token: Seq<char>)
    requires
        valid_tokens(tokens),
        tokens.contains(token),
    ensures
        decision(Some(token), tokens) == Ok::<Auth, AuthError>(Auth),
{
    if has_prefix(token, bearer_prefix()) {
        // A token holds no space, and the prefix ends in one.
        assert(token.subrange(0, bearer_prefix().len() as int)[6] == ' ');
        assert(token[6] == ' ');
        assert(token.contains(' '));
    }
}

} // verus!
