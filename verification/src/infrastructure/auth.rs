//! Firebase sessions and the rules for reading Firebase's replies.
//!
//! The HTTP exchange with Firebase happens outside the library; what it
//! decides about the replies is here.
use vstd::prelude::*;

use crate::text::{decimal, parse_u64, parsed_u64, push_decimal};

verus! {

/// A signed-in Firebase session.
#[derive(Debug, Clone, PartialEq, Eq)]
pub struct AuthSession {
    pub id_token: String,
    pub refresh_token: String,
    /// Seconds until the id token expires.
    pub expires_in: u64,
    pub user_id: String,
    pub email: Option<String>,
    /// The company claim of the user, when Firebase reports one.
    pub company_id: Option<String>,
}

/// Why Firebase did not give a usable session. Failures of the HTTP exchange
/// itself are reported by the layer that performs it.
#[derive(Debug, PartialEq, Eq)]
pub enum AuthError {
    /// Firebase answered with an error status and message.
    Firebase { status: u16, message: String },
    /// The `expiresIn` value was not a number of seconds.
    InvalidExpiry,
}

impl AuthError {
    pub open spec fn spec_message(self) -> Seq<char> {
        match self {
            AuthError::Firebase { status, message } => "Firebase authentication failed ("@
                + decimal(status as nat) + "): "@ + message@,
            AuthError::InvalidExpiry => "Firebase returned an invalid expiresIn value"@,
        }
    }

    /// The message shown for the error.
    pub fn message(&self) -> (r: String)
        ensures
            r@ == self.spec_message(),
    {
        match self {
            AuthError::Firebase { status, message } => {
                let mut r = String::from_str("Firebase authentication failed (");
                push_decimal(&mut r, *status as u64);
                r.append("): ");
                r.append(message.as_str());
                r
            },
            AuthError::InvalidExpiry => String::from_str(
                "Firebase returned an invalid expiresIn value",
            ),
        }
    }
}

/// Reads Firebase's `expiresIn` value: a decimal number of seconds.
pub fn parse_expiry(value: &str) -> (r: Result<u64, AuthError>)
    ensures
        match parsed_u64(value@) {
            Some(n) => r == Ok::<u64, AuthError>(n),
            None => r == Err::<u64, AuthError>(AuthError::InvalidExpiry),
        },
{
    match parse_u64(value) {
        Some(n) => Ok(n),
        None => Err(AuthError::InvalidExpiry),
    }
}

/// The message of a Firebase error reply: the one in its body, or a generic
/// one when the body could not be read.
pub fn firebase_error(status: u16, body_message: Option<String>) -> (r: AuthError)
    ensures
        match r {
            AuthError::Firebase { status: s, message } => s == status && message@ == (
            match body_message {
                Some(m) => m@,
                None => "unknown Firebase authentication error"@,
            }),
            AuthError::InvalidExpiry => false,
        },
{
    let message = match body_message {
        Some(m) => m,
        None => String::from_str("unknown Firebase authentication error"),
    };
    AuthError::Firebase { status, message }
}

} // verus!
