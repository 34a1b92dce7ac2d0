//! Who is calling: HTTP Basic credentials and their check against a user
//! of the durable store. Passwords are compared as plain text.

use vstd::prelude::*;
use vstd::string::*;
use vstd::utf8::{decode_utf8, encode_utf8, encode_utf8_decode_utf8, valid_utf8};
use base64::engine::general_purpose::STANDARD;
use base64::Engine;
use crate::protocol::{HTTP_INTERNAL, HTTP_UNAUTHORIZED};
use crate::text::{before_char, find_char, has_prefix, lemma_before_char, strip_prefix};

verus! {

/// The bytes that a text in standard base64 with padding stands for;
/// nothing for a text that is no such encoding.
pub uninterp spec fn base64_standard(text: Seq<char>) -> Option<Seq<u8>>;

/// Why a text is no base64. It is carried through as it is.
#[verifier::external_type_specification]
#[verifier::external_body]
pub struct ExDecodeError(base64::DecodeError);

/// `Engine::decode` of `base64::engine::general_purpose::STANDARD`: the
/// bytes that the text encodes, or an error where it encodes none. The
/// answer depends on the text alone.
#[verifier::external_body]
fn base64_decode(text: &str) -> (decoded: Result<Vec<u8>, base64::DecodeError>)
    ensures
        decoded is Ok <==> base64_standard(text@) is Some,
        decoded is Ok ==> decoded->Ok_0@ == base64_standard(text@)->0,
{
    STANDARD.decode(text)
}

/// `String::from_utf8` of the standard library: the string made of the
/// given bytes, where they are UTF-8, and nothing where they are not.
#[verifier::external_body]
fn string_from_utf8(bytes: Vec<u8>) -> (text: Option<String>)
    ensures
        text is Some <==> valid_utf8(bytes@),
        text is Some ==> encode_utf8(text->0@) == bytes@,
{
    match String::from_utf8(bytes) {
        Ok(text) => Some(text),
        Err(_) => None,
    }
}

/// A user as the durable store holds it, as far as the engine reads it.
#[derive(Debug, Clone)]
pub struct User {
    pub user_id: i32,
    pub email: String,
    pub password_hash: String,
    pub password_plain: Option<String>,
    pub first_name: String,
    pub surname: String,
    pub is_active: bool,
}

/// A caller whose credentials were accepted.
#[derive(Debug, Clone)]
pub struct AuthUser {
    pub user_id: i32,
    pub email: String,
    pub first_name: String,
    pub surname: String,
}

/// What a caller claims to be.
#[derive(Debug, Clone)]
pub struct Credentials {
    pub email: String,
    pub password: String,
}

/// Why a caller was not accepted.
#[derive(Clone, Copy, Debug, PartialEq, Eq, Structural)]
pub enum AuthError {
    /// Credentials are missing, malformed or wrong.
    Unauthorized,
    /// The durable store could not be asked.
    Internal,
}

impl AuthError {
    /// The HTTP status that goes with the value.
    pub open spec fn spec_http_status(self) -> u16 {
        match self {
            AuthError::Unauthorized => HTTP_UNAUTHORIZED,
            AuthError::Internal => HTTP_INTERNAL,
        }
    }

    /// The HTTP status a caller is turned away with.
    pub fn http_status(self) -> (status: u16)
        ensures
            status == self.spec_http_status(),
    {
        match self {
            AuthError::Unauthorized => HTTP_UNAUTHORIZED,
            AuthError::Internal => HTTP_INTERNAL,
        }
    }
}

/// Email and password in a text of the form `email:password`: the email
/// ends at the first colon, the password is all that follows. A text
/// without a colon holds no credentials.
pub open spec fn spec_split_credentials(text: Seq<char>) -> Option<(Seq<char>, Seq<char>)> {
    let email = before_char(text, ':');
    if email.len() < text.len() {
        Some((email, text.subrange(email.len() as int + 1, text.len() as int)))
    } else {
        None
    }
}

/// The credentials in the value of an `Authorization` header: the value is
/// `Basic `, then the base64 encoding of `email:password` in UTF-8.
pub open spec fn spec_basic_credentials(header: Seq<char>) -> Option<(Seq<char>, Seq<char>)> {
    if !has_prefix(header, "Basic "@) {
        None
    } else {
        match base64_standard(header.subrange("Basic "@.len() as int, header.len() as int)) {
            Some(bytes) => if valid_utf8(bytes) {
                spec_split_credentials(decode_utf8(bytes))
            } else {
                None
            },
            None => None,
        }
    }
}

/// Splits `email:password` at the first colon.
pub fn split_credentials(text: &str) -> (credentials: Option<Credentials>)
    ensures
        match credentials {
            Some(c) => spec_split_credentials(text@) == Some((c.email@, c.password@)),
            None => spec_split_credentials(text@) is None,
        },
{
    let len = text.unicode_len();
    match find_char(text, ':') {
        Some(colon) => {
            proof {
                lemma_before_char(text@, ':', colon as int);
            }
            Some(
                Credentials {
                    email: String::from_str(text.substring_char(0, colon)),
                    password: String::from_str(text.substring_char(colon + 1, len)),
                },
            )
        },
        None => {
            proof {
                lemma_before_char(text@, ':', len as int);
                assert(text@.subrange(0, len as int) =~= text@);
            }
            None
        },
    }
}

/// Reads the credentials out of the value of an `Authorization` header.
/// Whatever is wrong with the value, the caller is unauthorized.
pub fn parse_basic_authorization(header: &str) -> (credentials: Result<Credentials, AuthError>)
    ensures
        match credentials {
            Ok(c) => spec_basic_credentials(header@) == Some((c.email@, c.password@)),
            Err(error) => error == AuthError::Unauthorized && spec_basic_credentials(header@) is None,
        },
{
    let encoded = match strip_prefix(header, "Basic ") {
        Some(encoded) => encoded,
        None => return Err(AuthError::Unauthorized),
    };
    let bytes = match base64_decode(encoded) {
        Ok(bytes) => bytes,
        Err(_) => return Err(AuthError::Unauthorized),
    };
    let ghost raw = bytes@;
    let text = match string_from_utf8(bytes) {
        Some(text) => text,
        None => return Err(AuthError::Unauthorized),
    };
    proof {
        encode_utf8_decode_utf8(text@);
        assert(text@ == decode_utf8(raw));
    }
    match split_credentials(text.as_str()) {
        Some(credentials) => Ok(credentials),
        None => Err(AuthError::Unauthorized),
    }
}

impl User {
    /// Whether `password` is the user's password. A user without a plain
    /// password has none that matches.
    pub open spec fn spec_verify_password(&self, password: Seq<char>) -> bool {
        self.password_plain is Some && self.password_plain->0@ == password
    }

    /// Whether `password` is the user's password.
    pub fn verify_password(&self, password: &str) -> (matches: bool)
        ensures
            matches == self.spec_verify_password(password@),
    {
        match &self.password_plain {
            Some(plain) => *plain.as_str() == *password,
            None => false,
        }
    }
}

/// Whether a user of the store is accepted with a password: the user must
/// be there, be active, and have this password.
pub open spec fn spec_accepted(user: Option<User>, password: Seq<char>) -> bool {
    user is Some && user->0.is_active && user->0.spec_verify_password(password)
}

/// Checks a password against the user that was found for an email, if any.
pub fn authenticate(user: Option<User>, password: &str) -> (caller: Result<AuthUser, AuthError>)
    ensures
        match caller {
            Ok(c) => {
                &&& spec_accepted(user, password@)
                &&& c.user_id == user->0.user_id
                &&& c.email == user->0.email
                &&& c.first_name == user->0.first_name
                &&& c.surname == user->0.surname
            },
            Err(error) => error == AuthError::Unauthorized && !spec_accepted(user, password@),
        },
{
    match user {
        Some(user) => {
            if user.is_active && user.verify_password(password) {
                Ok(
                    AuthUser {
                        user_id: user.user_id,
                        email: user.email,
                        first_name: user.first_name,
                        surname: user.surname,
                    },
                )
            } else {
                Err(AuthError::Unauthorized)
            }
        },
        None => Err(AuthError::Unauthorized),
    }
}

} // verus!
