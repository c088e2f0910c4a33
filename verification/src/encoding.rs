//! The value of the `Authorization` header under the Basic scheme.

use vstd::prelude::*;
use vstd::string::*;
use vstd::utf8::*;
use base64::Engine;

verus! {

/// The standard, padded Base64 text of a byte string.
pub uninterp spec fn base64_standard(bytes: Seq<u8>) -> Seq<char>;

/// Calls `base64::Engine::encode_string` on the `STANDARD` engine with an
/// empty buffer. The contract claims that the buffer then holds the standard
/// padded Base64 text of `bytes`, and that this text depends on `bytes`
/// alone. The engine encodes in fixed-size chunks and computes no total
/// length up front, so no input is refused.
#[verifier::external_body]
fn base64_encode(bytes: &[u8]) -> (text: String)
    ensures
        text@ == base64_standard(bytes@),
{
    let mut text = String::new();
    base64::prelude::BASE64_STANDARD.encode_string(bytes, &mut text);
    text
}

/// The text that the Basic scheme encodes: user name, a colon, password.
pub open spec fn credentials_text(username: Seq<char>, password: Seq<char>) -> Seq<char> {
    username + seq![':'] + password
}

/// A header value under the Basic scheme for an already encoded token.
pub open spec fn basic_scheme(token: Seq<char>) -> Seq<char> {
    "Basic "@ + token
}

/// The value of the `Authorization` header for a user name and a password.
pub open spec fn basic_authorization(username: Seq<char>, password: Seq<char>) -> Seq<char> {
    basic_scheme(base64_standard(encode_utf8(credentials_text(username, password))))
}

/// Joins a user name and a password with a colon.
pub fn join_credentials(username: &str, password: &str) -> (text: String)
    ensures
        text@ == credentials_text(username@, password@),
{
    let mut text = String::from_str(username);
    text.append(":");
    text.append(password);
    proof {
        reveal_strlit(":");
        assert(":"@ =~= seq![':']);
    }
    text
}

/// Puts the scheme's name and a space in front of an encoded token.
pub fn basic_scheme_value(token: &str) -> (value: String)
    ensures
        value@ == basic_scheme(token@),
{
    let mut value = String::from_str("Basic ");
    value.append(token);
    value
}

/// Computes the `Authorization` header value for a user name and a password.
pub fn basic_authorization_value(username: &str, password: &str) -> (value: String)
    ensures
        value@ == basic_authorization(username@, password@),
{
    let text = join_credentials(username, password);
    let token = base64_encode(text.as_str().as_bytes());
    basic_scheme_value(token.as_str())
}

} // verus!
