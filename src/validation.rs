use serde_json::{Number, Value};
use vstd::prelude::*;

use crate::auth::{Authentication, AuthenticationDetails, AuthenticationError, ChannelDetails};
use crate::date::get_local_now_formatted;

verus! {

#[verifier::external_type_specification]
#[verifier::external_body]
pub struct ExValue(Value);

#[verifier::external_type_specification]
#[verifier::external_body]
pub struct ExNumber(Number);

/// A member of a JSON object, told apart by kind.
#[derive(Debug)]
pub enum JsonMember {
    Text(String),
    Number(Number),
    /// A `null` member, or no member of that name.
    Null,
    Other,
}

/// A member of a JSON object as plain values.
#[derive(Debug)]
pub enum JsonField {
    Text(String),
    /// A number, with its value where it is an integer that fits an `i64`.
    Integer(Option<i64>),
    /// A `null` member, or no member of that name.
    Null,
    Other,
}

/// The members of the token validation endpoint's reply that decide the
/// outcome.
#[derive(Debug)]
pub struct ValidationReply {
    pub login: JsonField,
    pub expires_in: JsonField,
    pub client_id: JsonField,
    pub message: JsonField,
}

/// Relies on `serde_json::from_str`: parses JSON text into a value, or gives
/// the parser's description of why it cannot.
#[verifier::external_body]
fn parse_json(text: &str) -> Result<Value, String> {
    serde_json::from_str::<Value>(text).map_err(|e| e.to_string())
}

/// Relies on serde_json's `Value::get`: the member `key` of an object, none
/// for a missing member or a value that is not an object.
#[verifier::external_body]
fn json_member(value: &Value, key: &str) -> JsonMember {
    match value.get(key) {
        Some(Value::String(s)) => JsonMember::Text(s.clone()),
        Some(Value::Number(n)) => JsonMember::Number(n.clone()),
        Some(Value::Null) | None => JsonMember::Null,
        Some(_) => JsonMember::Other,
    }
}

/// Relies on serde_json's `Number::as_i64`: the number as an `i64` where it is
/// an integer in range.
#[verifier::external_body]
fn number_as_i64(n: &Number) -> Option<i64> {
    n.as_i64()
}

fn field_of(member: JsonMember) -> JsonField {
    match member {
        JsonMember::Text(s) => JsonField::Text(s),
        JsonMember::Number(n) => JsonField::Integer(number_as_i64(&n)),
        JsonMember::Null => JsonField::Null,
        JsonMember::Other => JsonField::Other,
    }
}

/// The deciding members of a reply body, or a parsing error when the body is
/// not JSON.
pub fn read_validation_reply(body: &str) -> (r: Result<ValidationReply, AuthenticationError>) {
    match parse_json(body) {
        Ok(value) => Ok(
            ValidationReply {
                login: field_of(json_member(&value, "login")),
                expires_in: field_of(json_member(&value, "expires_in")),
                client_id: field_of(json_member(&value, "client_id")),
                message: field_of(json_member(&value, "message")),
            },
        ),
        Err(e) => Err(AuthenticationError::ParsingError(e)),
    }
}

/// The error text for a lifetime that is not an `i64`.
pub open spec fn bad_lifetime_reason() -> Seq<char> {
    "Failed to convert expires_in value"@
}

/// The error text for a reply of an unexpected shape.
pub open spec fn bad_reply_reason() -> Seq<char> {
    "Failed to parse response contents"@
}

/// What a validation reply means for `access_token`: with a text login, a
/// number lifetime and a text client id, a valid sign-in (an error if the
/// lifetime is not an `i64`); with those three absent and a text message, an
/// invalid sign-in for that reason; otherwise an error.
pub fn interpret_validation(access_token: String, reply: ValidationReply) -> (r: Result<
    Authentication,
    AuthenticationError,
>)
    ensures
        match (reply.login, reply.expires_in, reply.client_id) {
            (JsonField::Text(login), JsonField::Integer(Some(e)), JsonField::Text(client_id)) => r
                matches Ok(Authentication::Valid { details, last_validated }) && details.access_token
                == access_token && details.login == login && details.client_id == client_id
                && details.expires_in == e && details.channel_details is Disconnected
                && last_validated is Some,
            (JsonField::Text(_), JsonField::Integer(None), JsonField::Text(_)) => r matches Err(
                AuthenticationError::ParsingError(m),
            ) && m@ == bad_lifetime_reason(),
            (JsonField::Null, JsonField::Null, JsonField::Null) => match reply.message {
                JsonField::Text(m) => r matches Ok(Authentication::Invalid { reason }) && reason
                    == m,
                _ => r matches Err(AuthenticationError::ParsingError(m)) && m@
                    == bad_reply_reason(),
            },
            _ => r matches Err(AuthenticationError::ParsingError(m)) && m@ == bad_reply_reason(),
        },
{
    match (reply.login, reply.expires_in, reply.client_id, reply.message) {
        (JsonField::Text(login), JsonField::Integer(lifetime), JsonField::Text(client_id), _) => {
            match lifetime {
                Some(expires_in) => Ok(
                    Authentication::Valid {
                        details: AuthenticationDetails {
                            access_token,
                            client_id,
                            login,
                            expires_in,
                            channel_details: ChannelDetails::Disconnected,
                        },
                        last_validated: Some(get_local_now_formatted()),
                    },
                ),
                None => Err(
                    AuthenticationError::ParsingError(
                        String::from_str("Failed to convert expires_in value"),
                    ),
                ),
            }
        },
        (JsonField::Null, JsonField::Null, JsonField::Null, JsonField::Text(message)) => Ok(
            Authentication::Invalid { reason: message },
        ),
        _ => Err(
            AuthenticationError::ParsingError(
                String::from_str("Failed to parse response contents"),
            ),
        ),
    }
}

/// What the validation endpoint's reply `body` means for `access_token`: a
/// parsing error when it is not JSON, else as `interpret_validation` says.
pub fn validate_reply(access_token: String, body: &str) -> (r: Result<
    Authentication,
    AuthenticationError,
>)
    ensures
        r matches Ok(Authentication::Valid { details, .. }) ==> details.access_token
            == access_token,
{
    match read_validation_reply(body) {
        Ok(reply) => interpret_validation(access_token, reply),
        Err(e) => Err(e),
    }
}

} // verus!
