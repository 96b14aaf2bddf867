//! The failures that a request can end in.

use crate::decimal::{decimal_string, decimal_text};
use vstd::prelude::*;
use vstd::std_specs::convert::FromSpecImpl;
use vstd::string::to_string_from_display_ensures;

verus! {

/// `serde_json::Error`, carried as it is: nothing is known of its inside.
#[verifier::external_type_specification]
#[verifier::external_body]
pub struct ExJsonError(serde_json::Error);

/// `reqwest::Error`, carried as it is: nothing is known of its inside.
#[verifier::external_type_specification]
#[verifier::external_body]
pub struct ExTransportError(reqwest::Error);

/// The text that `reqwest::StatusCode` displays for a code that it
/// accepts: the number, a space and the canonical reason phrase.
pub uninterp spec fn status_display(code: u16) -> Seq<char>;

/// `reqwest::StatusCode::from_u16` and, on the status it returns,
/// `Display`. `from_u16` accepts exactly the codes from 100 to 999, so the
/// result is `Some` on those and `None` on every other code; the text
/// depends on the code alone.
#[verifier::external_body]
fn status_text(code: u16) -> (r: Option<String>)
    ensures
        r is Some <==> 100 <= code < 1000,
        r matches Some(text) ==> text@ == status_display(code),
{
    match reqwest::StatusCode::from_u16(code) {
        Ok(status) => Some(status.to_string()),
        Err(_) => None,
    }
}

/// The secret was refused as a key for the request signature.
#[derive(Debug, Clone, Copy, PartialEq, Eq)]
pub struct InvalidKeyLength;

/// The server answered with a status other than 200.
#[derive(Debug, Clone)]
pub struct CoinbaseError {
    /// The HTTP status code associated with the error.
    pub status_code: u16,
}

impl CoinbaseError {
    /// What the status code contributes to the message: the status line
    /// of a code in the HTTP range, the bare number otherwise.
    pub open spec fn status_part(code: u16) -> Seq<char> {
        if 100 <= code < 1000 {
            status_display(code)
        } else {
            decimal_text(code as int)
        }
    }

    /// The text of `message`.
    pub open spec fn message_text(&self) -> Seq<char> {
        "Coinbase Error - code: "@ + Self::status_part(self.status_code)
    }

    /// A one-line description of the error.
    pub fn message(&self) -> (r: String)
        ensures
            r@ == self.message_text(),
    {
        let mut out = "Coinbase Error - code: ".to_owned();
        match status_text(self.status_code) {
            Some(text) => {
                out.append(text.as_str());
            },
            None => {
                let number = decimal_string(self.status_code as i64);
                out.append(number.as_str());
            },
        }
        out
    }
}

/// Every way in which a request can fail.
#[derive(Debug)]
pub enum ClientError {
    /// Error returned by Coinbase
    Coinbase(CoinbaseError),
    /// Error when sending request
    Request(reqwest::Error),
    /// Error when serializing/deserializing error
    Json(serde_json::Error),
}

impl ClientError {
    /// Whether `text` is the message of this error: the fixed prefix, then
    /// the description of what the error wraps.
    pub open spec fn has_message(&self, text: Seq<char>) -> bool {
        match self {
            ClientError::Coinbase(err) => text == "Error - "@ + err.message_text(),
            ClientError::Request(err) => exists|detail: String|
                to_string_from_display_ensures(err, detail) && text == "Error - "@ + detail@,
            ClientError::Json(err) => exists|detail: String|
                to_string_from_display_ensures(err, detail) && text == "Error - "@ + detail@,
        }
    }

    /// A one-line description of the error.
    pub fn message(&self) -> (r: String)
        ensures
            self.has_message(r@),
    {
        let detail = match self {
            ClientError::Coinbase(err) => err.message(),
            ClientError::Request(err) => err.to_string(),
            ClientError::Json(err) => err.to_string(),
        };
        let mut out = "Error - ".to_owned();
        out.append(detail.as_str());
        out
    }
}

impl From<CoinbaseError> for ClientError {
    fn from(err: CoinbaseError) -> (r: ClientError) {
        ClientError::Coinbase(err)
    }
}

impl FromSpecImpl<CoinbaseError> for ClientError {
    open spec fn obeys_from_spec() -> bool {
        true
    }

    open spec fn from_spec(err: CoinbaseError) -> ClientError {
        ClientError::Coinbase(err)
    }
}

impl From<serde_json::Error> for ClientError {
    fn from(err: serde_json::Error) -> (r: ClientError) {
        ClientError::Json(err)
    }
}

impl FromSpecImpl<serde_json::Error> for ClientError {
    open spec fn obeys_from_spec() -> bool {
        true
    }

    open spec fn from_spec(err: serde_json::Error) -> ClientError {
        ClientError::Json(err)
    }
}

impl From<reqwest::Error> for ClientError {
    fn from(err: reqwest::Error) -> (r: ClientError) {
        ClientError::Request(err)
    }
}

impl FromSpecImpl<reqwest::Error> for ClientError {
    open spec fn obeys_from_spec() -> bool {
        true
    }

    open spec fn from_spec(err: reqwest::Error) -> ClientError {
        ClientError::Request(err)
    }
}

} // verus!
