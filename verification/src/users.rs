//! Users, and the requests that read and change them.

use crate::client::{optional_str, optional_text, Client, SignedRequest};
use crate::errors::ClientError;
use crate::json::{append_member, json_string, json_string_text, member_text};
use crate::signing::Method;
use vstd::prelude::*;

verus! {

#[derive(Debug, Clone)]
pub struct User {
    /// Resource ID
    pub id: String,
    /// constant `"user"`
    pub resource: String,
    pub resource_path: String,
    /// User's public name
    pub name: Option<String>,
    /// Payment method's native currency
    pub username: Option<String>,
    /// Location for user's public profile
    pub profile_location: Option<String>,
    /// Bio for user's public profile
    pub profile_bio: Option<String>,
    /// Public profile location if user has one
    pub profile_url: Option<String>,
    /// User's avatar url
    pub avatar_url: String,
}

#[derive(Debug, Clone)]
pub struct Auth {
    pub method: String,
    pub scopes: Vec<String>,
}

/// A partial update of the current user. A field that is `None` is not
/// sent at all, which leaves the stored value as it is.
#[derive(Debug, Clone)]
pub struct UserUpdate<'a> {
    /// User's public name
    pub name: Option<&'a str>,
    /// Time zone
    pub time_zone: Option<&'a str>,
    /// Local currency used to display amounts converted from BTC
    pub native_currency: Option<&'a str>,
}

/// The JSON object of an update whose present fields have the given
/// encoded values: the members in the order `name`, `time_zone`,
/// `native_currency`, with commas between them and nothing for an absent
/// field.
pub open spec fn update_object_text(
    name: Option<Seq<char>>,
    time_zone: Option<Seq<char>>,
    native_currency: Option<Seq<char>>,
) -> Seq<char> {
    seq!['{'] + member_text("\"name\":"@, name, false) + member_text(
        "\"time_zone\":"@,
        time_zone,
        name is Some,
    ) + member_text("\"native_currency\":"@, native_currency, name is Some || time_zone is Some)
        + seq!['}']
}

/// The JSON string of an optional text.
pub open spec fn optional_json(value: Option<&str>) -> Option<Seq<char>> {
    match value {
        Some(v) => Some(json_string_text(v@)),
        None => None,
    }
}

/// Encodes a field that is present.
fn encode_field(value: Option<&str>) -> (r: Result<Option<String>, ClientError>)
    ensures
        r is Ok,
        r matches Ok(encoded) ==> optional_text(encoded) == optional_json(value),
{
    match value {
        Some(v) => match json_string(v) {
            Ok(json) => Ok(Some(json)),
            Err(err) => Err(ClientError::Json(err)),
        },
        None => Ok(None),
    }
}

/// The string slice of an optional string.
fn as_optional_str(value: &Option<String>) -> (r: Option<&str>)
    ensures
        optional_str(r) == optional_text(*value),
{
    match value {
        Some(v) => Some(v.as_str()),
        None => None,
    }
}

impl<'a> UserUpdate<'a> {
    /// The JSON body of the update.
    pub open spec fn json_text(&self) -> Seq<char> {
        update_object_text(
            optional_json(self.name),
            optional_json(self.time_zone),
            optional_json(self.native_currency),
        )
    }

    /// Puts an update together from the encoded values of its present
    /// fields.
    pub fn assemble(
        name: Option<&str>,
        time_zone: Option<&str>,
        native_currency: Option<&str>,
    ) -> (r: String)
        ensures
            r@ == update_object_text(
                optional_str(name),
                optional_str(time_zone),
                optional_str(native_currency),
            ),
    {
        proof {
            reveal_strlit("{");
            reveal_strlit("}");
        }
        let mut out = "{".to_owned();
        append_member(&mut out, "\"name\":", name, false);
        append_member(&mut out, "\"time_zone\":", time_zone, name.is_some());
        append_member(
            &mut out,
            "\"native_currency\":",
            native_currency,
            name.is_some() || time_zone.is_some(),
        );
        out.append("}");
        assert(out@ =~= update_object_text(
            optional_str(name),
            optional_str(time_zone),
            optional_str(native_currency),
        ));
        out
    }

    /// Writes the update as JSON. Every update can be written: an update
    /// without fields is `{}`.
    pub fn to_json(&self) -> (r: Result<String, ClientError>)
        ensures
            r is Ok,
            r matches Ok(json) ==> json@ == self.json_text(),
    {
        let name = match encode_field(self.name) {
            Ok(encoded) => encoded,
            Err(err) => {
                return Err(err);
            },
        };
        let time_zone = match encode_field(self.time_zone) {
            Ok(encoded) => encoded,
            Err(err) => {
                return Err(err);
            },
        };
        let native_currency = match encode_field(self.native_currency) {
            Ok(encoded) => encoded,
            Err(err) => {
                return Err(err);
            },
        };
        Ok(
            Self::assemble(
                as_optional_str(&name),
                as_optional_str(&time_zone),
                as_optional_str(&native_currency),
            ),
        )
    }
}

/// The body of an update that sets the name alone holds the name alone:
/// nothing stands in it for the two absent fields.
pub proof fn lemma_name_alone(update: UserUpdate)
    requires
        update.name is Some,
        update.time_zone is None,
        update.native_currency is None,
    ensures
        update.json_text() == seq!['{'] + "\"name\":"@ + json_string_text(update.name->0@)
            + seq!['}'],
{
    assert(update.json_text() =~= seq!['{'] + "\"name\":"@ + json_string_text(update.name->0@)
        + seq!['}']);
}

/// The body of an update that sets nothing is the empty object.
pub proof fn lemma_empty_update(update: UserUpdate)
    requires
        update.name is None,
        update.time_zone is None,
        update.native_currency is None,
    ensures
        update.json_text() == seq!['{', '}'],
{
    assert(update.json_text() =~= seq!['{', '}']);
}

/// The relative path of a user.
pub open spec fn user_path(user_id: Seq<char>) -> Seq<char> {
    "users/"@ + user_id
}

impl Client {
    /// Show a user
    ///
    /// Prepares the request for any user's public information, by the
    /// user's ID.
    pub fn get_user(&self, user_id: &str) -> (r: SignedRequest)
        ensures
            self.prepares(Method::Get, user_path(user_id@), None, r),
    {
        let mut path = "users/".to_owned();
        path.append(user_id);
        self.send_request(Method::Get, path.as_str(), None)
    }

    /// Show current user
    ///
    /// Prepares the request for the current user's public information.
    pub fn get_current_user(&self) -> (r: SignedRequest)
        ensures
            self.prepares(Method::Get, "user"@, None, r),
    {
        self.send_request(Method::Get, "user", None)
    }

    /// Show authorization information
    ///
    /// Prepares the request for the current user's authorization
    /// information.
    pub fn get_auth_info(&self) -> (r: SignedRequest)
        ensures
            self.prepares(Method::Get, "user/auth"@, None, r),
    {
        self.send_request(Method::Get, "user/auth", None)
    }

    /// Update current user
    ///
    /// Prepares the request that changes the current user, with the JSON of
    /// `update` as its body.
    pub fn update_user<'a>(&self, update: &'a UserUpdate<'a>) -> (r: Result<
        SignedRequest,
        ClientError,
    >)
        ensures
            r is Ok,
            r matches Ok(request) ==> self.prepares(
                Method::Put,
                "user"@,
                Some(update.json_text()),
                request,
            ),
    {
        match update.to_json() {
            Ok(body) => Ok(self.send_request(Method::Put, "user", Some(body.as_str()))),
            Err(err) => Err(err),
        }
    }
}

} // verus!
