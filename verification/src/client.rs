//! The credential store, the signed dispatcher and the pagination helper.

use crate::decimal::{decimal_string, decimal_text, lemma_decimal_text_tells_numbers};
use crate::errors::{ClientError, CoinbaseError, InvalidKeyLength};
use crate::signing::{
    hmac_sha256, is_hex_char, lemma_hex_text_shape, lemma_signature_follows_code,
    lemma_signing_text_tells_bodies, lemma_signing_text_tells_methods,
    lemma_signing_text_tells_paths, lemma_signing_text_tells_timestamps, mac_key_fits,
    mac_takes_key, sign, signature_text, signing_string, signing_text, Method, SIGNATURE_LENGTH,
};
use crate::time::current_time;
use vstd::prelude::*;
use vstd::utf8::encode_utf8;

verus! {

/// The address that every relative path is appended to.
pub const BASE_URL: &'static str = "https://api.coinbase.com/v2/";

/// The only status that counts as success.
pub const STATUS_OK: u16 = 200;

#[derive(Debug, Clone)]
struct ApiKeyAuthData {
    pub api_key: String,
    pub api_secret: String,
}

/// The credentials of one API key, checked once and never changed.
#[derive(Debug, Clone)]
pub struct Client {
    auth: ApiKeyAuthData,
}

/// The envelope of a single resource.
#[derive(Debug, Clone)]
pub struct Response<T> {
    pub data: T,
}

/// The order in which a list endpoint returns its items.
#[derive(Debug, Clone)]
pub enum SortOrder {
    Desc,
    Asc,
}

/// Cursor data that accompanies every page of a list endpoint.
#[derive(Debug, Clone)]
pub struct Pagination {
    pub ending_before: Option<String>,
    pub starting_before: Option<String>,
    pub limit: i32,
    pub order: String,
    pub previous_uri: Option<String>,
    pub next_uri: Option<String>,
}

/// One page of a list endpoint: the cursor data and the page's items.
#[derive(Debug, Clone)]
pub struct PagedResponse<T> {
    pub pagination: Pagination,
    pub data: Vec<T>,
}

impl<T> PagedResponse<T> {
    /// Whether the server announced a further page: whether `next_uri` is
    /// present, be it empty. The page's items play no part in the answer.
    pub fn has_next_page(&self) -> (r: bool)
        ensures
            r == self.pagination.next_uri.is_some(),
    {
        self.pagination.next_uri.is_some()
    }
}

/// What a caller may ask of a list endpoint. A field that is `None` is
/// left out of the request.
#[derive(Debug, Clone)]
pub struct PaginationOptions {
    pub ending_before: Option<String>,
    pub starting_before: Option<String>,
    pub limit: Option<i32>,
    pub order: Option<String>,
}

impl Default for PaginationOptions {
    fn default() -> (r: PaginationOptions)
        ensures
            r.ending_before is None,
            r.starting_before is None,
            r.limit is None,
            r.order is None,
    {
        PaginationOptions { ending_before: None, starting_before: None, limit: None, order: None }
    }
}

/// What one field adds to a query: its label and its value, or nothing
/// where the field is absent.
pub open spec fn query_part(label: Seq<char>, value: Option<Seq<char>>) -> Seq<char> {
    match value {
        Some(v) => label + v,
        None => Seq::empty(),
    }
}

/// The characters of an optional string.
pub open spec fn optional_text(value: Option<String>) -> Option<Seq<char>> {
    match value {
        Some(v) => Some(v@),
        None => None,
    }
}

/// The decimal text of an optional number.
pub open spec fn optional_decimal(value: Option<i32>) -> Option<Seq<char>> {
    match value {
        Some(v) => Some(decimal_text(v as int)),
        None => None,
    }
}

impl PaginationOptions {
    /// The query fragment of these options: the fields that are present,
    /// each as `&name=value`, in the order `ending_before`,
    /// `starting_before`, `limit`, `order`.
    pub open spec fn query_text(&self) -> Seq<char> {
        query_part("&ending_before="@, optional_text(self.ending_before)) + query_part(
            "&starting_before="@,
            optional_text(self.starting_before),
        ) + query_part("&limit="@, optional_decimal(self.limit)) + query_part(
            "&order="@,
            optional_text(self.order),
        )
    }

    /// Builds the query fragment of these options. It begins with `&`, not
    /// with `?`, and is empty where no field is present.
    pub fn get_query(&self) -> (r: String)
        ensures
            r@ == self.query_text(),
    {
        let mut query = String::new();
        if let Some(ending_before) = &self.ending_before {
            query.append("&ending_before=");
            query.append(ending_before.as_str());
        }
        if let Some(starting_before) = &self.starting_before {
            query.append("&starting_before=");
            query.append(starting_before.as_str());
        }
        if let Some(limit) = self.limit {
            let number = decimal_string(limit as i64);
            query.append("&limit=");
            query.append(number.as_str());
        }
        if let Some(order) = &self.order {
            query.append("&order=");
            query.append(order.as_str());
        }
        assert(query@ =~= self.query_text());
        query
    }
}

/// One header of a request.
#[derive(Debug, Clone)]
pub struct Header {
    pub name: String,
    pub value: String,
}

/// A request that is ready to be sent: the transport adds nothing to it
/// and changes nothing in it.
#[derive(Debug, Clone)]
pub struct SignedRequest {
    pub method: Method,
    /// The absolute address.
    pub url: String,
    /// The signature, in lowercase hexadecimal.
    pub signature: String,
    /// The seconds since the epoch that went into the signature, in decimal.
    pub timestamp: String,
    pub api_key: String,
    /// The JSON body, or the empty string where the request has none.
    pub body: String,
}

/// The texts of a signed request.
pub struct SignedRequestView {
    pub method: Method,
    pub url: Seq<char>,
    pub signature: Seq<char>,
    pub timestamp: Seq<char>,
    pub api_key: Seq<char>,
    pub body: Seq<char>,
}

impl View for SignedRequest {
    type V = SignedRequestView;

    open spec fn view(&self) -> SignedRequestView {
        SignedRequestView {
            method: self.method,
            url: self.url@,
            signature: self.signature@,
            timestamp: self.timestamp@,
            api_key: self.api_key@,
            body: self.body@,
        }
    }
}

impl SignedRequest {
    /// The four headers of the request, in the order in which they are
    /// attached: signature, timestamp, key, content type.
    pub fn headers(&self) -> (r: Vec<Header>)
        ensures
            r@.len() == 4,
            r@[0].name@ == "CB-ACCESS-SIGN"@ && r@[0].value@ == self.signature@,
            r@[1].name@ == "CB-ACCESS-TIMESTAMP"@ && r@[1].value@ == self.timestamp@,
            r@[2].name@ == "CB-ACCESS-KEY"@ && r@[2].value@ == self.api_key@,
            r@[3].name@ == "content-type"@ && r@[3].value@ == "application/json"@,
    {
        let mut list: Vec<Header> = Vec::new();
        list.push(Header { name: "CB-ACCESS-SIGN".to_owned(), value: self.signature.clone() });
        list.push(
            Header { name: "CB-ACCESS-TIMESTAMP".to_owned(), value: self.timestamp.clone() },
        );
        list.push(Header { name: "CB-ACCESS-KEY".to_owned(), value: self.api_key.clone() });
        list.push(Header { name: "content-type".to_owned(), value: "application/json".to_owned() });
        list
    }
}

/// The characters of an optional string slice.
pub open spec fn optional_str(value: Option<&str>) -> Option<Seq<char>> {
    match value {
        Some(v) => Some(v@),
        None => None,
    }
}

/// The body that goes on the wire and into the signature: the given JSON
/// text, or the empty string where there is none.
pub open spec fn body_text(body: Option<Seq<char>>) -> Seq<char> {
    match body {
        Some(b) => b,
        None => Seq::empty(),
    }
}

/// The text that a client signs for a verb, a path and a body at a time.
pub open spec fn signed_text(method: Method, path: Seq<char>, body: Option<Seq<char>>, time: int)
    -> Seq<char> {
    signing_text(decimal_text(time), method, path, body_text(body))
}

impl Client {
    /// The API key.
    pub closed spec fn key_text(&self) -> Seq<char> {
        self.auth.api_key@
    }

    /// The API secret.
    pub closed spec fn secret_text(&self) -> Seq<char> {
        self.auth.api_secret@
    }

    /// Stores the credentials, after asking the MAC whether the secret can
    /// key it. Nothing else is asked of either string.
    pub fn from_api_key(api_key: String, api_secret: String) -> (r: Result<
        Client,
        InvalidKeyLength,
    >)
        ensures
            r is Ok <==> mac_key_fits(encode_utf8(api_secret@)),
            r matches Ok(client) ==> client.key_text() == api_key@ && client.secret_text()
                == api_secret@,
    {
        if !mac_takes_key(api_secret.as_str().as_bytes()) {
            return Err(InvalidKeyLength);
        }
        Ok(Client { auth: ApiKeyAuthData { api_key, api_secret } })
    }

    /// The request that this client makes of a verb, a relative path and an
    /// optional JSON body at `time` seconds since the epoch.
    pub open spec fn signed(
        &self,
        method: Method,
        path: Seq<char>,
        body: Option<Seq<char>>,
        time: int,
    ) -> SignedRequestView {
        SignedRequestView {
            method: method,
            url: BASE_URL@ + path,
            signature: signature_text(self.secret_text(), signed_text(method, path, body, time)),
            timestamp: decimal_text(time),
            api_key: self.key_text(),
            body: body_text(body),
        }
    }

    /// Signs a request as of the given time.
    pub fn sign_request(&self, method: Method, url: &str, body: Option<&str>, time: i64) -> (r:
        SignedRequest)
        ensures
            r@ == self.signed(method, url@, optional_str(body), time as int),
            r.signature@.len() == SIGNATURE_LENGTH,
    {
        let text: &str = match body {
            Some(json) => json,
            None => "",
        };
        proof {
            reveal_strlit("");
        }
        assert(text@ =~= body_text(optional_str(body)));
        let timestamp = decimal_string(time);
        let message = signing_string(timestamp.as_str(), method, url, text);
        let signature = sign(self.auth.api_secret.as_str(), message.as_str());
        let mut address = BASE_URL.to_owned();
        address.append(url);
        SignedRequest {
            method,
            url: address,
            signature,
            timestamp,
            api_key: self.auth.api_key.clone(),
            body: text.to_owned(),
        }
    }

    /// Whether `request` is what this client makes of a verb, a relative
    /// path and an optional JSON body at some moment of the clock, with a
    /// signature of 64 characters.
    pub open spec fn prepares(
        &self,
        method: Method,
        path: Seq<char>,
        body: Option<Seq<char>>,
        request: SignedRequest,
    ) -> bool {
        &&& exists|time: i64| request@ == self.signed(method, path, body, time as int)
        &&& request.signature@.len() == SIGNATURE_LENGTH
    }

    /// Prepares a request for dispatch: reads the clock once and signs the
    /// request as of that moment. The transport sends what is returned as
    /// it stands, and hands the status of the answer to `check_status`.
    pub fn send_request(&self, method: Method, url: &str, body: Option<&str>) -> (r:
        SignedRequest)
        ensures
            self.prepares(method, url@, optional_str(body), r),
    {
        let time = current_time();
        self.sign_request(method, url, body, time)
    }
}

/// Options without a field add nothing to a path.
pub proof fn lemma_no_options_no_query(options: PaginationOptions)
    requires
        options.ending_before is None,
        options.starting_before is None,
        options.limit is None,
        options.order is None,
    ensures
        options.query_text() == Seq::<char>::empty(),
{
    assert(options.query_text() =~= Seq::<char>::empty());
}

/// Options with a limit alone add the limit alone, in decimal.
pub proof fn lemma_limit_alone(options: PaginationOptions)
    requires
        options.ending_before is None,
        options.starting_before is None,
        options.limit is Some,
        options.order is None,
    ensures
        options.query_text() == "&limit="@ + decimal_text(options.limit->0 as int),
{
    assert(options.query_text() =~= "&limit="@ + decimal_text(options.limit->0 as int));
}

/// A prepared request carries one timestamp and one body, and its
/// signature is the one over that very timestamp and that very body.
pub proof fn lemma_request_signed_as_sent(
    client: Client,
    method: Method,
    path: Seq<char>,
    body: Option<Seq<char>>,
    request: SignedRequest,
)
    requires
        client.prepares(method, path, body, request),
    ensures
        request.method == method,
        request.url@ == BASE_URL@ + path,
        request.body@ == body_text(body),
        request.api_key@ == client.key_text(),
        exists|time: i64| request.timestamp@ == decimal_text(time as int),
        request.signature@ == signature_text(
            client.secret_text(),
            signing_text(request.timestamp@, method, path, request.body@),
        ),
        request.signature@.len() == SIGNATURE_LENGTH,
        forall|i: int|
            0 <= i < request.signature@.len() ==> is_hex_char(#[trigger] request.signature@[i]),
{
    let time = choose|time: i64| request@ == client.signed(method, path, body, time as int);
    assert(request.timestamp@ == decimal_text(time as int));
    lemma_hex_text_shape(
        hmac_sha256(
            encode_utf8(client.secret_text()),
            encode_utf8(signed_text(method, path, body, time as int)),
        ),
    );
}

/// Signing is repeatable: what a client makes of the same verb, path and
/// body at the same time is the same request, signature included.
pub proof fn lemma_signing_repeats(
    client: Client,
    method: Method,
    path: Seq<char>,
    body: Option<Seq<char>>,
    time: int,
    first: SignedRequest,
    second: SignedRequest,
)
    requires
        first@ == client.signed(method, path, body, time),
        second@ == client.signed(method, path, body, time),
    ensures
        first@ == second@,
        first.signature@ == second.signature@,
{
}

/// Two requests that differ in the time alone, in the verb alone, in the
/// path alone or in the body alone are signed over different bytes. Their
/// signatures under one secret are then the same only if the MAC gives two
/// different messages one code.
pub proof fn lemma_one_change_changes_message(
    client: Client,
    method: Method,
    path: Seq<char>,
    body: Option<Seq<char>>,
    time: int,
    other_method: Method,
    other_path: Seq<char>,
    other_body: Option<Seq<char>>,
    other_time: int,
)
    requires
        (time != other_time && method == other_method && path == other_path && body_text(body)
            == body_text(other_body)) || (time == other_time && method != other_method && path
            == other_path && body_text(body) == body_text(other_body)) || (time == other_time
            && method == other_method && path != other_path && body_text(body) == body_text(
            other_body,
        )) || (time == other_time && method == other_method && path == other_path && body_text(
            body,
        ) != body_text(other_body)),
    ensures
        signed_text(method, path, body, time) != signed_text(
            other_method,
            other_path,
            other_body,
            other_time,
        ),
        encode_utf8(signed_text(method, path, body, time)) != encode_utf8(
            signed_text(other_method, other_path, other_body, other_time),
        ),
        client.signed(method, path, body, time).signature == client.signed(
            other_method,
            other_path,
            other_body,
            other_time,
        ).signature <==> hmac_sha256(
            encode_utf8(client.secret_text()),
            encode_utf8(signed_text(method, path, body, time)),
        ) == hmac_sha256(
            encode_utf8(client.secret_text()),
            encode_utf8(signed_text(other_method, other_path, other_body, other_time)),
        ),
{
    let stamp = decimal_text(time);
    let other_stamp = decimal_text(other_time);
    let text = body_text(body);
    let other_text = body_text(other_body);
    if time != other_time {
        lemma_decimal_text_tells_numbers(time, other_time);
        lemma_signing_text_tells_timestamps(stamp, other_stamp, method, path, text);
    } else if method != other_method {
        lemma_signing_text_tells_methods(stamp, method, other_method, path, text);
    } else if path != other_path {
        lemma_signing_text_tells_paths(stamp, method, path, other_path, text);
    } else {
        lemma_signing_text_tells_bodies(stamp, method, path, text, other_text);
    }
    lemma_signature_follows_code(
        client.secret_text(),
        signed_text(method, path, body, time),
        signed_text(other_method, other_path, other_body, other_time),
    );
}

/// Decides what becomes of an answer by its status alone: the body of a
/// 200 is to be decoded, any other status is the error, and its body is
/// not looked at.
pub fn check_status(status_code: u16) -> (r: Result<(), ClientError>)
    ensures
        r is Ok <==> status_code == STATUS_OK,
        r matches Err(err) ==> err == ClientError::Coinbase((CoinbaseError { status_code })),
{
    if status_code == STATUS_OK {
        Ok(())
    } else {
        Err(ClientError::Coinbase(CoinbaseError { status_code }))
    }
}

} // verus!
