use coinbase::client::{check_status, SignedRequest, BASE_URL};
use coinbase::errors::{ClientError, CoinbaseError};
use coinbase::signing::Method;
use coinbase::Client;

fn client() -> Client {
    Client::from_api_key("my-key".to_string(), "secret".to_string()).unwrap()
}

fn is_decimal(text: &str) -> bool {
    !text.is_empty() && text.chars().all(|c| c.is_ascii_digit())
}

#[test]
fn from_api_key_takes_any_secret() {
    assert!(Client::from_api_key("k".to_string(), "secret".to_string()).is_ok());
    assert!(Client::from_api_key("k".to_string(), String::new()).is_ok());
    assert!(Client::from_api_key(String::new(), "s".repeat(1000)).is_ok());
}

#[test]
fn sign_request_without_body() {
    let request = client().sign_request(Method::Get, "accounts", None, 1600000000);
    assert_eq!(request.method, Method::Get);
    assert_eq!(request.url, "https://api.coinbase.com/v2/accounts");
    assert_eq!(request.timestamp, "1600000000");
    assert_eq!(request.api_key, "my-key");
    assert_eq!(request.body, "");
    assert_eq!(
        request.signature,
        "25a50a18bd8e3395d934475885eb535fa88ef34ab2436f3848cb1aee47d72843"
    );
}

#[test]
fn sign_request_with_body() {
    let request = client().sign_request(
        Method::Put,
        "user",
        Some("{\"name\":\"Alice\"}"),
        1600000000,
    );
    assert_eq!(request.method, Method::Put);
    assert_eq!(request.url, "https://api.coinbase.com/v2/user");
    assert_eq!(request.body, "{\"name\":\"Alice\"}");
    assert_eq!(
        request.signature,
        "f879d3d66d7722ef3a3b54a55ab6a45e9ed6749e8203d0fe8c1190abfb9cd61f"
    );
}

#[test]
fn sign_request_covers_the_query() {
    let request = client().sign_request(Method::Get, "accounts&limit=10", None, 1600000000);
    assert_eq!(request.url, "https://api.coinbase.com/v2/accounts&limit=10");
    assert_eq!(
        request.signature,
        "310412b3efde01f173e85ea0c700d77232606f47af2ef17d8e2fd9bbe397edf7"
    );
}

#[test]
fn sign_request_repeats_for_the_same_inputs() {
    let first = client().sign_request(Method::Get, "accounts", None, 1600000000);
    let second = client().sign_request(Method::Get, "accounts", None, 1600000000);
    assert_eq!(first.signature, second.signature);
    assert_eq!(first.timestamp, second.timestamp);
    assert_eq!(first.url, second.url);
}

#[test]
fn sign_request_changes_with_the_time() {
    let first = client().sign_request(Method::Get, "accounts", None, 1600000000);
    let second = client().sign_request(Method::Get, "accounts", None, 1600000001);
    assert_eq!(second.timestamp, "1600000001");
    assert_eq!(
        second.signature,
        "2b3340a47a00dc42d717e8f888d4b1e6f7ea6e3498e75ffd4a83f5bb3b635955"
    );
    assert_ne!(first.signature, second.signature);
}

#[test]
fn sign_request_changes_with_the_secret() {
    let other = Client::from_api_key("my-key".to_string(), "key".to_string()).unwrap();
    let first = client().sign_request(Method::Get, "accounts", None, 1600000000);
    let second = other.sign_request(Method::Get, "accounts", None, 1600000000);
    assert_ne!(first.signature, second.signature);
    assert_eq!(first.api_key, second.api_key);
}

#[test]
fn base_url_is_the_versioned_address() {
    assert_eq!(BASE_URL, "https://api.coinbase.com/v2/");
}

#[test]
fn headers_are_the_four_in_order() {
    let request = client().sign_request(Method::Get, "user", None, 1600000000);
    let headers = request.headers();
    assert_eq!(headers.len(), 4);
    assert_eq!(headers[0].name, "CB-ACCESS-SIGN");
    assert_eq!(headers[0].value, request.signature);
    assert_eq!(headers[1].name, "CB-ACCESS-TIMESTAMP");
    assert_eq!(headers[1].value, "1600000000");
    assert_eq!(headers[2].name, "CB-ACCESS-KEY");
    assert_eq!(headers[2].value, "my-key");
    assert_eq!(headers[3].name, "content-type");
    assert_eq!(headers[3].value, "application/json");
}

fn signed_as_sent(client: &Client, request: &SignedRequest, method: Method, path: &str, body: Option<&str>) {
    assert!(is_decimal(&request.timestamp));
    let time: i64 = request.timestamp.parse().unwrap();
    let expected = client.sign_request(method, path, body, time);
    assert_eq!(request.method, expected.method);
    assert_eq!(request.url, expected.url);
    assert_eq!(request.signature, expected.signature);
    assert_eq!(request.timestamp, expected.timestamp);
    assert_eq!(request.api_key, expected.api_key);
    assert_eq!(request.body, expected.body);
}

#[test]
fn send_request_stamps_and_signs() {
    let client = client();
    let request = client.send_request(Method::Get, "accounts", None);
    signed_as_sent(&client, &request, Method::Get, "accounts", None);
    assert_eq!(request.url, "https://api.coinbase.com/v2/accounts");
    assert_eq!(request.body, "");
    let time: i64 = request.timestamp.parse().unwrap();
    assert!(time > 1_600_000_000);
}

#[test]
fn send_request_with_body_sends_the_body_it_signed() {
    let client = client();
    let request = client.send_request(Method::Put, "user", Some("{\"name\":\"Bob\"}"));
    signed_as_sent(&client, &request, Method::Put, "user", Some("{\"name\":\"Bob\"}"));
    assert_eq!(request.body, "{\"name\":\"Bob\"}");
}

#[test]
fn endpoint_requests() {
    let client = client();
    signed_as_sent(&client, &client.get_current_user(), Method::Get, "user", None);
    signed_as_sent(&client, &client.get_auth_info(), Method::Get, "user/auth", None);
    signed_as_sent(&client, &client.get_user("u-1"), Method::Get, "users/u-1", None);
    signed_as_sent(&client, &client.get_account("BTC"), Method::Get, "accounts/BTC", None);
    signed_as_sent(
        &client,
        &client.get_transaction("a-1", "t-2"),
        Method::Get,
        "accounts/a-1/transactions/t-2",
        None,
    );
}

#[test]
fn status_200_is_accepted() {
    assert!(check_status(200).is_ok());
}

#[test]
fn status_404_is_a_remote_error() {
    match check_status(404) {
        Err(ClientError::Coinbase(err)) => assert_eq!(err.status_code, 404),
        other => panic!("expected a remote error, got {:?}", other),
    }
}

#[test]
fn every_other_status_is_a_remote_error() {
    for code in [100u16, 201, 204, 301, 400, 401, 429, 500, 503, 999] {
        match check_status(code) {
            Err(ClientError::Coinbase(err)) => assert_eq!(err.status_code, code),
            other => panic!("expected a remote error, got {:?}", other),
        }
    }
}

#[test]
fn remote_error_message_names_the_status() {
    let err = CoinbaseError { status_code: 404 };
    assert_eq!(err.message(), "Coinbase Error - code: 404 Not Found");
    let err = CoinbaseError { status_code: 500 };
    assert_eq!(err.message(), "Coinbase Error - code: 500 Internal Server Error");
}

#[test]
fn remote_error_message_of_an_unknown_status() {
    let err = CoinbaseError { status_code: 799 };
    assert_eq!(err.message(), "Coinbase Error - code: 799 <unknown status code>");
}

#[test]
fn remote_error_message_outside_the_http_range() {
    assert_eq!(CoinbaseError { status_code: 99 }.message(), "Coinbase Error - code: 99");
    assert_eq!(CoinbaseError { status_code: 0 }.message(), "Coinbase Error - code: 0");
    assert_eq!(CoinbaseError { status_code: 1000 }.message(), "Coinbase Error - code: 1000");
    assert_eq!(CoinbaseError { status_code: 65535 }.message(), "Coinbase Error - code: 65535");
}

#[test]
fn error_message_wraps_the_remote_error() {
    let err = ClientError::from(CoinbaseError { status_code: 404 });
    assert!(matches!(err, ClientError::Coinbase(_)));
    assert_eq!(err.message(), "Error - Coinbase Error - code: 404 Not Found");
}

#[test]
fn error_message_wraps_the_json_error() {
    let cause = serde_json::from_str::<serde_json::Value>("{").unwrap_err();
    let text = cause.to_string();
    let err = ClientError::from(cause);
    assert!(matches!(err, ClientError::Json(_)));
    assert_eq!(err.message(), format!("Error - {}", text));
}

#[test]
fn error_message_wraps_the_transport_error() {
    let cause = reqwest::Client::new()
        .get("not an address")
        .build()
        .unwrap_err();
    let text = cause.to_string();
    let err = ClientError::from(cause);
    assert!(matches!(err, ClientError::Request(_)));
    assert_eq!(err.message(), format!("Error - {}", text));
}

#[test]
fn signature_has_64_hex_characters() {
    let requests = [
        client().sign_request(Method::Get, "accounts", None, 0),
        client().sign_request(Method::Put, "user", Some("{}"), -1),
        client().send_request(Method::Get, "user", None),
        client().get_auth_info(),
    ];
    for request in requests {
        assert_eq!(request.signature.len(), 64);
        assert!(request
            .signature
            .chars()
            .all(|c| c.is_ascii_digit() || ('a'..='f').contains(&c)));
    }
}

#[test]
fn sign_request_before_the_epoch() {
    let request = client().sign_request(Method::Get, "user", None, -86400);
    assert_eq!(request.timestamp, "-86400");
    let expected = coinbase::signing::sign("secret", "-86400GET/v2/user");
    assert_eq!(request.signature, expected);
}
