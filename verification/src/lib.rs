//! Request signing for the [Coinbase API](https://developers.coinbase.com/api/v2).
//!
//! A [`Client`] holds an API key and its secret. For every operation of the
//! API it prepares a [`client::SignedRequest`]: the verb, the address, the
//! body and the authentication headers, with a signature over the text
//! that [`signing::signing_text`] describes. Sending the request is left
//! to the transport, which hands the status of the answer to
//! [`client::check_status`] and decodes the body of a 200 into one of the
//! resources of [`accounts`], [`transactions`] and [`users`].
//!
//! ```ignore
//! use coinbase::client::{check_status, PaginationOptions};
//! use coinbase::Client;
//!
//! let client = Client::from_api_key(api_key, api_secret).unwrap();
//! let request = client.list_accounts(&PaginationOptions::default());
//! // send `request.method`, `request.url`, `request.headers()` and
//! // `request.body`, then:
//! check_status(status_of_the_answer)?;
//! ```

pub mod accounts;
pub mod client;
pub mod decimal;
pub mod errors;
pub mod json;
pub mod signing;
pub mod time;
pub mod transactions;
pub mod users;

pub use client::Client;
