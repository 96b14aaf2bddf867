//! The canonical string of a request and its signature: HMAC-SHA256 under
//! the API secret, written as lowercase hexadecimal.

use hmac::{Hmac, Mac, NewMac};
use sha2::Sha256;
use vstd::prelude::*;
use vstd::utf8::encode_utf8;

verus! {

/// The HTTP verbs.
#[derive(Debug, Clone, Copy, PartialEq, Eq, Structural)]
pub enum Method {
    Options,
    Get,
    Post,
    Put,
    Delete,
    Head,
    Trace,
    Connect,
    Patch,
}

impl Method {
    /// The verb as it is written on the wire, in upper case.
    pub open spec fn name(self) -> Seq<char> {
        match self {
            Method::Options => "OPTIONS"@,
            Method::Get => "GET"@,
            Method::Post => "POST"@,
            Method::Put => "PUT"@,
            Method::Delete => "DELETE"@,
            Method::Head => "HEAD"@,
            Method::Trace => "TRACE"@,
            Method::Connect => "CONNECT"@,
            Method::Patch => "PATCH"@,
        }
    }

    /// The verb as it is written on the wire, in upper case.
    pub fn as_str(&self) -> (r: &'static str)
        ensures
            r@ == self.name(),
    {
        match self {
            Method::Options => "OPTIONS",
            Method::Get => "GET",
            Method::Post => "POST",
            Method::Put => "PUT",
            Method::Delete => "DELETE",
            Method::Head => "HEAD",
            Method::Trace => "TRACE",
            Method::Connect => "CONNECT",
            Method::Patch => "PATCH",
        }
    }
}

/// The text that a request is signed over: the timestamp, the verb, the
/// versioned path and the body, with nothing between them.
pub open spec fn signing_text(
    timestamp: Seq<char>,
    method: Method,
    path: Seq<char>,
    body: Seq<char>,
) -> Seq<char> {
    timestamp + method.name() + "/v2/"@ + path + body
}

/// Builds the text that a request is signed over.
pub fn signing_string(timestamp: &str, method: Method, path: &str, body: &str) -> (r: String)
    ensures
        r@ == signing_text(timestamp@, method, path@, body@),
{
    let mut out = timestamp.to_owned();
    out.append(method.as_str());
    out.append("/v2/");
    out.append(path);
    out.append(body);
    out
}

/// Whether `key` can key the MAC. HMAC pads a short key with zeros and
/// hashes a long one first, so a key of any length can.
pub open spec fn mac_key_fits(key: Seq<u8>) -> bool {
    true
}

/// `Hmac::<Sha256>::new_varkey`, asked only whether it takes the key. The
/// function ends in `Ok` on every path, and its crate documents that HMAC
/// takes a key of any size.
#[verifier::external_body]
pub(crate) fn mac_takes_key(key: &[u8]) -> (r: bool)
    ensures
        r == mac_key_fits(key@),
{
    Hmac::<Sha256>::new_varkey(key).is_ok()
}

/// The HMAC-SHA256 code of `message` under `key`.
pub uninterp spec fn hmac_sha256(key: Seq<u8>, message: Seq<u8>) -> Seq<u8>;

/// The number of bytes in a code of the MAC.
pub const MAC_LENGTH: usize = 32;

/// The number of characters in a signature: two for each byte of the code.
pub const SIGNATURE_LENGTH: usize = 64;

/// `Hmac::<Sha256>`: `new_varkey` on the key, `update` with the whole
/// message, then `finalize` and `into_bytes`. The code depends on the two
/// byte strings alone, and has the 32 bytes of a SHA-256 output.
#[verifier::external_body]
fn mac_sha256(key: &[u8], message: &[u8]) -> (r: Vec<u8>)
    ensures
        r@ == hmac_sha256(key@, message@),
        r@.len() == MAC_LENGTH,
{
    let mut mac = Hmac::<Sha256>::new_varkey(key).expect("HMAC can take key of any size");
    mac.update(message);
    mac.finalize().into_bytes().to_vec()
}

/// The lowercase character of one hexadecimal digit.
pub open spec fn hex_digit(n: int) -> char {
    if n < 10 {
        crate::decimal::digit_char(n)
    } else if n == 10 {
        'a'
    } else if n == 11 {
        'b'
    } else if n == 12 {
        'c'
    } else if n == 13 {
        'd'
    } else if n == 14 {
        'e'
    } else {
        'f'
    }
}

/// Whether a character is a lowercase hexadecimal digit.
pub open spec fn is_hex_char(c: char) -> bool {
    exists|n: int| 0 <= n < 16 && c == #[trigger] hex_digit(n)
}

/// Lowercase hexadecimal: two digits for each byte, the high half first.
pub open spec fn hex_text(bytes: Seq<u8>) -> Seq<char> {
    Seq::new(
        2 * bytes.len(),
        |i: int|
            if i % 2 == 0 {
                hex_digit(bytes[i / 2] as int / 16)
            } else {
                hex_digit(bytes[i / 2] as int % 16)
            },
    )
}

/// `hex::encode`: each byte becomes two characters of `0123456789abcdef`,
/// the one for its high four bits and then the one for its low four bits.
#[verifier::external_body]
fn hex_encode(bytes: &[u8]) -> (r: String)
    ensures
        r@ == hex_text(bytes@),
{
    hex::encode(bytes)
}

/// The signature of `message` under `secret`: the MAC of the two texts'
/// UTF-8 bytes, in hexadecimal.
pub open spec fn signature_text(secret: Seq<char>, message: Seq<char>) -> Seq<char> {
    hex_text(hmac_sha256(encode_utf8(secret), encode_utf8(message)))
}

/// Hexadecimal text has two characters for each byte, and each of them is
/// a lowercase hexadecimal digit.
pub proof fn lemma_hex_text_shape(bytes: Seq<u8>)
    ensures
        hex_text(bytes).len() == 2 * bytes.len(),
        forall|i: int| 0 <= i < hex_text(bytes).len() ==> is_hex_char(#[trigger] hex_text(bytes)[i]),
{
    assert forall|i: int| 0 <= i < hex_text(bytes).len() implies is_hex_char(
        #[trigger] hex_text(bytes)[i],
    ) by {
        let byte = bytes[i / 2] as int;
        if i % 2 == 0 {
            assert(hex_text(bytes)[i] == hex_digit(byte / 16));
        } else {
            assert(hex_text(bytes)[i] == hex_digit(byte % 16));
        }
    }
}

/// Signs `message` under `secret`. The signature has 64 characters, each
/// of them a lowercase hexadecimal digit.
pub fn sign(secret: &str, message: &str) -> (r: String)
    ensures
        r@ == signature_text(secret@, message@),
        r@.len() == SIGNATURE_LENGTH,
        forall|i: int| 0 <= i < r@.len() ==> is_hex_char(#[trigger] r@[i]),
{
    let code = mac_sha256(secret.as_bytes(), message.as_bytes());
    proof {
        lemma_hex_text_shape(code@);
    }
    hex_encode(code.as_slice())
}

/// Texts that agree once the same tail is put behind each are the same.
pub proof fn lemma_same_tail(a: Seq<char>, b: Seq<char>, tail: Seq<char>)
    requires
        a + tail == b + tail,
    ensures
        a == b,
{
    let x = a + tail;
    let y = b + tail;
    assert(x.len() == a.len() + tail.len());
    assert(y.len() == b.len() + tail.len());
    assert(a.len() == b.len());
    assert forall|i: int| 0 <= i < a.len() implies a[i] == b[i] by {
        assert(x[i] == a[i]);
        assert(y[i] == b[i]);
    }
    assert(a =~= b);
}

/// Texts that agree once put behind the same head are the same.
pub proof fn lemma_same_head(head: Seq<char>, a: Seq<char>, b: Seq<char>)
    requires
        head + a == head + b,
    ensures
        a == b,
{
    let x = head + a;
    let y = head + b;
    assert(x.len() == head.len() + a.len());
    assert(y.len() == head.len() + b.len());
    assert(a.len() == b.len());
    assert forall|i: int| 0 <= i < a.len() implies a[i] == b[i] by {
        assert(x[head.len() + i] == a[i]);
        assert(y[head.len() + i] == b[i]);
    }
    assert(a =~= b);
}

/// No two verbs are written alike.
pub proof fn lemma_method_names_differ(first: Method, second: Method)
    requires
        first != second,
    ensures
        first.name() != second.name(),
{
    reveal_strlit("OPTIONS");
    reveal_strlit("GET");
    reveal_strlit("POST");
    reveal_strlit("PUT");
    reveal_strlit("DELETE");
    reveal_strlit("HEAD");
    reveal_strlit("TRACE");
    reveal_strlit("CONNECT");
    reveal_strlit("PATCH");
    if first.name() == second.name() {
        assert(first.name().len() == second.name().len());
        assert(first.name()[0] == second.name()[0]);
        assert(first.name()[1] == second.name()[1]);
    }
}

/// A request signed at another timestamp is signed over another text.
pub proof fn lemma_signing_text_tells_timestamps(
    first: Seq<char>,
    second: Seq<char>,
    method: Method,
    path: Seq<char>,
    body: Seq<char>,
)
    requires
        first != second,
    ensures
        signing_text(first, method, path, body) != signing_text(second, method, path, body),
{
    let tail = method.name() + "/v2/"@ + path + body;
    assert(signing_text(first, method, path, body) =~= first + tail);
    assert(signing_text(second, method, path, body) =~= second + tail);
    if first + tail == second + tail {
        lemma_same_tail(first, second, tail);
    }
}

/// A request with another verb is signed over another text.
pub proof fn lemma_signing_text_tells_methods(
    timestamp: Seq<char>,
    first: Method,
    second: Method,
    path: Seq<char>,
    body: Seq<char>,
)
    requires
        first != second,
    ensures
        signing_text(timestamp, first, path, body) != signing_text(timestamp, second, path, body),
{
    let tail = "/v2/"@ + path + body;
    assert(signing_text(timestamp, first, path, body) =~= timestamp + (first.name() + tail));
    assert(signing_text(timestamp, second, path, body) =~= timestamp + (second.name() + tail));
    lemma_method_names_differ(first, second);
    if timestamp + (first.name() + tail) == timestamp + (second.name() + tail) {
        lemma_same_head(timestamp, first.name() + tail, second.name() + tail);
        lemma_same_tail(first.name(), second.name(), tail);
    }
}

/// A request for another path is signed over another text.
pub proof fn lemma_signing_text_tells_paths(
    timestamp: Seq<char>,
    method: Method,
    first: Seq<char>,
    second: Seq<char>,
    body: Seq<char>,
)
    requires
        first != second,
    ensures
        signing_text(timestamp, method, first, body) != signing_text(
            timestamp,
            method,
            second,
            body,
        ),
{
    let head = timestamp + method.name() + "/v2/"@;
    assert(signing_text(timestamp, method, first, body) =~= head + (first + body));
    assert(signing_text(timestamp, method, second, body) =~= head + (second + body));
    if head + (first + body) == head + (second + body) {
        lemma_same_head(head, first + body, second + body);
        lemma_same_tail(first, second, body);
    }
}

/// A request with another body is signed over another text.
pub proof fn lemma_signing_text_tells_bodies(
    timestamp: Seq<char>,
    method: Method,
    path: Seq<char>,
    first: Seq<char>,
    second: Seq<char>,
)
    requires
        first != second,
    ensures
        signing_text(timestamp, method, path, first) != signing_text(
            timestamp,
            method,
            path,
            second,
        ),
{
    let head = timestamp + method.name() + "/v2/"@ + path;
    if head + first == head + second {
        lemma_same_head(head, first, second);
    }
}

/// Different byte strings are written differently in hexadecimal.
pub proof fn lemma_hex_text_tells_bytes(first: Seq<u8>, second: Seq<u8>)
    requires
        first != second,
    ensures
        hex_text(first) != hex_text(second),
{
    if hex_text(first) == hex_text(second) {
        assert(hex_text(first).len() == 2 * first.len());
        assert(hex_text(second).len() == 2 * second.len());
        assert forall|i: int| 0 <= i < first.len() implies first[i] == second[i] by {
            let high = 2 * i;
            let low = 2 * i + 1;
            assert(hex_text(first)[high] == hex_text(second)[high]);
            assert(hex_text(first)[low] == hex_text(second)[low]);
            assert(hex_digit(first[i] as int / 16) == hex_digit(second[i] as int / 16));
            assert(hex_digit(first[i] as int % 16) == hex_digit(second[i] as int % 16));
        }
        assert(first =~= second);
    }
}

/// Signatures under one secret are told apart exactly as far as the MAC
/// tells the messages apart. That the MAC gives different messages
/// different codes is its cryptographic promise, which is not stated here.
pub proof fn lemma_signature_follows_code(secret: Seq<char>, first: Seq<char>, second: Seq<char>)
    ensures
        signature_text(secret, first) == signature_text(secret, second) <==> hmac_sha256(
            encode_utf8(secret),
            encode_utf8(first),
        ) == hmac_sha256(encode_utf8(secret), encode_utf8(second)),
        first != second ==> encode_utf8(first) != encode_utf8(second),
{
    let a = hmac_sha256(encode_utf8(secret), encode_utf8(first));
    let b = hmac_sha256(encode_utf8(secret), encode_utf8(second));
    if a != b {
        lemma_hex_text_tells_bytes(a, b);
    }
    vstd::utf8::encode_utf8_decode_utf8(first);
    vstd::utf8::encode_utf8_decode_utf8(second);
}

} // verus!
