use base64::Engine as _;
use hmac::{KeyInit as _, Mac as _};
use vstd::prelude::*;

use crate::data::ApiCreds;
use crate::error::ClobError;
use crate::json::{canonical, format_hmac_body, JsonBody};
use crate::orders::{is_clob_auth_signature, sign_auth_message, Address, EthSigner, U256};
use crate::text::{decimal_digits, decimal_string, push_decimal, push_str};

verus! {

pub const POLY_ADDR_HEADER: &'static str = "poly_address";

pub const POLY_SIG_HEADER: &'static str = "poly_signature";

pub const POLY_TS_HEADER: &'static str = "poly_timestamp";

pub const POLY_NONCE_HEADER: &'static str = "poly_nonce";

pub const POLY_API_KEY_HEADER: &'static str = "poly_api_key";

pub const POLY_PASS_HEADER: &'static str = "poly_passphrase";

/// Request headers, as `(name, value)` pairs.
pub type Headers = Vec<(&'static str, String)>;

/// The view of a header list.
pub open spec fn headers_view(h: Seq<(&'static str, String)>) -> Seq<(Seq<char>, Seq<char>)> {
    h.map_values(|p: (&'static str, String)| (p.0@, p.1@))
}

/// The bytes base64's URL-safe engine decodes from `s`; `None` when `s` is
/// not padded URL-safe base64.
pub uninterp spec fn url_safe_decoded(s: Seq<char>) -> Option<Seq<u8>>;

/// base64's URL-safe, padded encoding of `b`.
pub uninterp spec fn url_safe_encoded(b: Seq<u8>) -> Seq<char>;

/// HMAC-SHA256 under `key` of the UTF-8 bytes of `message`.
pub uninterp spec fn hmac_sha256_of(key: Seq<u8>, message: Seq<char>) -> Seq<u8>;

/// Relies on base64's `URL_SAFE` engine `decode`: the decoded bytes, or an
/// error for malformed input.
#[verifier::external_body]
fn decode_url_safe(s: &str) -> (r: Option<Vec<u8>>)
    ensures
        r is None <==> url_safe_decoded(s@) is None,
        r matches Some(b) ==> url_safe_decoded(s@) == Some(b@),
{
    match base64::engine::general_purpose::URL_SAFE.decode(s) {
        Ok(b) => Some(b),
        Err(_) => None,
    }
}

/// Relies on base64's `URL_SAFE` engine `encode`.
#[verifier::external_body]
fn encode_url_safe(b: &Vec<u8>) -> (r: String)
    ensures
        r@ == url_safe_encoded(b@),
{
    base64::engine::general_purpose::URL_SAFE.encode(b)
}

/// Relies on hmac's `Hmac<Sha256>`: keyed with `key`, fed the UTF-8 bytes of
/// `message`, finalized. `new_from_slice` accepts keys of any length.
#[verifier::external_body]
fn hmac_sha256(key: &Vec<u8>, message: &str) -> (r: Option<Vec<u8>>)
    ensures
        r is Some,
        r matches Some(tag) ==> tag@ == hmac_sha256_of(key@, message@) && tag@.len() == 32,
{
    match hmac::Hmac::<sha2::Sha256>::new_from_slice(key) {
        Ok(mut mac) => {
            mac.update(message.as_bytes());
            Some(mac.finalize().into_bytes().to_vec())
        },
        Err(_) => None,
    }
}

/// Relies on the system clock: seconds since the Unix epoch, zero for a
/// clock set before it.
#[verifier::external_body]
pub fn get_current_unix_time_secs() -> u64 {
    match std::time::SystemTime::now().duration_since(std::time::UNIX_EPOCH) {
        Ok(d) => d.as_secs(),
        Err(_) => 0,
    }
}

/// Lowercase hexadecimal, two digits per byte.
pub open spec fn hex_lower(b: Seq<u8>) -> Seq<char>
    decreases b.len(),
{
    if b.len() == 0 {
        seq![]
    } else {
        hex_lower(b.drop_last()) + seq![
            crate::json::hex_digit((b.last() / 16) as nat),
            crate::json::hex_digit((b.last() % 16) as nat),
        ]
    }
}

/// Relies on alloy_primitives' `hex::encode_prefixed`: `0x` and then two
/// lowercase hex digits per byte.
#[verifier::external_body]
pub(crate) fn encode_prefixed(a: &Address) -> (r: String)
    ensures
        r@ == "0x"@ + hex_lower(a.bytes@),
{
    alloy_primitives::hex::encode_prefixed(a.bytes)
}

/// Relies on alloy_primitives' `U256` `Display`: the value in base 10.
#[verifier::external_body]
pub(crate) fn u256_decimal(x: &U256) -> (r: String)
    ensures
        r@ == decimal_digits(x.value()),
{
    alloy_primitives::U256::from_limbs(x.limbs).to_string()
}

/// The signed message: the timestamp in base 10, the method, the path, and
/// the body when there is one.
pub open spec fn hmac_message(
    timestamp: u64,
    method: Seq<char>,
    path: Seq<char>,
    body: Option<Seq<char>>,
) -> Seq<char> {
    let head = decimal_digits(timestamp as nat) + method + path;
    match body {
        Some(b) => head + b,
        None => head,
    }
}

/// The L2 signature: the URL-safe base64 of the HMAC-SHA256 of the message
/// under the decoded secret; `None` when the secret does not decode.
pub open spec fn hmac_signature(
    secret: Seq<char>,
    timestamp: u64,
    method: Seq<char>,
    path: Seq<char>,
    body: Option<Seq<char>>,
) -> Option<Seq<char>> {
    match url_safe_decoded(secret) {
        Some(key) => Some(url_safe_encoded(hmac_sha256_of(key, hmac_message(timestamp, method, path, body)))),
        None => None,
    }
}

pub open spec fn opt_str_view(o: Option<&str>) -> Option<Seq<char>> {
    match o {
        Some(s) => Some(s@),
        None => None,
    }
}

pub open spec fn opt_string_view(o: Option<String>) -> Option<Seq<char>> {
    match o {
        Some(s) => Some(s@),
        None => None,
    }
}

/// Builds the message an L2 signature covers.
pub fn build_hmac_message(timestamp: u64, method: &str, req_path: &str, body: Option<&str>) -> (r:
    String)
    ensures
        r@ == hmac_message(timestamp, method@, req_path@, opt_str_view(body)),
{
    let mut message = String::new();
    push_decimal(&mut message, timestamp);
    push_str(&mut message, method);
    push_str(&mut message, req_path);
    if let Some(b) = body {
        push_str(&mut message, b);
    }
    proof {
        assert(message@ =~= hmac_message(timestamp, method@, req_path@, opt_str_view(body)));
    }
    message
}

/// The L2 signature of a request whose body is already in its canonical text.
pub fn build_hmac_signature_from_str(
    secret: &str,
    timestamp: u64,
    method: &str,
    req_path: &str,
    body: Option<&str>,
) -> (r: Result<String, ClobError>)
    ensures
        match hmac_signature(secret@, timestamp, method@, req_path@, opt_str_view(body)) {
            Some(sig) => r matches Ok(s) && s@ == sig,
            None => r == Err::<String, ClobError>(ClobError::InvalidSecret),
        },
{
    let key = match decode_url_safe(secret) {
        Some(k) => k,
        None => return Err(ClobError::InvalidSecret),
    };
    let message = build_hmac_message(timestamp, method, req_path, body);
    match hmac_sha256(&key, message.as_str()) {
        Some(tag) => Ok(encode_url_safe(&tag)),
        None => Err(ClobError::InvalidSecret),
    }
}

/// The L2 signature of a request, its body in canonical text.
pub fn build_hmac_signature(
    secret: &str,
    timestamp: u64,
    method: &str,
    req_path: &str,
    body: Option<&JsonBody>,
) -> (r: Result<String, ClobError>)
    ensures
        match hmac_signature(
            secret@,
            timestamp,
            method@,
            req_path@,
            match body {
                Some(b) => Some(canonical(*b)),
                None => None,
            },
        ) {
            Some(sig) => r matches Ok(s) && s@ == sig,
            None => r == Err::<String, ClobError>(ClobError::InvalidSecret),
        },
{
    match body {
        None => build_hmac_signature_from_str(secret, timestamp, method, req_path, None),
        Some(b) => {
            let text = format_hmac_body(b);
            build_hmac_signature_from_str(secret, timestamp, method, req_path, Some(text.as_str()))
        },
    }
}

fn push_header(headers: &mut Headers, name: &'static str, value: String)
    ensures
        headers_view(final(headers)@) == headers_view(old(headers)@).push((name@, value@)),
{
    let ghost before = headers@;
    headers.push((name, value));
    proof {
        assert(headers_view(headers@) =~= headers_view(before).push((name@, value@)));
    }
}

/// The wallet-signature headers: address, signature, timestamp and nonce.
pub open spec fn l1_headers_spec(
    address: Address,
    signature: Seq<char>,
    timestamp: u64,
    nonce: U256,
) -> Seq<(Seq<char>, Seq<char>)> {
    seq![
        (POLY_ADDR_HEADER@, "0x"@ + hex_lower(address.bytes@)),
        (POLY_SIG_HEADER@, signature),
        (POLY_TS_HEADER@, decimal_digits(timestamp as nat)),
        (POLY_NONCE_HEADER@, decimal_digits(nonce.value())),
    ]
}

/// Assembles the wallet-signature headers from a signature over
/// `timestamp` and `nonce`.
pub fn l1_headers(address: &Address, signature: String, timestamp: u64, nonce: &U256) -> (r:
    Headers)
    ensures
        headers_view(r@) == l1_headers_spec(*address, signature@, timestamp, *nonce),
{
    let mut headers: Headers = Vec::new();
    push_header(&mut headers, POLY_ADDR_HEADER, encode_prefixed(address));
    push_header(&mut headers, POLY_SIG_HEADER, signature);
    push_header(&mut headers, POLY_TS_HEADER, decimal_string(timestamp));
    push_header(&mut headers, POLY_NONCE_HEADER, u256_decimal(nonce));
    proof {
        assert(headers_view(headers@) =~= l1_headers_spec(*address, signature@, timestamp, *nonce));
    }
    headers
}

/// Wallet-signature headers at the current time, for `nonce` or zero. The
/// signer's failure is passed on.
/// Headers for some wallet address whose signature is one of the
/// authentication message for `timestamp` and `nonce`.
pub open spec fn is_l1_outcome(h: Seq<(Seq<char>, Seq<char>)>, timestamp: u64, nonce: U256) -> bool {
    exists|address: Address, signature: Seq<char>|
        #[trigger] l1_headers_spec(address, signature, timestamp, nonce) == h
            && is_clob_auth_signature(signature, decimal_digits(timestamp as nat), nonce)
}

/// Headers at some time for `nonce`, or for a zero nonce when none is given.
pub open spec fn is_l1_result(h: Seq<(Seq<char>, Seq<char>)>, nonce: Option<U256>) -> bool {
    exists|timestamp: u64, n: U256|
        #[trigger] is_l1_outcome(h, timestamp, n) && (match nonce {
            Some(given) => n == given,
            None => n.value() == 0,
        })
}

/// Wallet-signature headers at the current time, for `nonce` or zero: the
/// wallet signs the authentication message for exactly the timestamp and
/// nonce the headers carry. The wallet's failure is passed on.
pub fn create_l1_headers<S: EthSigner>(signer: &S, nonce: Option<U256>) -> (r: Result<
    Headers,
    ClobError,
>)
    ensures
        r matches Ok(h) ==> is_l1_result(headers_view(h@), nonce),
        r matches Err(e) ==> e is Signing,
{
    let timestamp = get_current_unix_time_secs();
    let nonce_value = match nonce {
        Some(n) => n,
        None => U256::zero(),
    };
    let ts_text = decimal_string(timestamp);
    let signature = match sign_auth_message(signer, ts_text.as_str(), &nonce_value) {
        Ok(s) => s,
        Err(e) => return Err(ClobError::Signing(e)),
    };
    let ghost sig = signature@;
    let address = signer.address();
    let headers = l1_headers(&address, signature, timestamp, &nonce_value);
    proof {
        assert(l1_headers_spec(address, sig, timestamp, nonce_value) == headers_view(headers@));
        assert(is_l1_outcome(headers_view(headers@), timestamp, nonce_value));
        assert(match nonce {
            Some(given) => nonce_value == given,
            None => nonce_value.value() == 0,
        });
        assert(is_l1_result(headers_view(headers@), nonce));
    }
    Ok(headers)
}

/// The API-credential headers: address, signature, timestamp, key and
/// passphrase.
pub open spec fn l2_headers_spec(
    address: Address,
    signature: Seq<char>,
    timestamp: u64,
    creds: ApiCreds,
) -> Seq<(Seq<char>, Seq<char>)> {
    seq![
        (POLY_ADDR_HEADER@, "0x"@ + hex_lower(address.bytes@)),
        (POLY_SIG_HEADER@, signature),
        (POLY_TS_HEADER@, decimal_digits(timestamp as nat)),
        (POLY_API_KEY_HEADER@, creds.api_key@),
        (POLY_PASS_HEADER@, creds.passphrase@),
    ]
}

/// The body text an L2 request sends: the canonical text of its body.
pub open spec fn body_text(body: Option<&JsonBody>) -> Option<Seq<char>> {
    match body {
        Some(b) => Some(canonical(*b)),
        None => None,
    }
}

/// API-credential headers for a request at `timestamp`, with the body text
/// that was signed. That text is what must be sent.
pub fn l2_headers(
    address: &Address,
    api_creds: &ApiCreds,
    timestamp: u64,
    method: &str,
    req_path: &str,
    body: Option<&JsonBody>,
) -> (r: Result<(Headers, Option<String>), ClobError>)
    ensures
        match hmac_signature(
            api_creds.secret@,
            timestamp,
            method@,
            req_path@,
            body_text(body),
        ) {
            Some(sig) => r matches Ok((h, b)) && opt_string_view(b) == body_text(body)
                && headers_view(h@) == l2_headers_spec(*address, sig, timestamp, *api_creds),
            None => r == Err::<(Headers, Option<String>), ClobError>(ClobError::InvalidSecret),
        },
{
    let body_str = match body {
        None => None,
        Some(b) => Some(format_hmac_body(b)),
    };
    let signature = match &body_str {
        None => build_hmac_signature_from_str(
            api_creds.secret.as_str(),
            timestamp,
            method,
            req_path,
            None,
        ),
        Some(b) => build_hmac_signature_from_str(
            api_creds.secret.as_str(),
            timestamp,
            method,
            req_path,
            Some(b.as_str()),
        ),
    };
    let signature = match signature {
        Ok(s) => s,
        Err(e) => return Err(e),
    };
    let mut headers: Headers = Vec::new();
    push_header(&mut headers, POLY_ADDR_HEADER, encode_prefixed(address));
    push_header(&mut headers, POLY_SIG_HEADER, signature);
    push_header(&mut headers, POLY_TS_HEADER, decimal_string(timestamp));
    push_header(&mut headers, POLY_API_KEY_HEADER, api_creds.api_key.clone());
    push_header(&mut headers, POLY_PASS_HEADER, api_creds.passphrase.clone());
    proof {
        assert(headers_view(headers@) =~= l2_headers_spec(
            *address,
            headers@[1].1@,
            timestamp,
            *api_creds,
        ));
    }
    Ok((headers, body_str))
}

/// API-credential headers at the current time for the signer's address.
/// Headers for some wallet address at `timestamp`, signed over the request
/// and its body text.
pub open spec fn is_l2_outcome(
    h: Seq<(Seq<char>, Seq<char>)>,
    timestamp: u64,
    creds: ApiCreds,
    method: Seq<char>,
    path: Seq<char>,
    body: Option<Seq<char>>,
) -> bool {
    match hmac_signature(creds.secret@, timestamp, method, path, body) {
        Some(sig) => exists|address: Address| #[trigger] l2_headers_spec(address, sig, timestamp, creds) == h,
        None => false,
    }
}

/// API-credential headers at the current time for the signer's address,
/// with the body text that was signed.
pub fn create_l2_headers<S: EthSigner>(
    signer: &S,
    api_creds: &ApiCreds,
    method: &str,
    req_path: &str,
    body: Option<&JsonBody>,
) -> (r: Result<(Headers, Option<String>), ClobError>)
    ensures
        url_safe_decoded(api_creds.secret@) is None ==> r == Err::<
            (Headers, Option<String>),
            ClobError,
        >(ClobError::InvalidSecret),
        url_safe_decoded(api_creds.secret@) is Some ==> (r matches Ok((h, b)) && opt_string_view(b)
            == body_text(body) && exists|timestamp: u64|
            #[trigger] is_l2_outcome(
                headers_view(h@),
                timestamp,
                *api_creds,
                method@,
                req_path@,
                body_text(body),
            )),
{
    let address = signer.address();
    let timestamp = get_current_unix_time_secs();
    let r = l2_headers(&address, api_creds, timestamp, method, req_path, body);
    proof {
        if r is Ok {
            let h = r->Ok_0.0;
            let sig = hmac_signature(api_creds.secret@, timestamp, method@, req_path@, body_text(body))->Some_0;
            assert(l2_headers_spec(address, sig, timestamp, *api_creds) == headers_view(h@));
            assert(is_l2_outcome(headers_view(h@), timestamp, *api_creds, method@, req_path@, body_text(body)));
        }
    }
    r
}

/// Two different body texts give two different signed messages: the body is
/// the final part of what the HMAC covers, so a changed body is a changed
/// message.
pub proof fn lemma_body_determines_message(
    timestamp: u64,
    method: Seq<char>,
    path: Seq<char>,
    body1: Seq<char>,
    body2: Seq<char>,
)
    requires
        body1 != body2,
    ensures
        hmac_message(timestamp, method, path, Some(body1)) != hmac_message(
            timestamp,
            method,
            path,
            Some(body2),
        ),
{
    let head = decimal_digits(timestamp as nat) + method + path;
    let m1 = head + body1;
    let m2 = head + body2;
    if m1 == m2 {
        assert(m1.subrange(head.len() as int, m1.len() as int) =~= body1);
        assert(m2.subrange(head.len() as int, m2.len() as int) =~= body2);
    }
}

} // verus!
