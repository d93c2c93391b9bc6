//! The signing protocol: the canonical message of a request, its signature,
//! and the credential that keys it.
//!
//! The signature of a request is the HMAC-SHA256 tag of its canonical message
//! under the credential, written in base64. Hashing, encoding, upper-casing
//! and randomness come from outside this crate; each is reached through one
//! function below whose contract is taken on trust.

use vstd::prelude::*;
use vstd::string::StringExecFns;
use vstd::utf8::encode_utf8;
use crate::errors::VmMonitorError;
use crate::text::{
    i64_to_decimal, lemma_signed_decimal_is_injective, lemma_signed_decimal_is_one_line,
    signed_decimal,
};
use base64::Engine;
use hmac::Mac;
use rand::RngCore;

verus! {

/// The number of random bytes in a credential: 256 bits.
pub const KEY_BYTES: usize = 32;

/// `text` in upper case, as `str::to_uppercase` writes it.
pub uninterp spec fn uppercase(text: Seq<char>) -> Seq<char>;

/// The HMAC-SHA256 tag of `message` under `key`.
pub uninterp spec fn hmac_sha256(key: Seq<u8>, message: Seq<u8>) -> Seq<u8>;

/// `bytes` in base64, standard alphabet, with padding.
pub uninterp spec fn base64_standard(bytes: Seq<u8>) -> Seq<char>;

/// Four fields of a request as one text: the decimal Unix timestamp, the
/// method, the path and the body, in this order, each pair separated by one
/// line feed.
pub open spec fn canonical_lines(
    timestamp: i64,
    method: Seq<char>,
    path: Seq<char>,
    body: Seq<char>,
) -> Seq<char> {
    signed_decimal(timestamp as int) + seq!['\n'] + method + seq!['\n'] + path + seq!['\n']
        + body
}

/// The text that is signed for a request: its four fields as one text, with
/// the method in upper case. A request without a body has the empty body.
pub open spec fn canonical_message(
    timestamp: i64,
    method: Seq<char>,
    path: Seq<char>,
    body: Seq<char>,
) -> Seq<char> {
    canonical_lines(timestamp, uppercase(method), path, body)
}

/// The signature of a request under the credential `secret`.
pub open spec fn signature(
    secret: Seq<char>,
    timestamp: i64,
    method: Seq<char>,
    path: Seq<char>,
    body: Seq<char>,
) -> Seq<char> {
    base64_standard(
        hmac_sha256(
            encode_utf8(secret),
            encode_utf8(canonical_message(timestamp, method, path, body)),
        ),
    )
}

/// Whether `key` is a credential: the base64 text of `KEY_BYTES` bytes.
pub open spec fn is_credential(key: Seq<char>) -> bool {
    exists|bytes: Seq<u8>| bytes.len() == KEY_BYTES && key == #[trigger] base64_standard(bytes)
}

/// `str::to_uppercase` of the standard library. The result is taken to be
/// the upper-case form of the argument, which depends on nothing else.
#[verifier::external_body]
fn to_uppercase(text: &str) -> (upper: String)
    ensures
        upper@ == uppercase(text@),
{
    text.to_uppercase()
}

/// `Hmac::<Sha256>::new_from_slice`, `update` and `finalize` of the crates
/// `hmac` and `sha2`: the tag of `message` under `key`, or what the keyed hash
/// said when it refused the key. This keyed hash takes a key of any length, so
/// the result is taken to be a tag, and the tag to depend on key and message
/// alone.
#[verifier::external_body]
fn hmac_sha256_tag(key: &[u8], message: &[u8]) -> (tag: Result<[u8; 32], String>)
    ensures
        tag is Ok,
        tag matches Ok(bytes) ==> bytes@ == hmac_sha256(key@, message@),
{
    let mut mac = match hmac::Hmac::<sha2::Sha256>::new_from_slice(key) {
        Ok(mac) => mac,
        Err(refusal) => return Err(refusal.to_string()),
    };
    mac.update(message);
    Ok(mac.finalize().into_bytes().into())
}

/// `Engine::encode` of the crate `base64`, on its `STANDARD` engine. The
/// result is taken to be the base64 text of the argument. The call panics when
/// the length of that text does not fit in `usize`; the precondition keeps
/// such an argument out.
#[verifier::external_body]
fn base64_encode(bytes: &[u8]) -> (text: String)
    requires
        bytes@.len() / 3 * 4 + 4 <= usize::MAX,
    ensures
        text@ == base64_standard(bytes@),
{
    base64::engine::general_purpose::STANDARD.encode(bytes)
}

/// `RngCore::fill_bytes` on `thread_rng` of the crate `rand`: overwrites
/// `bytes` with bytes from the thread's cryptographically secure generator.
/// Nothing is known of them but their number, which is what it was. The call
/// panics where the operating system gives the generator no entropy, which no
/// argument decides.
#[verifier::external_body]
fn fill_random(bytes: &mut Vec<u8>)
    ensures
        final(bytes)@.len() == old(bytes)@.len(),
{
    rand::thread_rng().fill_bytes(bytes.as_mut_slice());
}

/// Writes the bytes of a credential as the credential: their base64 text.
pub fn credential_from_bytes(drawn: &Vec<u8>) -> (key: String)
    requires
        drawn@.len() == KEY_BYTES,
    ensures
        key@ == base64_standard(drawn@),
        is_credential(key@),
{
    base64_encode(drawn.as_slice())
}

/// A fresh credential: 256 random bits in base64. The bits are drawn from the
/// thread's cryptographically secure generator, and the credential is the
/// text of exactly those.
pub fn generate_api_key() -> (key: String)
    ensures
        is_credential(key@),
{
    let mut drawn: Vec<u8> = Vec::new();
    while drawn.len() < KEY_BYTES
        invariant
            drawn@.len() <= KEY_BYTES,
        decreases KEY_BYTES - drawn@.len(),
    {
        drawn.push(0);
    }
    fill_random(&mut drawn);
    credential_from_bytes(&drawn)
}

/// Joins the four fields of a request to the text that stands for them. The
/// method is written as it is given.
pub fn canonical_lines_text(
    timestamp: i64,
    method: &str,
    request_path: &str,
    request_body: &str,
) -> (message: String)
    ensures
        message@ == canonical_lines(timestamp, method@, request_path@, request_body@),
{
    proof {
        reveal_strlit("\n");
    }
    let mut message = i64_to_decimal(timestamp);
    message.append("\n");
    message.append(method);
    message.append("\n");
    message.append(request_path);
    message.append("\n");
    message.append(request_body);
    assert("\n"@ =~= seq!['\n']);
    message
}

/// Writes the canonical message of a request: its four fields joined, with
/// the method in upper case.
pub fn canonical_message_text(
    timestamp: i64,
    http_method: &str,
    request_path: &str,
    request_body: &str,
) -> (message: String)
    ensures
        message@ == canonical_message(timestamp, http_method@, request_path@, request_body@),
{
    let upper = to_uppercase(http_method);
    canonical_lines_text(timestamp, upper.as_str(), request_path, request_body)
}

/// Signs a request with the credential `api_secret_key`.
///
/// The result is the signature of the request: the same for the same five
/// arguments, whenever and wherever it is computed. Signing would fail with an
/// `AuthError` if the keyed hash refused the credential; HMAC refuses none.
pub fn sign_request(
    api_secret_key: &str,
    timestamp: i64,
    http_method: &str,
    request_path: &str,
    request_body: &str,
) -> (result: Result<String, VmMonitorError>)
    ensures
        result matches Ok(text) && text@ == signature(
            api_secret_key@,
            timestamp,
            http_method@,
            request_path@,
            request_body@,
        ),
{
    let message = canonical_message_text(timestamp, http_method, request_path, request_body);
    match hmac_sha256_tag(api_secret_key.as_bytes(), message.as_str().as_bytes()) {
        Ok(tag) => Ok(base64_encode(tag.as_slice())),
        Err(refusal) => {
            let mut detail = String::from_str("Failed to initialize HMAC: ");
            detail.append(refusal.as_str());
            Err(VmMonitorError::AuthError(detail))
        },
    }
}

/// A text is split in one way only at the first occurrence of a separator:
/// if two heads without the separator, each followed by the separator and a
/// rest, make the same text, then heads and rests are the same.
pub proof fn lemma_split_at_separator(
    head_a: Seq<char>,
    rest_a: Seq<char>,
    head_b: Seq<char>,
    rest_b: Seq<char>,
    separator: char,
)
    requires
        !head_a.contains(separator),
        !head_b.contains(separator),
        head_a + seq![separator] + rest_a == head_b + seq![separator] + rest_b,
    ensures
        head_a == head_b,
        rest_a == rest_b,
{
    let whole_a = head_a + seq![separator] + rest_a;
    let whole_b = head_b + seq![separator] + rest_b;
    assert(whole_a[head_a.len() as int] == separator);
    assert(whole_b[head_b.len() as int] == separator);
    if head_a.len() < head_b.len() {
        assert(whole_b[head_a.len() as int] == head_b[head_a.len() as int]);
        assert(head_b.contains(separator));
    }
    if head_b.len() < head_a.len() {
        assert(whole_a[head_b.len() as int] == head_a[head_b.len() as int]);
        assert(head_a.contains(separator));
    }
    assert(head_a =~= whole_a.subrange(0, head_a.len() as int));
    assert(head_b =~= whole_b.subrange(0, head_b.len() as int));
    assert(rest_a =~= whole_a.subrange(head_a.len() as int + 1, whole_a.len() as int));
    assert(rest_b =~= whole_b.subrange(head_b.len() as int + 1, whole_b.len() as int));
}

/// The signed text tells requests apart: where neither method nor path holds
/// a line feed, two requests whose four fields make the same text have the
/// same timestamp, the same method, the same path and the same body. So a
/// change in any of these fields changes what is signed.
pub proof fn lemma_canonical_lines_are_injective(
    timestamp_a: i64,
    method_a: Seq<char>,
    path_a: Seq<char>,
    body_a: Seq<char>,
    timestamp_b: i64,
    method_b: Seq<char>,
    path_b: Seq<char>,
    body_b: Seq<char>,
)
    requires
        !method_a.contains('\n'),
        !method_b.contains('\n'),
        !path_a.contains('\n'),
        !path_b.contains('\n'),
        canonical_lines(timestamp_a, method_a, path_a, body_a) == canonical_lines(
            timestamp_b,
            method_b,
            path_b,
            body_b,
        ),
    ensures
        timestamp_a == timestamp_b,
        method_a == method_b,
        path_a == path_b,
        body_a == body_b,
{
    let line = seq!['\n'];
    let time_a = signed_decimal(timestamp_a as int);
    let time_b = signed_decimal(timestamp_b as int);
    let after_path_a = path_a + line + body_a;
    let after_path_b = path_b + line + body_b;
    let after_time_a = method_a + line + after_path_a;
    let after_time_b = method_b + line + after_path_b;
    assert(canonical_lines(timestamp_a, method_a, path_a, body_a) =~= time_a + line
        + after_time_a);
    assert(canonical_lines(timestamp_b, method_b, path_b, body_b) =~= time_b + line
        + after_time_b);
    lemma_signed_decimal_is_one_line(timestamp_a as int);
    lemma_signed_decimal_is_one_line(timestamp_b as int);
    lemma_split_at_separator(time_a, after_time_a, time_b, after_time_b, '\n');
    lemma_signed_decimal_is_injective(timestamp_a as int, timestamp_b as int);
    lemma_split_at_separator(method_a, after_path_a, method_b, after_path_b, '\n');
    lemma_split_at_separator(path_a, body_a, path_b, body_b, '\n');
}

/// Signing is a function of its five inputs: two requests that agree in
/// credential, timestamp, method, path and body have the same signature.
pub proof fn lemma_signing_is_deterministic(
    secret_a: Seq<char>,
    timestamp_a: i64,
    method_a: Seq<char>,
    path_a: Seq<char>,
    body_a: Seq<char>,
    secret_b: Seq<char>,
    timestamp_b: i64,
    method_b: Seq<char>,
    path_b: Seq<char>,
    body_b: Seq<char>,
)
    requires
        secret_a == secret_b,
        timestamp_a == timestamp_b,
        method_a == method_b,
        path_a == path_b,
        body_a == body_b,
    ensures
        signature(secret_a, timestamp_a, method_a, path_a, body_a) == signature(
            secret_b,
            timestamp_b,
            method_b,
            path_b,
            body_b,
        ),
{
}

} // verus!
