//! Request authentication for venues that sign their calls: assembling the
//! canonical query string and computing its hex-encoded HMAC-SHA-256 tag.

use vstd::prelude::*;
use hmac::{Hmac, KeyInit, Mac};
use sha2::Sha256;
use vstd::utf8::encode_utf8;

verus! {

/// What HMAC-SHA-256 returns for a key and a message. The digest takes pages
/// to state, but it is a function of the two arguments alone, so it only gets
/// a name here; `hmac_sha256` relies on the hmac crate to compute it.
pub uninterp spec fn hmac_sha256_of(key: Seq<u8>, msg: Seq<u8>) -> Seq<u8>;

/// Relies on hmac's `Hmac<Sha256>`: the tag depends on the key and the
/// message alone and is 32 bytes long (SHA-256's output size), and keys of
/// any length are accepted.
#[verifier::external_body]
fn hmac_sha256(key: &[u8], msg: &[u8]) -> (r: Vec<u8>)
    ensures
        r@ == hmac_sha256_of(key@, msg@),
        r@.len() == 32,
{
    let mut mac = <Hmac<Sha256> as KeyInit>::new_from_slice(key)
        .expect("HMAC accepts keys of any length");
    mac.update(msg);
    mac.finalize().into_bytes().to_vec()
}

/// The lowercase hexadecimal digit of a value below 16.
pub open spec fn hex_digit(n: int) -> char {
    if n == 0 { '0' }
    else if n == 1 { '1' }
    else if n == 2 { '2' }
    else if n == 3 { '3' }
    else if n == 4 { '4' }
    else if n == 5 { '5' }
    else if n == 6 { '6' }
    else if n == 7 { '7' }
    else if n == 8 { '8' }
    else if n == 9 { '9' }
    else if n == 10 { 'a' }
    else if n == 11 { 'b' }
    else if n == 12 { 'c' }
    else if n == 13 { 'd' }
    else if n == 14 { 'e' }
    else { 'f' }
}

/// The lowercase hexadecimal rendering of a byte string: two digits per byte,
/// high digit first.
pub open spec fn hex_of(bytes: Seq<u8>) -> Seq<char>
    decreases bytes.len(),
{
    if bytes.len() == 0 {
        Seq::empty()
    } else {
        hex_of(bytes.drop_last())
            .push(hex_digit(bytes.last() as int / 16))
            .push(hex_digit(bytes.last() as int % 16))
    }
}

/// Relies on hex::encode: the result uses two lowercase digits per input
/// byte, in input order.
#[verifier::external_body]
fn bytes_to_hex(b: &[u8]) -> (r: String)
    ensures
        r@ == hex_of(b@),
{
    hex::encode(b)
}

/// The hex-encoded HMAC-SHA-256 tag of `payload` under `secret`, as venues
/// that sign their requests expect it.
pub fn generate_signature(secret: &[u8], payload: &[u8]) -> (r: String)
    ensures
        r@ == hex_of(hmac_sha256_of(secret@, payload@)),
{
    let tag = hmac_sha256(secret, payload);
    bytes_to_hex(tag.as_slice())
}

/// The canonical query string of a parameter list: `key=value` pairs joined
/// by `&`, in the given order.
pub open spec fn query_of(params: Seq<(String, String)>) -> Seq<char>
    decreases params.len(),
{
    if params.len() == 0 {
        Seq::empty()
    } else if params.len() == 1 {
        params[0].0@ + seq!['='] + params[0].1@
    } else {
        query_of(params.drop_last()) + seq!['&'] + params.last().0@ + seq!['=']
            + params.last().1@
    }
}

/// Builds the canonical query string of a parameter list.
pub fn canonical_query(params: &Vec<(String, String)>) -> (r: String)
    ensures
        r@ == query_of(params@),
{
    let n = params.len();
    let mut r = String::new();
    let mut i: usize = 0;
    while i < n
        invariant
            n == params@.len(),
            i <= n,
            r@ == query_of(params@.take(i as int)),
        decreases n - i,
    {
        proof {
            reveal_strlit("&");
            reveal_strlit("=");
            let t = params@.take(i + 1);
            assert(t.drop_last() =~= params@.take(i as int));
            assert(t.last() == params@[i as int]);
        }
        if i > 0 {
            r.append("&");
        }
        r.append(params[i].0.as_str());
        r.append("=");
        r.append(params[i].1.as_str());
        proof {
            assert("&"@ =~= seq!['&']);
            assert("="@ =~= seq!['=']);
            assert(r@ =~= query_of(params@.take(i + 1)));
        }
        i = i + 1;
    }
    proof {
        assert(params@.take(n as int) =~= params@);
    }
    r
}

/// The canonical query string of the parameters with its own signature
/// appended, ready to be sent to a signing venue: the tag is the
/// hex-encoded HMAC-SHA-256 of the query string's bytes under the secret.
pub fn signed_query(params: &Vec<(String, String)>, secret: &[u8]) -> (r: String)
    ensures
        r@ == query_of(params@) + "&signature="@
            + hex_of(hmac_sha256_of(secret@, encode_utf8(query_of(params@)))),
{
    let q = canonical_query(params);
    let sig = generate_signature(secret, q.as_str().as_bytes());
    let mut r = q;
    r.append("&signature=");
    r.append(sig.as_str());
    r
}

} // verus!
