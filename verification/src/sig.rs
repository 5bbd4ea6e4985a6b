//! Webhook signature verification.
//!
//! A request carries a signature header of the form `sha256=<hex-digest>`.
//! The daemon recomputes the HMAC-SHA256 of the raw request body under the
//! repository's secret and accepts the request exactly when the header's
//! digest matches, comparing in constant time.

use vstd::prelude::*;

use crate::hex::{hex_bytes, hex_decode, hex_digit_val, is_hex_seq};
use hmac::Mac;

verus! {

/// The HMAC-SHA256 digest of `msg` under `key`.
pub uninterp spec fn hmac_sha256(key: Seq<u8>, msg: Seq<u8>) -> Seq<u8>;

/// Relies on `hmac::Hmac<sha2::Sha256>` (`Mac::new_from_slice`, `Mac::update`,
/// `Mac::finalize`): the digest is a function of key and message alone, it is
/// 32 bytes long (SHA-256 output size), and key initialisation accepts a key
/// of any length.
#[verifier::external_body]
fn hmac_sha256_digest(key: &[u8], msg: &[u8]) -> (r: Vec<u8>)
    ensures
        r@ == hmac_sha256(key@, msg@),
        r@.len() == 32,
{
    let mut mac = hmac::Hmac::<sha2::Sha256>::new_from_slice(key)
        .expect("HMAC-SHA256 accepts keys of any length");
    mac.update(msg);
    mac.finalize().into_bytes().to_vec()
}

/// Compare two byte strings without an early exit on the first differing
/// byte, so that the comparison's timing does not leak how long a prefix of
/// a forged signature was correct.
pub fn bytes_eq_ct(a: &[u8], b: &[u8]) -> (r: bool)
    ensures
        r == (a@ == b@),
{
    if a.len() != b.len() {
        proof {
            assert(a@ != b@);
        }
        return false;
    }
    let mut acc: u8 = 0;
    let mut i: usize = 0;
    while i < a.len()
        invariant
            a@.len() == b@.len(),
            i <= a@.len(),
            (acc == 0) <==> (forall|j: int| 0 <= j < i ==> a@[j] == b@[j]),
        decreases a@.len() - i,
    {
        let x = a[i];
        let y = b[i];
        let d = x ^ y;
        proof {
            assert((x ^ y == 0) == (x == y)) by (bit_vector);
            assert(((acc | d) == 0) == (acc == 0 && d == 0)) by (bit_vector);
        }
        acc = acc | d;
        i = i + 1;
    }
    if acc == 0 {
        proof {
            assert(a@ =~= b@);
        }
        true
    } else {
        proof {
            let j = choose|j: int| 0 <= j < a@.len() && a@[j] != b@[j];
            assert(a@[j] != b@[j]);
        }
        false
    }
}

/// The scheme prefix every signature header must carry.
pub open spec fn sig_scheme() -> Seq<char> {
    "sha256="@
}

/// Is `h` a signature header that authenticates `body` under `key`:
/// the `sha256=` prefix, followed by well-formed hex whose bytes are the
/// HMAC-SHA256 digest of `body` under `key`?
pub open spec fn sig_header_ok(h: Seq<char>, key: Seq<u8>, body: Seq<u8>) -> bool {
    &&& h.len() >= 7
    &&& h.subrange(0, 7) == sig_scheme()
    &&& is_hex_seq(h.skip(7))
    &&& hex_bytes(h.skip(7)) == hmac_sha256(key, body)
}

/// Decide whether `header` authenticates `body` under `secret`. Accepts
/// exactly the headers `sig_header_ok` describes; the digest comparison is
/// constant-time.
pub fn verify_signature(header: &str, secret: &[u8], body: &[u8]) -> (r: bool)
    ensures
        r == sig_header_ok(header@, secret@, body@),
{
    proof {
        reveal_strlit("sha256=");
    }
    let n = header.unicode_len();
    if n < 7 {
        return false;
    }
    let scheme = "sha256=";
    let mut i: usize = 0;
    while i < 7
        invariant
            n == header@.len(),
            n >= 7,
            i <= 7,
            scheme@ == sig_scheme(),
            scheme@.len() == 7,
            forall|j: int| 0 <= j < i ==> header@[j] == sig_scheme()[j],
        decreases 7 - i,
    {
        if header.get_char(i) != scheme.get_char(i) {
            proof {
                assert(header@.subrange(0, 7)[i as int] == header@[i as int]);
            }
            return false;
        }
        i = i + 1;
    }
    proof {
        assert(header@.subrange(0, 7) =~= sig_scheme());
    }
    let rest = header.substring_char(7, n);
    proof {
        assert(rest@ == header@.skip(7));
    }
    let digest_hex = match hex_decode(rest) {
        Some(bytes) => bytes,
        None => {
            return false;
        },
    };
    let expected = hmac_sha256_digest(secret, body);
    bytes_eq_ct(digest_hex.as_slice(), expected.as_slice())
}

/// A header whose hex part denotes different digest bytes than an accepted
/// header's is rejected: at most one digest value authenticates a given
/// body under a given secret.
pub proof fn lemma_signature_unique(h1: Seq<char>, h2: Seq<char>, key: Seq<u8>, body: Seq<u8>)
    requires
        sig_header_ok(h1, key, body),
        h2.len() >= 7,
        hex_bytes(h2.skip(7)) != hex_bytes(h1.skip(7)),
    ensures
        !sig_header_ok(h2, key, body),
{
}

/// Changing the value of any single hex digit of a well-formed digest
/// changes the bytes it denotes, so a tampered signature no longer matches.
pub proof fn lemma_hex_digit_change(s1: Seq<char>, s2: Seq<char>, i: int)
    requires
        is_hex_seq(s1),
        is_hex_seq(s2),
        s1.len() == s2.len(),
        0 <= i < s1.len(),
        hex_digit_val(s1[i]) != hex_digit_val(s2[i]),
        forall|j: int| 0 <= j < s1.len() && j != i ==> hex_digit_val(s1[j]) == hex_digit_val(s2[j]),
    ensures
        hex_bytes(s1) != hex_bytes(s2),
{
    let k = i / 2;
    assert(hex_bytes(s1)[k] != hex_bytes(s2)[k]);
}

} // verus!
