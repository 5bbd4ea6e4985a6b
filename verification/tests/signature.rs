//! Signature verification against digests computed with the real HMAC
//! implementation, and the hex decoder's exact behaviour.

use hmac::Mac;
use snare::hex::hex_decode;
use snare::sig::verify_signature;

fn sign(secret: &[u8], body: &[u8]) -> String {
    let mut mac = hmac::Hmac::<sha2::Sha256>::new_from_slice(secret).unwrap();
    mac.update(body);
    let digest = mac.finalize().into_bytes();
    let mut s = String::from("sha256=");
    for b in digest {
        s.push_str(&format!("{:02x}", b));
    }
    s
}

#[test]
fn hex_decode_round_trip() {
    assert_eq!(hex_decode("00ff10Ab"), Some(vec![0x00, 0xff, 0x10, 0xab]));
    assert_eq!(hex_decode(""), Some(vec![]));
}

#[test]
fn hex_decode_rejects_odd_length() {
    assert_eq!(hex_decode("abc"), None);
}

#[test]
fn hex_decode_rejects_non_hex() {
    assert_eq!(hex_decode("zz"), None);
    assert_eq!(hex_decode("0g"), None);
}

#[test]
fn hex_decode_case_insensitive() {
    assert_eq!(hex_decode("DEADBEEF"), hex_decode("deadbeef"));
}

#[test]
fn correct_signature_accepted() {
    let secret = b"a very secret key";
    let body = b"{\"repo\": \"infra\"}";
    let header = sign(secret, body);
    assert!(verify_signature(&header, secret, body));
}

#[test]
fn correct_signature_accepted_empty_body() {
    let secret = b"k";
    let body = b"";
    let header = sign(secret, body);
    assert!(verify_signature(&header, secret, body));
}

#[test]
fn flipped_payload_bit_rejected() {
    let secret = b"a very secret key";
    let body = b"{\"repo\": \"infra\"}".to_vec();
    let header = sign(secret, &body);
    for i in 0..body.len() {
        for bit in 0..8 {
            let mut tampered = body.clone();
            tampered[i] ^= 1 << bit;
            assert!(!verify_signature(&header, secret, &tampered));
        }
    }
}

#[test]
fn flipped_signature_digit_rejected() {
    let secret = b"a very secret key";
    let body = b"payload bytes";
    let header = sign(secret, body);
    let bytes = header.as_bytes();
    for i in 7..header.len() {
        let mut tampered = bytes.to_vec();
        tampered[i] = if tampered[i] == b'0' { b'1' } else { b'0' };
        let tampered = String::from_utf8(tampered).unwrap();
        assert!(!verify_signature(&tampered, secret, body));
    }
}

#[test]
fn wrong_secret_rejected() {
    let body = b"payload bytes";
    let header = sign(b"right key", body);
    assert!(!verify_signature(&header, b"wrong key", body));
}

#[test]
fn missing_or_wrong_prefix_rejected() {
    let secret = b"key";
    let body = b"body";
    let header = sign(secret, body);
    let bare = &header["sha256=".len()..];
    assert!(!verify_signature(bare, secret, body));
    let sha1_style = format!("sha1={}", bare);
    assert!(!verify_signature(&sha1_style, secret, body));
    assert!(!verify_signature("", secret, body));
    assert!(!verify_signature("sha256", secret, body));
}

#[test]
fn truncated_digest_rejected() {
    let secret = b"key";
    let body = b"body";
    let header = sign(secret, body);
    let truncated = &header[..header.len() - 2];
    assert!(!verify_signature(truncated, secret, body));
}

#[test]
fn odd_hex_rejected() {
    let secret = b"key";
    let body = b"body";
    let header = sign(secret, body);
    let odd = &header[..header.len() - 1];
    assert!(!verify_signature(odd, secret, body));
}
