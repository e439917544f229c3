//! X.509 (SubjectPublicKeyInfo) framing of X25519 public keys, carried as base64.
use vstd::prelude::*;

use crate::codec::{base64_decoded, base64_of, decode_base64, encode_base64};

verus! {

/// The DER prefix of an X25519 SubjectPublicKeyInfo, before the 32 key bytes.
pub open spec fn x509_header() -> Seq<u8> {
    seq![0x30u8, 0x2au8, 0x30u8, 0x05u8, 0x06u8, 0x03u8, 0x2bu8, 0x65u8, 0x6eu8, 0x03u8, 0x21u8, 0x00u8]
}

fn header_bytes() -> (r: Vec<u8>)
    ensures
        r@ == x509_header(),
{
    let r = vec![0x30u8, 0x2au8, 0x30u8, 0x05u8, 0x06u8, 0x03u8, 0x2bu8, 0x65u8, 0x6eu8, 0x03u8, 0x21u8, 0x00u8];
    assert(r@ =~= x509_header());
    r
}

/// Why a key text was refused.
pub open spec fn key_error(s: Seq<char>) -> Option<Seq<char>> {
    match base64_decoded(s) {
        None => Some("Invalid base64 encoding"@),
        Some(b) => if b.len() == 32 {
            None
        } else if b.len() != 44 {
            Some("Invalid X.509 key length"@)
        } else if b.subrange(0, 12) != x509_header() {
            Some("Invalid X.509 header for X25519 key"@)
        } else {
            None
        },
    }
}

/// The raw key carried by an accepted key text: the decoded bytes when they
/// are a bare 32-byte key, else what follows the X.509 prefix.
pub open spec fn raw_key_in(s: Seq<char>) -> Seq<u8> {
    let b = base64_decoded(s)->0;
    if b.len() == 32 {
        b
    } else {
        b.subrange(12, 44)
    }
}

/// Relies on x25519-dalek: the public key of a fresh `EphemeralSecret`
/// drawn from the operating system's generator. Nothing is known of the bytes.
#[verifier::external_body]
fn fresh_public_key() -> (r: [u8; 32]) {
    let secret = x25519_dalek::EphemeralSecret::random_from_rng(rand_core::OsRng);
    x25519_dalek::PublicKey::from(&secret).to_bytes()
}

fn x509_text(raw_key: &[u8; 32]) -> (r: String)
    ensures
        r@ == base64_of(x509_header() + raw_key@),
        base64_decoded(r@) == Some(x509_header() + raw_key@),
{
    let mut bytes = header_bytes();
    let mut i: usize = 0;
    while i < 32
        invariant
            0 <= i <= 32,
            bytes@ == x509_header() + raw_key@.subrange(0, i as int),
        decreases 32 - i,
    {
        bytes.push(raw_key[i]);
        i = i + 1;
        assert(bytes@ =~= x509_header() + raw_key@.subrange(0, i as int));
    }
    assert(raw_key@.subrange(0, 32) =~= raw_key@);
    encode_base64(bytes.as_slice())
}

/// A fresh X25519 public key in X.509 form, base64-encoded.
pub fn generate_keypair_base64() -> (r: String)
    ensures
        exists|k: Seq<u8>| k.len() == 32 && r@ == base64_of(x509_header() + k),
{
    let key = fresh_public_key();
    let r = x509_text(&key);
    assert(key@.len() == 32);
    r
}

/// The X.509 form of a raw X25519 public key, base64-encoded.
pub fn encode_raw_key_to_x509(raw_key: &[u8; 32]) -> (r: String)
    ensures
        r@ == base64_of(x509_header() + raw_key@),
{
    x509_text(raw_key)
}

/// The raw 32-byte key in a base64 key text, which holds either the bare key
/// or its X.509 form.
pub fn decode_x509_to_raw_key(x509_base64: &str) -> (r: Result<[u8; 32], &'static str>)
    ensures
        key_error(x509_base64@) is None <==> r is Ok,
        r matches Ok(k) ==> k@ == raw_key_in(x509_base64@),
        r matches Err(e) ==> key_error(x509_base64@) == Some(e@),
{
    proof {
        reveal_strlit("Invalid base64 encoding");
        reveal_strlit("Invalid X.509 key length");
        reveal_strlit("Invalid X.509 header for X25519 key");
    }
    let bytes = match decode_base64(x509_base64) {
        Some(b) => b,
        None => {
            return Err("Invalid base64 encoding");
        },
    };
    let start: usize = if bytes.len() == 32 {
        0
    } else if bytes.len() != 44 {
        return Err("Invalid X.509 key length");
    } else {
        let header = header_bytes();
        let mut i: usize = 0;
        while i < 12
            invariant
                0 <= i <= 12,
                bytes@.len() == 44,
                base64_decoded(x509_base64@) == Some(bytes@),
                header@ == x509_header(),
                forall|j: int| 0 <= j < i ==> bytes@[j] == x509_header()[j],
            decreases 12 - i,
        {
            if bytes[i] != header[i] {
                assert(bytes@.subrange(0, 12)[i as int] != x509_header()[i as int]);
                return Err("Invalid X.509 header for X25519 key");
            }
            i = i + 1;
        }
        assert(bytes@.subrange(0, 12) =~= x509_header());
        12
    };
    let mut raw_key = [0u8; 32];
    let mut i: usize = 0;
    while i < 32
        invariant
            0 <= i <= 32,
            start as int + 32 == bytes@.len(),
            start <= 12,
            forall|j: int| 0 <= j < i ==> raw_key@[j] == bytes@[start + j],
        decreases 32 - i,
    {
        raw_key[i] = bytes[start + i];
        i = i + 1;
    }
    assert(raw_key@ =~= raw_key_in(x509_base64@));
    Ok(raw_key)
}

/// Whether a base64 key text holds an acceptable X25519 public key.
pub fn validate_x509_public_key(x509_base64: &str) -> (r: bool)
    ensures
        r == (key_error(x509_base64@) is None),
{
    decode_x509_to_raw_key(x509_base64).is_ok()
}

} // verus!
