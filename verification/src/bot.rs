//! Authentication of requests from Discord: the request's Ed25519 signature over
//! its timestamp and body is checked against the application's public key.

use vstd::prelude::*;
use vstd::utf8::encode_utf8;
use vstd::string::StringSliceAdditionalSpecFns;
use crate::utils::{Error, HexError, VerificationError};
use crate::signing::{SignatureBytes, VerifyingKey, ed25519_point_decompresses, ed25519_verifies};

verus! {

/// The value of the hexadecimal digit `b`, in either case.
pub open spec fn hex_digit_value(b: u8) -> Option<u8> {
    if 48 <= b <= 57 {
        Some((b - 48) as u8)
    } else if 65 <= b <= 70 {
        Some((b - 55) as u8)
    } else if 97 <= b <= 102 {
        Some((b - 87) as u8)
    } else {
        None
    }
}

/// The first index at or after `i` whose byte is not a hexadecimal digit.
pub open spec fn first_non_hex(s: Seq<u8>, i: nat) -> Option<nat>
    decreases s.len() - i,
{
    if i >= s.len() {
        None
    } else if hex_digit_value(s[i as int]) is None {
        Some(i)
    } else {
        first_non_hex(s, i + 1)
    }
}

/// The bytes that the hexadecimal text `s` denotes, two digits per byte.
pub open spec fn hex_bytes(s: Seq<u8>) -> Seq<u8> {
    Seq::new(
        s.len() / 2,
        |i: int|
            (hex_digit_value(s[2 * i])->0 * 16 + hex_digit_value(s[2 * i + 1])->0) as u8,
    )
}

/// What `hex::decode` gives for the text `s`: an odd length is refused first,
/// then the first byte that is not a hexadecimal digit, else the decoded bytes.
pub open spec fn hex_decode_spec(s: Seq<u8>) -> Result<Seq<u8>, HexError> {
    if s.len() % 2 != 0 {
        Err(HexError::OddLength)
    } else {
        match first_non_hex(s, 0) {
            Some(i) => Err(HexError::InvalidHexCharacter { c: s[i as int] as char, index: i as usize }),
            None => Ok(hex_bytes(s)),
        }
    }
}

pub open spec fn decoded_view(res: Result<Vec<u8>, HexError>) -> Result<Seq<u8>, HexError> {
    match res {
        Ok(v) => Ok(v@),
        Err(e) => Err(e),
    }
}

/// `hex::decode` on the UTF-8 bytes of `text`; its result is `hex_decode_spec`
/// of those bytes, as the crate's source shows (`FromHex for Vec<u8>`).
#[verifier::external_body]
fn hex_decode(text: &str) -> (res: Result<Vec<u8>, HexError>)
    ensures
        decoded_view(res) == hex_decode_spec(text.spec_bytes()),
{
    match hex::decode(text) {
        Ok(bytes) => Ok(bytes),
        Err(hex::FromHexError::InvalidHexCharacter { c, index }) => Err(
            HexError::InvalidHexCharacter { c, index },
        ),
        Err(hex::FromHexError::OddLength) => Err(HexError::OddLength),
        Err(hex::FromHexError::InvalidStringLength) => Err(HexError::InvalidStringLength),
    }
}

/// The bytes that Discord signs: the timestamp followed by the body, in UTF-8.
pub open spec fn signed_message(timestamp: Seq<char>, body: Seq<char>) -> Seq<u8> {
    encode_utf8(timestamp + body)
}

proof fn lemma_encode_utf8_concat(a: Seq<char>, b: Seq<char>)
    ensures
        encode_utf8(a + b) == encode_utf8(a) + encode_utf8(b),
    decreases a.len(),
{
    if a.len() == 0 {
        assert(a + b =~= b);
        assert(encode_utf8(a) =~= Seq::<u8>::empty());
        assert(encode_utf8(a) + encode_utf8(b) =~= encode_utf8(b));
    } else {
        lemma_encode_utf8_concat(a.drop_first(), b);
        assert((a + b).drop_first() =~= a.drop_first() + b);
        assert((a + b)[0] == a[0]);
        let h = vstd::utf8::encode_scalar(a[0] as u32);
        assert(encode_utf8(a + b) == h + encode_utf8(a.drop_first() + b));
        assert(encode_utf8(a) == h + encode_utf8(a.drop_first()));
        assert(h + (encode_utf8(a.drop_first()) + encode_utf8(b)) =~= (h + encode_utf8(a.drop_first())) + encode_utf8(b));
    }
}

fn concat_bytes(a: &[u8], b: &[u8]) -> (res: Vec<u8>)
    ensures
        res@ == a@ + b@,
{
    let mut out: Vec<u8> = Vec::new();
    let mut i: usize = 0;
    while i < a.len()
        invariant
            0 <= i <= a@.len(),
            out@ == a@.take(i as int),
        decreases a@.len() - i,
    {
        out.push(a[i]);
        assert(a@.take(i + 1) =~= a@.take(i as int).push(a@[i as int]));
        i = i + 1;
    }
    assert(a@.take(a@.len() as int) =~= a@);
    let mut j: usize = 0;
    while j < b.len()
        invariant
            0 <= j <= b@.len(),
            out@ == a@ + b@.take(j as int),
        decreases b@.len() - j,
    {
        out.push(b[j]);
        assert(b@.take(j + 1) =~= b@.take(j as int).push(b@[j as int]));
        assert(a@ + b@.take(j + 1) =~= (a@ + b@.take(j as int)).push(b@[j as int]));
        j = j + 1;
    }
    assert(b@.take(b@.len() as int) =~= b@);
    out
}

/// Whether a request whose headers and body are all present passes the check:
/// the key and the signature are valid hexadecimal, the key is a valid curve
/// point, the signature is well formed, and Ed25519 accepts it on `timestamp ++ body`.
pub open spec fn request_is_authentic(
    key_hex: Seq<char>,
    signature_hex: Seq<char>,
    timestamp: Seq<char>,
    body: Seq<char>,
) -> bool {
    let key = hex_decode_spec(encode_utf8(key_hex));
    let sig = hex_decode_spec(encode_utf8(signature_hex));
    &&& key is Ok
    &&& key->Ok_0.len() == 32
    &&& ed25519_point_decompresses(key->Ok_0)
    &&& sig is Ok
    &&& sig->Ok_0.len() == 64
    &&& sig->Ok_0[63] & 0xe0u8 == 0
    &&& ed25519_verifies(key->Ok_0, signed_message(timestamp, body), sig->Ok_0)
}

/// Checks that a request comes from Discord.
///
/// `discord_key` is the `DISCORD_KEY` environment variable, `signature` and
/// `timestamp` the `x-signature-ed25519` and `x-signature-timestamp` headers,
/// `body` the request's text; `None` stands for a value that could not be had.
/// The checks come in this order: the variable, the key's hexadecimal, the key
/// itself, the two headers, the body, the signature's hexadecimal, its form,
/// and finally the Ed25519 verification of `timestamp ++ body`.
pub fn authenticate_request(
    discord_key: Option<&str>,
    signature: Option<&str>,
    timestamp: Option<&str>,
    body: Option<&str>,
) -> (res: Result<(), Error>)
    ensures
        discord_key is None ==> (res matches Err(Error::EnvironmentVariableNotFound(name))
            && name@ == "DISCORD_KEY"@),
        discord_key matches Some(k) ==> ({
            let key = hex_decode_spec(encode_utf8(k@));
            &&& key matches Err(e) ==> res == Err::<(), Error>(
                Error::VerificationFailed(VerificationError::ParseError(e)),
            )
            &&& key matches Ok(kb) ==> {
                &&& !(kb.len() == 32 && ed25519_point_decompresses(kb)) ==> res == Err::<(), Error>(
                    Error::VerificationFailed(VerificationError::InvalidSignature),
                )
                &&& (kb.len() == 32 && ed25519_point_decompresses(kb)) ==> {
                    &&& signature is None ==> (res matches Err(Error::HeaderNotFound(h))
                        && h@ == "x-signature-ed25519"@)
                    &&& (signature is Some && timestamp is None) ==> (res matches Err(
                        Error::HeaderNotFound(h),
                    ) && h@ == "x-signature-timestamp"@)
                    &&& (signature is Some && timestamp is Some && body is None) ==> (res matches Err(
                        Error::PayloadError(m),
                    ) && m@ == ""@)
                    &&& (signature is Some && timestamp is Some && body is Some) ==> {
                        let (s, t, b) = (signature->0, timestamp->0, body->0);
                        let sig = hex_decode_spec(encode_utf8(s@));
                        &&& sig matches Err(e) ==> res == Err::<(), Error>(
                            Error::VerificationFailed(VerificationError::ParseError(e)),
                        )
                        &&& sig is Ok ==> (res is Ok <==> request_is_authentic(k@, s@, t@, b@))
                        &&& (sig is Ok && res is Err) ==> res == Err::<(), Error>(
                            Error::VerificationFailed(VerificationError::InvalidSignature),
                        )
                    }
                }
            }
        }),
{
    let key_hex = match discord_key {
        Some(k) => k,
        None => {
            return Err(Error::EnvironmentVariableNotFound(String::from_str("DISCORD_KEY")));
        },
    };
    let key_bytes = match hex_decode(key_hex) {
        Ok(bytes) => bytes,
        Err(e) => {
            return Err(Error::VerificationFailed(VerificationError::ParseError(e)));
        },
    };
    let key = match VerifyingKey::from_bytes(key_bytes) {
        Some(key) => key,
        None => {
            return Err(Error::VerificationFailed(VerificationError::InvalidSignature));
        },
    };
    let signature_hex = match signature {
        Some(s) => s,
        None => {
            return Err(Error::HeaderNotFound(String::from_str("x-signature-ed25519")));
        },
    };
    let timestamp = match timestamp {
        Some(t) => t,
        None => {
            return Err(Error::HeaderNotFound(String::from_str("x-signature-timestamp")));
        },
    };
    let body = match body {
        Some(b) => b,
        None => {
            return Err(Error::PayloadError(String::from_str("")));
        },
    };
    let signature_bytes = match hex_decode(signature_hex) {
        Ok(bytes) => bytes,
        Err(e) => {
            return Err(Error::VerificationFailed(VerificationError::ParseError(e)));
        },
    };
    let signature = match SignatureBytes::from_bytes(signature_bytes) {
        Some(sig) => sig,
        None => {
            return Err(Error::VerificationFailed(VerificationError::InvalidSignature));
        },
    };
    let message = concat_bytes(timestamp.as_bytes(), body.as_bytes());
    proof {
        lemma_encode_utf8_concat(timestamp@, body@);
    }
    if key.verify(message.as_slice(), &signature) {
        Ok(())
    } else {
        Err(Error::VerificationFailed(VerificationError::InvalidSignature))
    }
}

} // verus!
