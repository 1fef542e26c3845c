use akasha::bot::authenticate_request;
use akasha::utils::{Error, HexError, VerificationError};

// RFC 8032, section 7.1, tests 1 and 2.
const KEY_1: &str = "d75a980182b10ab7d54bfed3c964073a0ee172f3daa62325af021a68f707511a";
const SIG_1: &str = "e5564300c360ac729086e2cc806e828a84877f1eb8e5d974d873e065224901555fb8821590a33bacc61e39701cf9b46bd25bf5f0595bbe24655141438e7a100b";
const KEY_2: &str = "3d4017c3e843895a92b70aa74d1b7ebc9c982ccf2ec4968cc0cd55f12af4660c";
const SIG_2: &str = "92a009a9f0d4cab8720e820b5f642540a2b27b5416503f8fb3762223ebdb69da085ac1e43e15996e458f3613d0f11d8c387b2eaeb4302aeeb00d291612bb0c00";

#[test]
fn genuine_requests_pass() {
    assert_eq!(authenticate_request(Some(KEY_1), Some(SIG_1), Some(""), Some("")), Ok(()));
    // The message is the timestamp followed by the body.
    assert_eq!(authenticate_request(Some(KEY_2), Some(SIG_2), Some("r"), Some("")), Ok(()));
    assert_eq!(authenticate_request(Some(KEY_2), Some(SIG_2), Some(""), Some("r")), Ok(()));
    // Upper-case hexadecimal is accepted as well.
    assert_eq!(
        authenticate_request(
            Some(&KEY_2.to_uppercase()),
            Some(&SIG_2.to_uppercase()),
            Some("r"),
            Some("")
        ),
        Ok(())
    );
}

#[test]
fn tampered_requests_fail() {
    let refused = Err(Error::VerificationFailed(VerificationError::InvalidSignature));
    assert_eq!(authenticate_request(Some(KEY_1), Some(SIG_1), Some("1"), Some("")), refused);
    assert_eq!(authenticate_request(Some(KEY_2), Some(SIG_2), Some("r"), Some("r")), refused);
    assert_eq!(authenticate_request(Some(KEY_1), Some(SIG_2), Some("r"), Some("")), refused);
}

#[test]
fn missing_values() {
    assert_eq!(
        authenticate_request(None, Some(SIG_1), Some(""), Some("")),
        Err(Error::EnvironmentVariableNotFound("DISCORD_KEY".to_string()))
    );
    assert_eq!(
        authenticate_request(Some(KEY_1), None, Some(""), Some("")),
        Err(Error::HeaderNotFound("x-signature-ed25519".to_string()))
    );
    assert_eq!(
        authenticate_request(Some(KEY_1), Some(SIG_1), None, Some("")),
        Err(Error::HeaderNotFound("x-signature-timestamp".to_string()))
    );
    assert_eq!(
        authenticate_request(Some(KEY_1), Some(SIG_1), Some(""), None),
        Err(Error::PayloadError("".to_string()))
    );
    // The key is checked before the headers are looked at.
    assert_eq!(
        authenticate_request(Some("abc"), None, None, None),
        Err(Error::VerificationFailed(VerificationError::ParseError(HexError::OddLength)))
    );
}

#[test]
fn malformed_hexadecimal() {
    assert_eq!(
        authenticate_request(Some("zz"), Some(SIG_1), Some(""), Some("")),
        Err(Error::VerificationFailed(VerificationError::ParseError(
            HexError::InvalidHexCharacter { c: 'z', index: 0 }
        )))
    );
    assert_eq!(
        authenticate_request(Some(KEY_1), Some("0g"), Some(""), Some("")),
        Err(Error::VerificationFailed(VerificationError::ParseError(
            HexError::InvalidHexCharacter { c: 'g', index: 1 }
        )))
    );
    assert_eq!(
        authenticate_request(Some(KEY_1), Some("012"), Some(""), Some("")),
        Err(Error::VerificationFailed(VerificationError::ParseError(HexError::OddLength)))
    );
}

#[test]
fn malformed_keys_and_signatures() {
    let refused = Err(Error::VerificationFailed(VerificationError::InvalidSignature));
    // A key of the wrong length.
    assert_eq!(authenticate_request(Some("00"), Some(SIG_1), Some(""), Some("")), refused);
    // A signature of the wrong length.
    assert_eq!(authenticate_request(Some(KEY_1), Some("00"), Some(""), Some("")), refused);
    // A signature whose last byte has a top bit set.
    let mut sig = SIG_1[..126].to_string();
    sig.push_str("ff");
    assert_eq!(authenticate_request(Some(KEY_1), Some(&sig), Some(""), Some("")), refused);
}
