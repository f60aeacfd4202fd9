//! Key material parsing and ed25519 signing of relay messages.

use ed25519_dalek::Signer;
use crate::word::copy_bytes;
use vstd::prelude::*;

verus! {

/// Value of one hexadecimal digit, either case.
pub open spec fn hex_digit_value(c: char) -> Option<u8> {
    if '0' <= c && c <= '9' {
        Some((c as u32 - '0' as u32) as u8)
    } else if 'a' <= c && c <= 'f' {
        Some((c as u32 - 'a' as u32 + 10) as u8)
    } else if 'A' <= c && c <= 'F' {
        Some((c as u32 - 'A' as u32 + 10) as u8)
    } else {
        None
    }
}

/// The bytes that a hexadecimal text spells, two digits per byte, high digit
/// first; `None` for an odd number of characters or a non-hex character.
pub open spec fn hex_bytes(s: Seq<char>) -> Option<Seq<u8>>
    decreases s.len(),
{
    if s.len() == 0 {
        Some(Seq::<u8>::empty())
    } else if s.len() == 1 {
        None
    } else {
        match (hex_digit_value(s[0]), hex_digit_value(s[1]), hex_bytes(s.skip(2))) {
            (Some(hi), Some(lo), Some(rest)) => Some(seq![(hi * 16 + lo) as u8] + rest),
            _ => None,
        }
    }
}

/// The ed25519 signature (RFC 8032) that a 32-byte secret key gives a message.
pub uninterp spec fn ed25519_signature(secret: Seq<u8>, message: Seq<u8>) -> Seq<u8>;

/// Relies on `hex::decode` (hex 0.4): it accepts an even number of hex
/// digits of either case and yields one byte per pair, high digit first.
#[verifier::external_body]
fn decode_hex(text: &str) -> (r: Option<Vec<u8>>)
    ensures
        match r {
            Some(v) => hex_bytes(text@) == Some(v@),
            None => hex_bytes(text@) is None,
        },
{
    hex::decode(text).ok()
}

/// Relies on `ed25519_dalek::SigningKey::from_bytes` and its `Signer::sign`,
/// which cannot fail for a 32-byte secret and return a 64-byte signature that
/// depends on the key and the message alone.
#[verifier::external_body]
fn ed25519_sign(secret: &[u8; 32], message: &[u8]) -> (r: [u8; 64])
    ensures
        r@ == ed25519_signature(secret@, message@),
{
    ed25519_dalek::SigningKey::from_bytes(secret).sign(message).to_bytes()
}

/// Why a batch could not be signed. Key material problems are never transient.
#[derive(Debug, Clone, Copy, PartialEq, Eq, Structural)]
pub enum SigningError {
    /// The key text is not an even number of hex digits.
    KeyNotHex,
    /// The key text decodes to a number of bytes other than 32.
    KeyLength,
}

/// What a hex key text decodes to when it spells exactly 32 bytes.
pub open spec fn key_bytes(text: Seq<char>) -> Result<Seq<u8>, SigningError> {
    match hex_bytes(text) {
        None => Err(SigningError::KeyNotHex),
        Some(b) => if b.len() == 32 {
            Ok(b)
        } else {
            Err(SigningError::KeyLength)
        },
    }
}

/// Reads a 32-byte key from its hex text.
fn key_from_hex(text: &str) -> (r: Result<[u8; 32], SigningError>)
    ensures
        match (r, key_bytes(text@)) {
            (Ok(k), Ok(b)) => k@ == b,
            (Err(e), Err(f)) => e == f,
            _ => false,
        },
{
    match decode_hex(text) {
        None => Err(SigningError::KeyNotHex),
        Some(v) => {
            if v.len() != 32 {
                return Err(SigningError::KeyLength);
            }
            let key: [u8; 32] = copy_bytes(v.as_slice(), 0);
            assert(v@.subrange(0, 32) =~= v@);
            Ok(key)
        },
    }
}

/// The signature that `sign_message` produces for a key text and a message.
pub open spec fn signed_by(private_key_hex: Seq<char>, message: Seq<u8>) -> Result<
    Seq<u8>,
    SigningError,
> {
    match key_bytes(private_key_hex) {
        Ok(k) => Ok(ed25519_signature(k, message)),
        Err(e) => Err(e),
    }
}

/// Signs `message_bytes` with the ed25519 secret key given as 64 hex digits.
pub fn sign_message(private_key_hex: &str, message_bytes: &[u8]) -> (r: Result<
    Vec<u8>,
    SigningError,
>)
    ensures
        match (r, signed_by(private_key_hex@, message_bytes@)) {
            (Ok(s), Ok(t)) => s@ == t,
            (Err(e), Err(f)) => e == f,
            _ => false,
        },
{
    let key = match key_from_hex(private_key_hex) {
        Ok(k) => k,
        Err(e) => return Err(e),
    };
    let signature = ed25519_sign(&key, message_bytes);
    let mut out: Vec<u8> = Vec::new();
    let mut i: usize = 0;
    while i < 64
        invariant
            i <= 64,
            out@ == signature@.subrange(0, i as int),
        decreases 64 - i,
    {
        out.push(signature[i]);
        i = i + 1;
    }
    assert(out@ =~= signature@);
    Ok(out)
}

/// Reads the 32-byte public identity that accompanies a signature.
pub fn parse_signer_identity(public_key_hex: &str) -> (r: Result<[u8; 32], SigningError>)
    ensures
        match (r, key_bytes(public_key_hex@)) {
            (Ok(k), Ok(b)) => k@ == b,
            (Err(e), Err(f)) => e == f,
            _ => false,
        },
{
    key_from_hex(public_key_hex)
}

} // verus!
