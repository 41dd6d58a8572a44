//! The correspondence path used when refreshing a session: the refresh
//! timestamp, encrypted with the service's public key, written in hex.

use vstd::prelude::*;
use rsa::pkcs8::DecodePublicKey;
use rsa::RsaPublicKey;
use crate::text::push_str;

verus! {

#[verifier::external_type_specification]
#[verifier::external_body]
pub struct ExRsaPublicKey(rsa::RsaPublicKey);

#[verifier::external_type_specification]
#[verifier::external_body]
pub struct ExSpkiError(rsa::pkcs8::spki::Error);

#[verifier::external_type_specification]
#[verifier::external_body]
pub struct ExRsaError(rsa::Error);

/// The service's public key for the correspondence path.
pub const REFRESH_KEY_PEM: &'static str = "-----BEGIN PUBLIC KEY-----
MIGfMA0GCSqGSIb3DQEBAQUAA4GNADCBiQKBgQDLgd2OAkcGVtoE3ThUREbio0Eg
Uc/prcajMKXvkCKFCWhJYJcLkcM2DKKcSeFpD/j6Boy538YXnR6VhcuUJOhH2x71
nzPjfdTcqMz7djHum0qSZA0AyCBDABUqCrfNgCiJ00Ra7GmRj+YCK1NJEuewlb40
JNrRuoEUXpabUzGB8QIDAQAB
-----END PUBLIC KEY-----";

/// Relies on `DecodePublicKey::from_public_key_pem` for `RsaPublicKey`: reads
/// a PEM-encoded public key, or reports why it cannot.
#[verifier::external_body]
fn public_key_from_pem(pem: &str) -> (r: Result<RsaPublicKey, rsa::pkcs8::spki::Error>) {
    <RsaPublicKey as DecodePublicKey>::from_public_key_pem(pem)
}

/// Relies on `RsaPublicKey::encrypt` with OAEP padding over SHA-256 and the
/// thread-local random generator. The ciphertext is random: nothing is
/// promised of it.
#[verifier::external_body]
fn encrypt_oaep_sha256(key: &RsaPublicKey, msg: &[u8]) -> (r: Result<Vec<u8>, rsa::Error>) {
    key.encrypt(&mut rand::thread_rng(), rsa::Oaep::new::<sha2::Sha256>(), msg)
}

/// The lower-case hex digit of a value in `0..16`.
pub open spec fn hex_digit(n: int) -> char {
    if n < 10 {
        crate::text::digit_char(n)
    } else if n == 10 {
        'a'
    } else if n == 11 {
        'b'
    } else if n == 12 {
        'c'
    } else if n == 13 {
        'd'
    } else if n == 14 {
        'e'
    } else {
        'f'
    }
}

/// Two lower-case hex digits per byte, high half first.
pub open spec fn hex_text(b: Seq<u8>) -> Seq<char>
    decreases b.len(),
{
    if b.len() == 0 {
        Seq::empty()
    } else {
        hex_text(b.drop_last()) + seq![hex_digit(b.last() as int / 16), hex_digit(b.last() as int % 16)]
    }
}

/// Relies on `hex::encode`: each byte becomes two lower-case hex digits,
/// high half first, in order.
#[verifier::external_body]
fn hex_encode(b: &[u8]) -> (r: String)
    ensures
        r@ == hex_text(b@),
{
    hex::encode(b)
}

/// Why the correspondence path could not be made.
#[derive(Debug, Clone, Copy, PartialEq, Eq)]
pub enum RefreshError {
    /// The public key could not be read.
    InvalidKey,
    /// The encryption failed.
    Encryption,
}

/// The plain text that is encrypted: `refresh_` and the timestamp.
pub fn refresh_message(timestamp: &str) -> (r: String)
    ensures
        r@ == "refresh_"@ + timestamp@,
{
    let mut m = String::from_str("refresh_");
    push_str(&mut m, timestamp);
    m
}

/// Writes bytes as lower-case hex.
pub fn to_hex(b: &[u8]) -> (r: String)
    ensures
        r@ == hex_text(b@),
{
    hex_encode(b)
}

/// The correspondence path for a refresh timestamp: the hex text of the
/// encrypted refresh message.
pub fn correspond_path(timestamp: &str) -> (r: Result<String, RefreshError>)
    ensures
        r matches Ok(h) ==> exists|c: Seq<u8>| h@ == #[trigger] hex_text(c),
{
    let key = match public_key_from_pem(REFRESH_KEY_PEM) {
        Ok(k) => k,
        Err(_) => {
            return Err(RefreshError::InvalidKey);
        },
    };
    let msg = refresh_message(timestamp);
    match encrypt_oaep_sha256(&key, msg.as_str().as_bytes()) {
        Ok(c) => {
            let h = to_hex(c.as_slice());
            Ok(h)
        },
        Err(_) => Err(RefreshError::Encryption),
    }
}

} // verus!
