//! Key generation, transaction digests, signing and verification. The
//! elliptic-curve work is done by secp256k1 behind byte-level wrappers;
//! everything around those calls is verified.

use vstd::prelude::*;
use crate::hashing::{sha256_digest, sha256_of};
use crate::hexstr::{hex_bytes_of, hex_decode, hex_encode, hex_text_of, hex_text_ok};
use crate::transaction::{canonical_text_of, SignedTransaction, Transaction};

verus! {

/// Why signing was refused.
#[derive(Clone, Copy, Debug, PartialEq, Eq, Structural)]
pub enum KeyError {
    /// The private-key text is not well-formed hex.
    MalformedKeyText,
    /// The key bytes are no valid secp256k1 secret key.
    InvalidSecretKey,
}

/// Whether secp256k1 accepts these bytes as a secret key: what
/// SecretKey::from_byte_array returns on a 32-byte array (and false for
/// any other length).
pub uninterp spec fn secret_key_valid(sk: Seq<u8>) -> bool;

/// The compressed public-key encoding derived from a secret key: what
/// PublicKey::from_secret_key followed by serialize returns.
pub uninterp spec fn public_key_of(sk: Seq<u8>) -> Seq<u8>;

/// The compact encoding of the ECDSA signature over a 32-byte digest.
/// secp256k1 signs with an RFC 6979 nonce, so the signature is a function
/// of the digest and the secret key alone.
pub uninterp spec fn signature_of(digest: Seq<u8>, sk: Seq<u8>) -> Seq<u8>;

/// Whether ECDSA verification accepts a compact-encoded signature over a
/// 32-byte digest under a compressed public-key encoding: what
/// secp256k1::ecdsa::verify returns, and false where the key or signature
/// bytes do not parse at all.
pub uninterp spec fn signature_verifies(digest: Seq<u8>, sig: Seq<u8>, pk: Seq<u8>) -> bool;

/// The digest that is signed for a transaction: SHA-256 of its canonical
/// `sender|receiver|amount` text.
pub open spec fn transaction_digest_of(t: Transaction) -> Seq<u8> {
    sha256_of(canonical_text_of(t))
}

/// Relies on secp256k1::generate_keypair: a fresh random secret key, valid
/// by construction, with the compressed 33-byte encoding of its public key
/// (the docs name it a convenience for SecretKey::new and
/// PublicKey::from_secret_key).
#[verifier::external_body]
pub fn generate_keypair() -> (r: (Vec<u8>, Vec<u8>))
    ensures
        r.0@.len() == 32,
        secret_key_valid(r.0@),
        r.1@ == public_key_of(r.0@),
        r.1@.len() == 33,
{
    let (sk, pk) = secp256k1::generate_keypair(&mut secp256k1::rand::rng());
    (sk.secret_bytes().to_vec(), pk.serialize().to_vec())
}

/// Relies on SecretKey::from_byte_array (rejects bytes that are no valid
/// key) and secp256k1::ecdsa::sign (RFC 6979, so deterministic; its
/// doctest shows the signature verifying under the matching public key).
#[verifier::external_body]
fn secp_sign(digest: &Vec<u8>, sk: &Vec<u8>) -> (r: Option<Vec<u8>>)
    requires
        digest@.len() == 32,
    ensures
        r is Some <==> secret_key_valid(sk@),
        r is Some ==> r.unwrap()@ == signature_of(digest@, sk@),
        r is Some ==> r.unwrap()@.len() == 64,
        r is Some ==> signature_verifies(digest@, signature_of(digest@, sk@), public_key_of(sk@)),
{
    let sk_arr: [u8; 32] = match sk.as_slice().try_into() {
        Ok(a) => a,
        Err(_) => return None,
    };
    let secret = match secp256k1::SecretKey::from_byte_array(sk_arr) {
        Ok(k) => k,
        Err(_) => return None,
    };
    let digest_arr: [u8; 32] = digest.as_slice().try_into().expect("digest is 32 bytes");
    let msg = secp256k1::Message::from_digest(digest_arr);
    let sig = secp256k1::ecdsa::sign(msg, &secret);
    Some(sig.serialize_compact().to_vec())
}

/// Relies on PublicKey::from_slice, ecdsa::Signature::from_compact and
/// secp256k1::ecdsa::verify; false where the encodings do not parse.
#[verifier::external_body]
fn secp_verify(digest: &Vec<u8>, sig: &Vec<u8>, pk: &Vec<u8>) -> (r: bool)
    requires
        digest@.len() == 32,
    ensures
        r == signature_verifies(digest@, sig@, pk@),
{
    let public = match secp256k1::PublicKey::from_slice(pk.as_slice()) {
        Ok(k) => k,
        Err(_) => return false,
    };
    let signature = match secp256k1::ecdsa::Signature::from_compact(sig.as_slice()) {
        Ok(s) => s,
        Err(_) => return false,
    };
    let digest_arr: [u8; 32] = digest.as_slice().try_into().expect("digest is 32 bytes");
    let msg = secp256k1::Message::from_digest(digest_arr);
    secp256k1::ecdsa::verify(&signature, msg, &public).is_ok()
}

/// The 32-byte digest that stands for a transaction's content when it is
/// signed: the hash of the canonical text, never of any positional data.
pub fn hash_transaction(tx: &Transaction) -> (r: Vec<u8>)
    ensures
        r@ == transaction_digest_of(*tx),
        r@.len() == 32,
{
    let text = tx.canonical_text();
    sha256_digest(text.as_str())
}

/// Signs a transaction's digest. Succeeds exactly on valid secret keys,
/// and the signature it returns verifies under the matching public key.
pub fn sign_transaction(tx: &Transaction, secret_key: &Vec<u8>) -> (r: Result<Vec<u8>, KeyError>)
    ensures
        r is Ok <==> secret_key_valid(secret_key@),
        r is Ok ==> r.unwrap()@ == signature_of(transaction_digest_of(*tx), secret_key@),
        r is Ok ==> signature_verifies(
            transaction_digest_of(*tx),
            r.unwrap()@,
            public_key_of(secret_key@),
        ),
        r is Err ==> r.unwrap_err() == KeyError::InvalidSecretKey,
{
    let digest = hash_transaction(tx);
    match secp_sign(&digest, secret_key) {
        Some(sig) => Ok(sig),
        None => Err(KeyError::InvalidSecretKey),
    }
}

/// Recomputes the transaction's digest and checks the signature against it
/// and the public key. A pure predicate: false on any mismatch, including
/// a transaction altered after signing or a signature by another key.
pub fn verify_transaction_signature(
    tx: &Transaction,
    signature: &Vec<u8>,
    public_key: &Vec<u8>,
) -> (r: bool)
    ensures
        r == signature_verifies(transaction_digest_of(*tx), signature@, public_key@),
{
    let digest = hash_transaction(tx);
    secp_verify(&digest, signature, public_key)
}

/// Signs with a hex-encoded private key and hands the signature back
/// hex-encoded, as the signing interface carries both on the wire.
pub fn sign_transaction_encoded(tx: &Transaction, private_key: &str) -> (r: Result<
    String,
    KeyError,
>)
    ensures
        r is Ok <==> hex_text_ok(private_key@) && secret_key_valid(hex_bytes_of(private_key@)),
        r is Ok ==> r.unwrap()@ == hex_text_of(
            signature_of(transaction_digest_of(*tx), hex_bytes_of(private_key@)),
        ),
        r is Ok ==> hex_text_ok(r.unwrap()@) && hex_bytes_of(r.unwrap()@) == signature_of(
            transaction_digest_of(*tx),
            hex_bytes_of(private_key@),
        ),
        r is Err ==> r.unwrap_err() == (if hex_text_ok(private_key@) {
            KeyError::InvalidSecretKey
        } else {
            KeyError::MalformedKeyText
        }),
{
    let sk = match hex_decode(private_key) {
        Some(b) => b,
        None => {
            return Err(KeyError::MalformedKeyText);
        },
    };
    match sign_transaction(tx, &sk) {
        Ok(sig) => {
            let text = hex_encode(&sig);
            proof {
                crate::hexstr::lemma_hex_roundtrip(sig@);
            }
            Ok(text)
        },
        Err(e) => Err(e),
    }
}

/// Whether a signed transaction is admissible: its key and signature texts
/// are well-formed hex and the decoded signature verifies against the
/// transaction's digest and the decoded public key.
pub open spec fn signed_transaction_valid(stx: SignedTransaction) -> bool {
    &&& hex_text_ok(stx.public_key@)
    &&& hex_text_ok(stx.signature@)
    &&& signature_verifies(
        transaction_digest_of(stx.transaction),
        hex_bytes_of(stx.signature@),
        hex_bytes_of(stx.public_key@),
    )
}

/// Decodes the hex texts of a signed transaction and verifies it. False,
/// never an error, on malformed text or a failing signature.
pub fn verify_signed_transaction(stx: &SignedTransaction) -> (r: bool)
    ensures
        r == signed_transaction_valid(*stx),
{
    let pk = match hex_decode(stx.public_key.as_str()) {
        Some(b) => b,
        None => {
            return false;
        },
    };
    let sig = match hex_decode(stx.signature.as_str()) {
        Some(b) => b,
        None => {
            return false;
        },
    };
    verify_transaction_signature(&stx.transaction, &sig, &pk)
}

} // verus!
