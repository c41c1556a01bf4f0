//! The COSE key of another crate, and what this library reads of it.

use coset::iana::EnumI64;
use coset::{CborSerializable, CoseKey, CoseKeyBuilder, KeyType, Label};
use ed25519_dalek::SigningKey;
use rand_core::{OsRng, RngCore};
use vstd::prelude::*;

verus! {

#[verifier::external_type_specification]
#[verifier::external_body]
pub struct ExCoseKey(coset::CoseKey);

#[verifier::external_type_specification]
#[verifier::external_body]
pub struct ExAlgorithm(coset::iana::Algorithm);

/// The parameters of a COSE key beyond the common ones, in order: of each
/// its label if the label is a number, and its value if the value is a
/// byte string.
pub uninterp spec fn cose_params(key: coset::CoseKey) -> Seq<(Option<int>, Option<Seq<u8>>)>;

/// The registered number of a COSE key's type; none for a type that is
/// given as text.
pub uninterp spec fn cose_kty(key: coset::CoseKey) -> Option<int>;

/// The identifier of a COSE key.
pub uninterp spec fn cose_key_id(key: coset::CoseKey) -> Seq<u8>;

/// The CBOR encoding of a COSE key; none for a key that has none, such as
/// one with a label that occurs twice.
pub uninterp spec fn cose_encoding(key: coset::CoseKey) -> Option<Seq<u8>>;

/// Whether some bytes are the CBOR encoding of a COSE key.
pub uninterp spec fn is_cose_key(data: Seq<u8>) -> bool;

/// The Ed25519 public key that belongs to a secret key of 32 bytes.
pub uninterp spec fn ed25519_public(secret: Seq<u8>) -> Seq<u8>;

/// How many pairs the field `params` of `coset::CoseKey` holds.
#[verifier::external_body]
pub(crate) fn param_count(key: &CoseKey) -> (r: usize)
    ensures
        r == cose_params(*key).len(),
{
    key.params.len()
}

/// One pair of the field `params` of `coset::CoseKey`, turned into plain
/// values: the number of a `Label::Int`, and a copy of the bytes that
/// `ciborium::Value::as_bytes` gives.
#[verifier::external_body]
pub(crate) fn param_at(key: &CoseKey, i: usize) -> (r: (Option<i64>, Option<Vec<u8>>))
    requires
        i < cose_params(*key).len(),
    ensures
        cose_params(*key)[i as int] == (
            match r.0 {
                Some(l) => Some(l as int),
                None => None,
            },
            match r.1 {
                Some(b) => Some(b@),
                None => None,
            },
        ),
{
    let (label, value) = &key.params[i];
    let number = match label {
        Label::Int(n) => Some(*n),
        Label::Text(_) => None,
    };
    (number, value.as_bytes().cloned())
}

/// The field `kty` of `coset::CoseKey`: the number that `to_i64` gives for
/// a registered key type.
#[verifier::external_body]
pub(crate) fn kty_of(key: &CoseKey) -> (r: Option<i64>)
    ensures
        cose_kty(*key) == match r {
            Some(t) => Some(t as int),
            None => None,
        },
{
    match &key.kty {
        KeyType::Assigned(t) => Some(t.to_i64()),
        KeyType::Text(_) => None,
    }
}

/// A copy of the field `key_id` of `coset::CoseKey`.
#[verifier::external_body]
pub(crate) fn key_id_of(key: &CoseKey) -> (r: Vec<u8>)
    ensures
        r@ == cose_key_id(*key),
{
    key.key_id.clone()
}

/// `CoseKeyBuilder::new_symmetric_key` with `algorithm` and `key_id`: a
/// key of the symmetric type (4) whose one parameter is the secret under
/// the label K (-1).
#[verifier::external_body]
pub(crate) fn symmetric_key(secret: &[u8; 32], alg: coset::iana::Algorithm, kid: &[u8]) -> (r:
    CoseKey)
    ensures
        cose_kty(r) == Some(4int),
        cose_params(r) == seq![(Some(-1int), Some(secret@))],
        cose_key_id(r) == kid@,
{
    CoseKeyBuilder::new_symmetric_key(secret.to_vec()).algorithm(alg).key_id(kid.to_vec()).build()
}

/// `CoseKeyBuilder::new_okp_key` with the algorithm EdDSA, the curve
/// Ed25519 under the label Crv (-1) and one byte string under `label`: a
/// key of the octet key pair type (1) with these two parameters. The
/// builder's `param` stops the process on the labels 0 to 5, which the
/// registry of common key parameters holds.
#[verifier::external_body]
pub(crate) fn okp_key(label: i64, bytes: &[u8; 32], kid: &[u8]) -> (r: CoseKey)
    requires
        label < 0 || label > 5,
    ensures
        cose_kty(r) == Some(1int),
        cose_params(r) == seq![(Some(-1int), None), (Some(label as int), Some(bytes@))],
        cose_key_id(r) == kid@,
{
    CoseKeyBuilder::new_okp_key().algorithm(coset::iana::Algorithm::EdDSA).param(
        coset::iana::OkpKeyParameter::Crv.to_i64(),
        ciborium::Value::from(coset::iana::EllipticCurve::Ed25519.to_i64()),
    ).param(label, ciborium::Value::Bytes(bytes.to_vec())).key_id(kid.to_vec()).build()
}

/// `SigningKey::from_bytes` and `verifying_key` of the crate
/// `ed25519_dalek`: the public key of a secret key.
#[verifier::external_body]
pub(crate) fn ed25519_public_of(secret: &[u8; 32]) -> (r: [u8; 32])
    ensures
        r@ == ed25519_public(secret@),
{
    SigningKey::from_bytes(secret).verifying_key().to_bytes()
}

/// `OsRng::try_fill_bytes` of the crate `rand_core`: 32 bytes from the
/// operating system, or nothing where it has none to give. Nothing is
/// claimed of the bytes.
#[verifier::external_body]
pub(crate) fn random_secret() -> Option<[u8; 32]> {
    let mut key = [0u8; 32];
    match OsRng.try_fill_bytes(&mut key) {
        Ok(()) => Some(key),
        Err(_) => None,
    }
}

/// `CborSerializable::from_slice` for `coset::CoseKey`: the key that some
/// bytes encode, or nothing where they encode none.
#[verifier::external_body]
pub(crate) fn cose_key_from(data: &[u8]) -> (r: Option<CoseKey>)
    ensures
        r is Some <==> is_cose_key(data@),
{
    CoseKey::from_slice(data).ok()
}

/// `CborSerializable::to_vec` for `coset::CoseKey`: the CBOR encoding of
/// the key, or nothing where the crate reports an error, as it does for a
/// label that occurs twice.
#[verifier::external_body]
pub(crate) fn cose_key_bytes(key: CoseKey) -> (r: Option<Vec<u8>>)
    ensures
        match cose_encoding(key) {
            Some(b) => r is Some && r->0@ == b,
            None => r is None,
        },
{
    key.to_vec().ok()
}

/// `Clone::clone` for `coset::CoseKey`: a key with the same type,
/// identifier and parameters.
#[verifier::external_body]
pub(crate) fn cose_key_copy(key: &CoseKey) -> (r: CoseKey)
    ensures
        cose_kty(r) == cose_kty(*key),
        cose_params(r) == cose_params(*key),
        cose_key_id(r) == cose_key_id(*key),
{
    key.clone()
}

} // verus!
