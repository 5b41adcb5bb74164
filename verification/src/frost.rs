//! The boundary to the threshold-signature capability.
//!
//! The cryptographic primitives — deserialization of the randomizer and the
//! signing package, deterministic nonce derivation, the round-two partial
//! signature and its serialization — are consumed from `ironfish_frost` as
//! opaque capabilities. Each value of the capability is carried in an opaque
//! holder type of the library, and each outside call stands behind one
//! trusted wrapper whose contract states only what the crate's source shows.

use vstd::prelude::*;
use crate::errors::AppSW;

verus! {

/// Opaque holder for `ironfish_frost::frost::Randomizer`.
#[verifier::external_body]
pub struct Randomizer {
    inner: ironfish_frost::frost::Randomizer,
}

/// Opaque holder for `ironfish_frost::frost::SigningPackage`.
#[verifier::external_body]
pub struct SigningPackage {
    inner: ironfish_frost::frost::SigningPackage,
}

/// Opaque holder for `ironfish_frost::frost::keys::KeyPackage`.
#[verifier::external_body]
pub struct KeyPackage {
    inner: ironfish_frost::frost::keys::KeyPackage,
}

/// Opaque holder for `ironfish_frost::frost::round1::SigningNonces`.
#[verifier::external_body]
pub struct SigningNonces {
    inner: ironfish_frost::frost::round1::SigningNonces,
}

/// Opaque holder for `ironfish_frost::frost::round2::SignatureShare`.
#[verifier::external_body]
pub struct SignatureShare {
    inner: ironfish_frost::frost::round2::SignatureShare,
}

/// Opaque holder for `ironfish_frost::participant::Identity`.
#[verifier::external_body]
pub struct Identity {
    inner: ironfish_frost::participant::Identity,
}

/// The randomizer a byte sequence decodes to, if any: the abstract result
/// of `Randomizer::deserialize`, a function of the bytes alone.
pub uninterp spec fn randomizer_of(s: Seq<u8>) -> Option<Randomizer>;

/// The signing package a byte sequence decodes to, if any: the abstract
/// result of `SigningPackage::deserialize`, a function of the bytes alone.
pub uninterp spec fn signing_package_of(s: Seq<u8>) -> Option<SigningPackage>;

/// The key package a byte sequence decodes to, if any: the abstract result
/// of `KeyPackage::deserialize`, a function of the bytes alone.
pub uninterp spec fn key_package_of(s: Seq<u8>) -> Option<KeyPackage>;

/// The participant identity a byte sequence decodes to, if any: the
/// abstract result of `Identity::deserialize_from`, a function of the bytes
/// alone.
pub uninterp spec fn identity_of(s: Seq<u8>) -> Option<Identity>;

/// The nonces that deterministic derivation yields for a key package, a
/// transaction hash and a set of participants. The outside source sorts and
/// deduplicates the serialized identities before seeding the derivation, so
/// the result depends on the participant set, not the list: the name takes
/// the set.
pub uninterp spec fn nonces_of(
    key_package: KeyPackage,
    tx_hash: Seq<u8>,
    identities: Set<Identity>,
) -> SigningNonces;

/// The partial signature that the round-two signing capability yields for
/// these exact inputs, if it accepts them: the abstract result of
/// `round2::sign`, a deterministic function of its arguments.
pub uninterp spec fn sign_result_of(
    pkg: SigningPackage,
    nonces: SigningNonces,
    key_package: KeyPackage,
    randomizer: Randomizer,
) -> Option<SignatureShare>;

/// The canonical serialization of a signature share, a function of the
/// share alone.
pub uninterp spec fn sig_bytes_of(share: SignatureShare) -> Seq<u8>;

/// Whether a byte sequence deserializes as a randomizer.
pub open spec fn randomizer_ok(s: Seq<u8>) -> bool {
    randomizer_of(s) is Some
}

/// Whether a byte sequence deserializes as a signing package.
pub open spec fn signing_package_ok(s: Seq<u8>) -> bool {
    signing_package_of(s) is Some
}

/// Relies on `ironfish_frost::frost::Randomizer::deserialize`: decoding a
/// scalar from bytes, a deterministic function of the bytes.
#[verifier::external_body]
pub(crate) fn deserialize_randomizer(data: &[u8]) -> (r: Result<Randomizer, AppSW>)
    ensures
        r is Ok <==> randomizer_of(data@) is Some,
        r is Ok ==> r->Ok_0 == randomizer_of(data@)->0,
        r is Err ==> r->Err_0 == AppSW::InvalidRandomizer,
{
    match ironfish_frost::frost::Randomizer::deserialize(data) {
        Ok(v) => Ok(Randomizer { inner: v }),
        Err(_) => Err(AppSW::InvalidRandomizer),
    }
}

/// Relies on `ironfish_frost::frost::SigningPackage::deserialize`: decoding
/// the commitments and message, a deterministic function of the bytes.
#[verifier::external_body]
pub(crate) fn deserialize_signing_package(data: &[u8]) -> (r: Result<SigningPackage, AppSW>)
    ensures
        r is Ok <==> signing_package_of(data@) is Some,
        r is Ok ==> r->Ok_0 == signing_package_of(data@)->0,
        r is Err ==> r->Err_0 == AppSW::InvalidSigningPackage,
{
    match ironfish_frost::frost::SigningPackage::deserialize(data) {
        Ok(v) => Ok(SigningPackage { inner: v }),
        Err(_) => Err(AppSW::InvalidSigningPackage),
    }
}

/// Relies on `ironfish_frost::frost::keys::KeyPackage::deserialize`: decodes
/// the key material that the secure store holds as bytes. Corrupt bytes are
/// a store error.
#[verifier::external_body]
pub fn key_package_from_bytes(data: &[u8]) -> (r: Result<KeyPackage, AppSW>)
    ensures
        r is Ok <==> key_package_of(data@) is Some,
        r is Ok ==> r->Ok_0 == key_package_of(data@)->0,
        r is Err ==> r->Err_0 == AppSW::StoreError,
{
    match ironfish_frost::frost::keys::KeyPackage::deserialize(data) {
        Ok(v) => Ok(KeyPackage { inner: v }),
        Err(_) => Err(AppSW::StoreError),
    }
}

/// Relies on `ironfish_frost::participant::Identity::deserialize_from`:
/// decodes one stored participant identity. Corrupt bytes are a store error.
#[verifier::external_body]
pub fn identity_from_bytes(data: &[u8]) -> (r: Result<Identity, AppSW>)
    ensures
        r is Ok <==> identity_of(data@) is Some,
        r is Ok ==> r->Ok_0 == identity_of(data@)->0,
        r is Err ==> r->Err_0 == AppSW::StoreError,
{
    match ironfish_frost::participant::Identity::deserialize_from(data) {
        Ok(v) => Ok(Identity { inner: v }),
        Err(_) => Err(AppSW::StoreError),
    }
}

/// Relies on `ironfish_frost::nonces::deterministic_signing_nonces`,
/// documented to derive the nonces as a pure function of the secret share,
/// the transaction hash and the set of participants (order-normalized), with
/// no randomness and no state; the secret share is picked out of the key
/// package with its `signing_share` getter.
#[verifier::external_body]
pub(crate) fn derive_nonces(
    key_package: &KeyPackage,
    tx_hash: &[u8],
    identities: &Vec<Identity>,
) -> (r: SigningNonces)
    ensures
        r == nonces_of(*key_package, tx_hash@, identities@.to_set()),
{
    let ids: std::vec::Vec<ironfish_frost::participant::Identity> = identities.iter().map(
        |i: &Identity| i.inner.clone(),
    ).collect();
    let nonces = ironfish_frost::nonces::deterministic_signing_nonces(
        key_package.inner.signing_share(),
        tx_hash,
        ids.as_slice(),
    );
    SigningNonces { inner: nonces }
}

/// Relies on `ironfish_frost::frost::round2::sign`: computes the partial
/// signature, or rejects inputs whose commitments do not line up.
#[verifier::external_body]
pub(crate) fn round2_sign(
    pkg: &SigningPackage,
    nonces: &SigningNonces,
    key_package: &KeyPackage,
    randomizer: Randomizer,
) -> (r: Result<SignatureShare, AppSW>)
    ensures
        r is Ok <==> sign_result_of(*pkg, *nonces, *key_package, randomizer) is Some,
        r is Ok ==> r->Ok_0 == sign_result_of(*pkg, *nonces, *key_package, randomizer)->0,
        r is Err ==> r->Err_0 == AppSW::TxSignFail,
{
    match ironfish_frost::frost::round2::sign(
        &pkg.inner,
        &nonces.inner,
        &key_package.inner,
        randomizer.inner,
    ) {
        Ok(s) => Ok(SignatureShare { inner: s }),
        Err(_) => Err(AppSW::TxSignFail),
    }
}

/// Relies on `SignatureShare::serialize`: the canonical 32-byte encoding of
/// the share's scalar.
#[verifier::external_body]
pub(crate) fn serialize_signature_share(share: &SignatureShare) -> (r: Vec<u8>)
    ensures
        r@ == sig_bytes_of(*share),
        r@.len() == 32,
{
    share.inner.serialize()
}

} // verus!
