//! The full signing flow against the real threshold-signature capability:
//! payload round-trip, the hash-approval gate, nonce determinism and the
//! chunk-by-chunk scenario.

use std::collections::BTreeMap;

use dkg_core::context::TxContext;
use dkg_core::errors::AppSW;
use dkg_core::frost::{identity_from_bytes, key_package_from_bytes, Identity, KeyPackage};
use dkg_core::handlers::{finish_signing, handler_dkg_sign, sign_transaction, SignStep};
use dkg_core::chunker::{get_result_chunk, save_result};
use dkg_core::parser::build_payload;

use ironfish_frost::frost::keys::{generate_with_dealer, IdentifierList};
use ironfish_frost::frost::round1::SigningCommitments;
use ironfish_frost::frost::SigningPackage;
use ironfish_frost::nonces::deterministic_signing_nonces;
use ironfish_frost::participant::Secret;

/// Everything one signer needs: raw frost values for building payloads, and
/// the library-side key package and identities for signing.
struct Signer {
    raw_key_package: ironfish_frost::frost::keys::KeyPackage,
    raw_identities: Vec<ironfish_frost::participant::Identity>,
    key_package: KeyPackage,
    identities: Vec<Identity>,
    other_commitments: SigningCommitments,
    other_identifier: ironfish_frost::frost::Identifier,
}

fn setup_signer() -> Signer {
    let mut rng = rand::thread_rng();
    let (shares, _pubkeys) =
        generate_with_dealer(2, 2, IdentifierList::Default, &mut rng).unwrap();
    let mut iter = shares.into_values();
    let share1 = iter.next().unwrap();
    let share2 = iter.next().unwrap();
    let raw_kp1 = ironfish_frost::frost::keys::KeyPackage::try_from(share1).unwrap();
    let raw_kp2 = ironfish_frost::frost::keys::KeyPackage::try_from(share2).unwrap();

    let id1 = Secret::random(&mut rng).to_identity();
    let id2 = Secret::random(&mut rng).to_identity();
    let raw_identities = vec![id1.clone(), id2.clone()];

    // A second participant's commitments, from fresh nonces of their share.
    let (_nonces2, commitments2) =
        ironfish_frost::frost::round1::commit(raw_kp2.signing_share(), &mut rng);

    let key_package = key_package_from_bytes(&raw_kp1.serialize().unwrap()).unwrap();
    let identities = vec![
        identity_from_bytes(&id1.serialize()).unwrap(),
        identity_from_bytes(&id2.serialize()).unwrap(),
    ];

    Signer {
        other_identifier: *raw_kp2.identifier(),
        raw_key_package: raw_kp1,
        raw_identities,
        key_package,
        identities,
        other_commitments: commitments2,
    }
}

/// Serialize a signing package whose commitment for this signer matches the
/// deterministic nonces for `tx_hash`, with the message sized so that the
/// whole wire payload has exactly `payload_len` bytes.
fn package_bytes_for(signer: &Signer, tx_hash: &[u8], payload_len: usize) -> Vec<u8> {
    let nonces = deterministic_signing_nonces(
        signer.raw_key_package.signing_share(),
        tx_hash,
        &signer.raw_identities,
    );
    let own_commitments = SigningCommitments::from(&nonces);
    let mut map = BTreeMap::new();
    map.insert(*signer.raw_key_package.identifier(), own_commitments);
    map.insert(signer.other_identifier, signer.other_commitments);

    // Wire payload: 2 + 32 (randomizer) + 2 + package + 32 (hash).
    let want = payload_len - 68;
    for msg_len in 0..2048usize {
        let message = vec![0xA5u8; msg_len];
        let pkg = SigningPackage::new(map.clone(), &message);
        let bytes = pkg.serialize().unwrap();
        if bytes.len() == want {
            return bytes;
        }
        if bytes.len() > want {
            break;
        }
    }
    panic!("no message length gives a package of {} bytes", want);
}

fn feed_chunks(
    ctx: &mut TxContext,
    payload: &[u8],
    splits: &[usize],
) -> Result<SignStep, AppSW> {
    let mut offset = 0usize;
    let mut last = Err(AppSW::InvalidPayload);
    for (i, len) in splits.iter().enumerate() {
        last = handler_dkg_sign(ctx, i as u8, &payload[offset..offset + len], payload.len());
        offset += len;
        if i < splits.len() - 1 {
            assert!(matches!(last, Ok(SignStep::MoreChunks)));
        }
    }
    last
}

#[test]
fn scenario_chunked_sign_and_flipped_hash() {
    let signer = setup_signer();
    let tx_hash = [0x5Eu8; 32];
    let randomizer_bytes = [0u8; 32];
    let pkg_bytes = package_bytes_for(&signer, &tx_hash, 300);
    let payload = build_payload(&randomizer_bytes, &pkg_bytes, &tx_hash);
    assert_eq!(payload.len(), 300);
    let splits = [64usize, 64, 64, 64, 44];

    // Approved hash equal to the payload's trailing 32 bytes: the fifth
    // chunk completes the payload and yields an approved request.
    let mut ctx = TxContext::new();
    ctx.set_approved_hash(&tx_hash);
    let step = feed_chunks(&mut ctx, &payload, &splits);
    let req = match step {
        Ok(SignStep::Ready(req)) => req,
        _ => panic!("expected an approved request"),
    };
    assert_eq!(req.tx_hash().as_slice(), &tx_hash);

    // Signing succeeds and the serialized share is chunked for transport.
    let signature = sign_transaction(req, &signer.key_package, &signer.identities).unwrap();
    assert_eq!(signature.len(), 32);
    let total = save_result(&mut ctx, &signature).unwrap();
    assert_eq!(total, 1);

    // Flip one byte of the approved hash and repeat the delivery: the
    // gate rejects it, and no approved request is handed out.
    let mut bad_hash = tx_hash;
    bad_hash[0] ^= 1;
    let mut ctx = TxContext::new();
    ctx.set_approved_hash(&bad_hash);
    let step = feed_chunks(&mut ctx, &payload, &splits);
    assert!(matches!(step, Err(AppSW::InvalidTxHash)));
    assert_eq!(ctx.payload().len(), 0);
}

#[test]
fn finish_signing_chunks_the_signature() {
    let signer = setup_signer();
    let tx_hash = [0x5Eu8; 32];
    let pkg_bytes = package_bytes_for(&signer, &tx_hash, 300);
    let payload = build_payload(&[0u8; 32], &pkg_bytes, &tx_hash);

    // Two identical ceremonies: one signs step by step, the other through
    // finish_signing; the chunked response must be the same signature.
    let mut ctx = TxContext::new();
    ctx.set_approved_hash(&tx_hash);
    let req = match handler_dkg_sign(&mut ctx, 0, &payload, payload.len()) {
        Ok(SignStep::Ready(req)) => req,
        _ => panic!("expected an approved request"),
    };
    let signature = sign_transaction(req, &signer.key_package, &signer.identities).unwrap();

    let mut ctx = TxContext::new();
    ctx.set_approved_hash(&tx_hash);
    let req = match handler_dkg_sign(&mut ctx, 0, &payload, payload.len()) {
        Ok(SignStep::Ready(req)) => req,
        _ => panic!("expected an approved request"),
    };
    let total = finish_signing(&mut ctx, req, &signer.key_package, &signer.identities).unwrap();
    assert_eq!(total, 1);
    assert_eq!(get_result_chunk(&ctx, 0), signature);
}

#[test]
fn missing_approval_is_rejected() {
    let signer = setup_signer();
    let tx_hash = [0x11u8; 32];
    let pkg_bytes = package_bytes_for(&signer, &tx_hash, 300);
    let payload = build_payload(&[0u8; 32], &pkg_bytes, &tx_hash);

    let mut ctx = TxContext::new();
    let step = handler_dkg_sign(&mut ctx, 0, &payload, payload.len());
    assert!(matches!(step, Err(AppSW::InvalidTxHash)));
}

#[test]
fn approval_is_consumed_once() {
    let signer = setup_signer();
    let tx_hash = [0x22u8; 32];
    let pkg_bytes = package_bytes_for(&signer, &tx_hash, 300);
    let payload = build_payload(&[0u8; 32], &pkg_bytes, &tx_hash);

    let mut ctx = TxContext::new();
    ctx.set_approved_hash(&tx_hash);
    let step = handler_dkg_sign(&mut ctx, 0, &payload, payload.len());
    assert!(matches!(step, Ok(SignStep::Ready(_))));

    // The approval was read and cleared: a replay of the same payload in
    // the same session finds no approval.
    let step = handler_dkg_sign(&mut ctx, 0, &payload, payload.len());
    assert!(matches!(step, Err(AppSW::InvalidTxHash)));
}

#[test]
fn nonce_determinism_gives_identical_signatures() {
    let signer = setup_signer();
    let tx_hash = [0x33u8; 32];
    let pkg_bytes = package_bytes_for(&signer, &tx_hash, 300);
    let payload = build_payload(&[0u8; 32], &pkg_bytes, &tx_hash);

    let mut signatures = Vec::new();
    for _ in 0..2 {
        let mut ctx = TxContext::new();
        ctx.set_approved_hash(&tx_hash);
        let step = handler_dkg_sign(&mut ctx, 0, &payload, payload.len());
        let req = match step {
            Ok(SignStep::Ready(req)) => req,
            _ => panic!("expected an approved request"),
        };
        signatures.push(
            sign_transaction(req, &signer.key_package, &signer.identities).unwrap(),
        );
    }
    assert_eq!(signatures[0], signatures[1]);

    // A different transaction hash derives different nonces: the
    // commitments of the two derivations differ.
    let other_hash = [0x44u8; 32];
    let n1 = deterministic_signing_nonces(
        signer.raw_key_package.signing_share(),
        &tx_hash,
        &signer.raw_identities,
    );
    let n2 = deterministic_signing_nonces(
        signer.raw_key_package.signing_share(),
        &other_hash,
        &signer.raw_identities,
    );
    assert_ne!(SigningCommitments::from(&n1), SigningCommitments::from(&n2));

    // And the participant order does not influence the derivation.
    let reversed: Vec<_> = signer.raw_identities.iter().rev().cloned().collect();
    let n3 = deterministic_signing_nonces(
        signer.raw_key_package.signing_share(),
        &tx_hash,
        &reversed,
    );
    assert_eq!(SigningCommitments::from(&n1), SigningCommitments::from(&n3));
}

#[test]
fn malformed_randomizer_is_rejected() {
    let signer = setup_signer();
    let tx_hash = [0x55u8; 32];
    let pkg_bytes = package_bytes_for(&signer, &tx_hash, 300);
    // 31 bytes cannot encode a scalar.
    let payload = build_payload(&[0u8; 31], &pkg_bytes, &tx_hash);

    let mut ctx = TxContext::new();
    ctx.set_approved_hash(&tx_hash);
    let step = handler_dkg_sign(&mut ctx, 0, &payload, payload.len());
    assert!(matches!(step, Err(AppSW::InvalidRandomizer)));
}

#[test]
fn malformed_signing_package_is_rejected() {
    let tx_hash = [0x66u8; 32];
    let payload = build_payload(&[0u8; 32], &[0xDEu8; 40], &tx_hash);

    let mut ctx = TxContext::new();
    ctx.set_approved_hash(&tx_hash);
    let step = handler_dkg_sign(&mut ctx, 0, &payload, payload.len());
    assert!(matches!(step, Err(AppSW::InvalidSigningPackage)));
}

#[test]
fn mismatched_commitments_fail_signing() {
    let signer = setup_signer();
    let tx_hash = [0x77u8; 32];

    // A package whose commitment for this signer does not come from the
    // deterministic nonces: the capability rejects the inputs.
    let mut rng = rand::thread_rng();
    let (_n, foreign) =
        ironfish_frost::frost::round1::commit(signer.raw_key_package.signing_share(), &mut rng);
    let mut map = BTreeMap::new();
    map.insert(*signer.raw_key_package.identifier(), foreign);
    map.insert(signer.other_identifier, signer.other_commitments);
    let pkg_bytes = SigningPackage::new(map, b"message").serialize().unwrap();
    let payload = build_payload(&[0u8; 32], &pkg_bytes, &tx_hash);

    let mut ctx = TxContext::new();
    ctx.set_approved_hash(&tx_hash);
    let step = handler_dkg_sign(&mut ctx, 0, &payload, payload.len());
    let req = match step {
        Ok(SignStep::Ready(req)) => req,
        _ => panic!("expected an approved request"),
    };
    let r = finish_signing(&mut ctx, req, &signer.key_package, &signer.identities);
    assert!(matches!(r, Err(AppSW::TxSignFail)));
    // Nothing was chunked and the session is clean.
    assert_eq!(ctx.payload().len(), 0);
    assert!(!ctx.is_done());
}

#[test]
fn corrupt_store_material_is_rejected() {
    assert!(matches!(
        key_package_from_bytes(&[1, 2, 3]),
        Err(AppSW::StoreError)
    ));
    assert!(matches!(identity_from_bytes(&[0u8; 4]), Err(AppSW::StoreError)));
}
