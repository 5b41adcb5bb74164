//! The two user-facing operations.
//!
//! The sign handler drives one transport round-trip: it accumulates the
//! incoming chunk, and once the payload is complete it parses it and passes
//! the hash-approval gate. Only a payload whose parsed transaction hash is
//! byte-equal to the independently approved one yields an
//! [`ApprovedRequest`] — the sole path to the threshold-signing capability.
//! The backup handler releases an already computed ciphertext only on
//! explicit user approval.
//!
//! The store and the confirmation UI are the caller's collaborators: the
//! caller loads key material as bytes and answers the confirmation prompt,
//! and hands the results to these functions as plain values.

use vstd::prelude::*;
use crate::accumulator::{acc_base, acc_error, acc_ok, acc_target, accumulate_data};
use crate::chunker::{save_result, spec_total_chunks, MAX_CHUNK_SIZE};
use crate::context::{get_and_clear_tx_hash, TxContext};
use crate::errors::AppSW;
use crate::frost::{
    derive_nonces, nonces_of, randomizer_of, round2_sign, serialize_signature_share,
    sig_bytes_of, sign_result_of, signing_package_of, Identity, KeyPackage, Randomizer,
    SigningNonces, SigningPackage,
};
use crate::parser::{hash_field, package_field, parse_error, parse_ok, parse_tx, randomizer_field};
use crate::BUFFER_CAPACITY;

verus! {

/// A signing request that has passed every check: complete payload, exact
/// layout, decodable fields, and a parsed transaction hash byte-equal to
/// the independently approved one. Its fields are private: the only way to
/// obtain one is through [`handler_dkg_sign`], so the signing capability is
/// never reached for an unapproved transaction.
pub struct ApprovedRequest {
    package: SigningPackage,
    randomizer: Randomizer,
    tx_hash: Vec<u8>,
}

impl ApprovedRequest {
    /// The transaction hash the request was approved for.
    pub closed spec fn spec_tx_hash(self) -> Seq<u8> {
        self.tx_hash@
    }

    /// The signing package the request carries.
    pub closed spec fn spec_package(self) -> SigningPackage {
        self.package
    }

    /// The randomizer the request carries.
    pub closed spec fn spec_randomizer(self) -> Randomizer {
        self.randomizer
    }

    /// The partial signature the threshold capability yields for this
    /// request with the given key material, if it accepts the inputs.
    pub open spec fn spec_sign_result(
        self,
        key_package: KeyPackage,
        identities: Seq<Identity>,
    ) -> Option<crate::frost::SignatureShare> {
        sign_result_of(
            self.spec_package(),
            nonces_of(key_package, self.spec_tx_hash(), identities.to_set()),
            key_package,
            self.spec_randomizer(),
        )
    }

    /// The transaction hash the request was approved for.
    pub fn tx_hash(&self) -> (r: &Vec<u8>)
        ensures
            r@ == self.spec_tx_hash(),
    {
        &self.tx_hash
    }
}

/// Outcome of one sign-handler round-trip that did not fail.
pub enum SignStep {
    /// The payload is not complete yet: no output, await the next chunk.
    MoreChunks,
    /// The payload is complete, parsed and approved: ready to sign.
    Ready(ApprovedRequest),
}

/// Compare two byte strings.
fn bytes_equal(a: &[u8], b: &[u8]) -> (r: bool)
    ensures
        r == (a@ == b@),
{
    if a.len() != b.len() {
        assert(a@ != b@);
        return false;
    }
    let n = a.len();
    let mut i: usize = 0;
    while i < n
        invariant
            i <= n,
            n == a@.len() == b@.len(),
            a@.subrange(0, i as int) == b@.subrange(0, i as int),
        decreases n - i,
    {
        if *vstd::slice::slice_index_get(a, i) != *vstd::slice::slice_index_get(b, i) {
            assert(a@[i as int] != b@[i as int]);
            return false;
        }
        assert(a@.subrange(0, i + 1) =~= b@.subrange(0, i + 1));
        i = i + 1;
    }
    assert(a@.subrange(0, n as int) =~= a@);
    assert(b@.subrange(0, n as int) =~= b@);
    true
}

/// Process one chunk of a signing command.
///
/// The chunk is accumulated; while the declared total has not been reached
/// the handler returns [`SignStep::MoreChunks`] and awaits re-entry. On the
/// last chunk the payload is parsed and the approval gate runs: the
/// approved hash is consumed (read-and-clear), and only if it exists and is
/// byte-equal to the parsed hash does the handler return
/// [`SignStep::Ready`]. Every terminal path — success or failure — leaves
/// the session idle.
pub fn handler_dkg_sign(ctx: &mut TxContext, chunk: u8, data: &[u8], total_len: usize) -> (r:
    Result<SignStep, AppSW>)
    requires
        old(ctx).wf(),
    ensures
        final(ctx).wf(),
        !acc_ok(*old(ctx), chunk, data@, total_len) ==> {
            &&& r == Err::<SignStep, AppSW>(acc_error(*old(ctx), chunk, data@, total_len))
            &&& final(ctx).is_idle()
        },
        (acc_ok(*old(ctx), chunk, data@, total_len) && acc_base(*old(ctx), chunk).len()
            + data@.len() != acc_target(*old(ctx), chunk, total_len)) ==> {
            &&& r == Ok::<SignStep, AppSW>(SignStep::MoreChunks)
            &&& final(ctx).buffer_bytes() == acc_base(*old(ctx), chunk) + data@
            &&& final(ctx).spec_active()
            &&& final(ctx).spec_target() == acc_target(*old(ctx), chunk, total_len)
            &&& !final(ctx).spec_done()
            &&& final(ctx).spec_approved() == old(ctx).spec_approved()
        },
        (acc_ok(*old(ctx), chunk, data@, total_len) && acc_base(*old(ctx), chunk).len()
            + data@.len() == acc_target(*old(ctx), chunk, total_len)) ==> {
            let s = acc_base(*old(ctx), chunk) + data@;
            &&& final(ctx).is_idle()
            &&& (!parse_ok(s) ==> r == Err::<SignStep, AppSW>(parse_error(s)))
            &&& (parse_ok(s) && !(old(ctx).spec_approved() == Some(hash_field(s))) ==> r
                == Err::<SignStep, AppSW>(AppSW::InvalidTxHash))
            &&& (parse_ok(s) && old(ctx).spec_approved() == Some(hash_field(s)) ==> {
                &&& r is Ok
                &&& r->Ok_0 is Ready
                &&& r->Ok_0->Ready_0.spec_tx_hash() == hash_field(s)
                &&& r->Ok_0->Ready_0.spec_package() == signing_package_of(package_field(s))->0
                &&& r->Ok_0->Ready_0.spec_randomizer() == randomizer_of(randomizer_field(s))->0
            })
        },
{
    match accumulate_data(ctx, chunk, data, total_len) {
        Ok(()) => {},
        Err(e) => {
            return Err(e);
        },
    }
    if !ctx.is_done() {
        return Ok(SignStep::MoreChunks);
    }

    let parsed = parse_tx(ctx.payload());
    let (package, randomizer, tx_hash) = match parsed {
        Ok(t) => t,
        Err(e) => {
            ctx.reset();
            return Err(e);
        },
    };

    // The transaction must have been reviewed and approved beforehand: the
    // approved hash must exist and match the hash the payload carries.
    let approved = match get_and_clear_tx_hash(ctx) {
        Some(h) => h,
        None => {
            ctx.reset();
            return Err(AppSW::InvalidTxHash);
        },
    };
    if !bytes_equal(approved.as_slice(), tx_hash.as_slice()) {
        ctx.reset();
        return Err(AppSW::InvalidTxHash);
    }

    ctx.reset();
    Ok(SignStep::Ready(ApprovedRequest { package, randomizer, tx_hash }))
}

/// Derive the signing nonces for this request: a pure function of the
/// secret share held in the key package, the transaction hash, and the set
/// of participant identities — no randomness, no state, so a retry of the
/// same signing attempt reuses the same nonces and never pairs one nonce
/// with two different messages, and a permuted or duplicated identity list
/// derives the same nonces as the set it denotes.
pub fn generate_nonces(
    key_package: &KeyPackage,
    tx_hash: &[u8],
    identities: &Vec<Identity>,
) -> (r: SigningNonces)
    ensures
        r == nonces_of(*key_package, tx_hash@, identities@.to_set()),
{
    derive_nonces(key_package, tx_hash, identities)
}

/// Perform the threshold partial signature for an approved request and
/// return the serialized signature share: succeeds exactly when the
/// capability accepts the request's package and randomizer with the nonces
/// derived for its hash, and then returns that signature's serialization;
/// fails only with `TxSignFail`.
pub fn sign_transaction(
    req: ApprovedRequest,
    key_package: &KeyPackage,
    identities: &Vec<Identity>,
) -> (r: Result<Vec<u8>, AppSW>)
    ensures
        r is Ok <==> req.spec_sign_result(*key_package, identities@) is Some,
        r is Ok ==> r->Ok_0@ == sig_bytes_of(req.spec_sign_result(*key_package, identities@)->0),
        r is Ok ==> r->Ok_0@.len() == 32,
        r is Err ==> r->Err_0 == AppSW::TxSignFail,
{
    let nonces = generate_nonces(key_package, req.tx_hash.as_slice(), identities);
    let share = match round2_sign(&req.package, &nonces, key_package, req.randomizer) {
        Ok(s) => s,
        Err(e) => {
            return Err(e);
        },
    };
    Ok(serialize_signature_share(&share))
}

/// Conclude a signing ceremony: sign the approved request and hand the
/// serialized signature to the response chunker, returning how many chunks
/// the transport must retrieve. A rejection by the signing capability
/// yields `TxSignFail` with nothing chunked and the session reset to idle.
pub fn finish_signing(
    ctx: &mut TxContext,
    req: ApprovedRequest,
    key_package: &KeyPackage,
    identities: &Vec<Identity>,
) -> (r: Result<u8, AppSW>)
    requires
        old(ctx).wf(),
    ensures
        final(ctx).wf(),
        r is Ok <==> req.spec_sign_result(*key_package, identities@) is Some,
        r is Ok ==> {
            let sig = sig_bytes_of(req.spec_sign_result(*key_package, identities@)->0);
            &&& final(ctx).buffer_bytes() == sig
            &&& r->Ok_0 == spec_total_chunks(sig.len() as int, MAX_CHUNK_SIZE as int)
            &&& r->Ok_0 == 1
        },
        r is Err ==> {
            &&& r->Err_0 == AppSW::TxSignFail
            &&& final(ctx).is_idle()
        },
{
    let signature = match sign_transaction(req, key_package, identities) {
        Ok(sig) => sig,
        Err(e) => {
            ctx.reset();
            return Err(e);
        },
    };
    match save_result(ctx, signature.as_slice()) {
        Ok(total) => Ok(total),
        Err(_) => {
            // Unreachable: a 32-byte signature always fits the buffer.
            assert(false);
            Err(AppSW::CapacityError)
        },
    }
}

/// Release an already computed backup ciphertext, gated on the user's
/// explicit confirmation: on denial nothing reaches the response chunker
/// and the session is left idle; on approval the ciphertext is stored and
/// the number of response chunks is returned.
pub fn handler_dkg_backup_keys(ctx: &mut TxContext, ciphertext: &[u8], confirmed: bool) -> (r:
    Result<u8, AppSW>)
    requires
        old(ctx).wf(),
    ensures
        final(ctx).wf(),
        !confirmed ==> {
            &&& r == Err::<u8, AppSW>(AppSW::Deny)
            &&& final(ctx).is_idle()
        },
        confirmed && ciphertext@.len() <= BUFFER_CAPACITY ==> {
            &&& r is Ok
            &&& r->Ok_0 == spec_total_chunks(ciphertext@.len() as int, MAX_CHUNK_SIZE as int)
            &&& final(ctx).buffer_bytes() == ciphertext@
        },
        confirmed && ciphertext@.len() > BUFFER_CAPACITY ==> {
            &&& r == Err::<u8, AppSW>(AppSW::CapacityError)
            &&& final(ctx).is_idle()
        },
{
    if !confirmed {
        ctx.reset();
        return Err(AppSW::Deny);
    }
    save_result(ctx, ciphertext)
}

} // verus!
