//! The bounds-checked wire-format parser for a reassembled signing payload.
//!
//! Layout, strict and with no padding: a big-endian 16-bit length, that many
//! randomizer bytes, a big-endian 16-bit length, that many signing-package
//! bytes, and exactly `TX_HASH_LEN` bytes of transaction hash. After the
//! hash the payload must end: trailing or missing bytes are rejected, never
//! ignored.

use vstd::prelude::*;
use crate::buffer::{Buffer, u16_be};
use crate::errors::AppSW;
use crate::frost::{
    Randomizer, SigningPackage, deserialize_randomizer, deserialize_signing_package,
    randomizer_of, randomizer_ok, signing_package_of, signing_package_ok,
};
use crate::TX_HASH_LEN;

verus! {

/// Length of the randomizer field, read from the first two bytes.
pub open spec fn rand_len(s: Seq<u8>) -> int {
    u16_be(s, 0)
}

/// The randomizer bytes.
pub open spec fn randomizer_field(s: Seq<u8>) -> Seq<u8> {
    s.subrange(2, 2 + rand_len(s))
}

/// Length of the signing-package field, read from the two bytes after the
/// randomizer.
pub open spec fn pkg_len(s: Seq<u8>) -> int {
    u16_be(s, 2 + rand_len(s))
}

/// The signing-package bytes.
pub open spec fn package_field(s: Seq<u8>) -> Seq<u8> {
    s.subrange(4 + rand_len(s), 4 + rand_len(s) + pkg_len(s))
}

/// Offset of the transaction hash: everything after the two
/// length-prefixed fields.
pub open spec fn hash_start(s: Seq<u8>) -> int {
    4 + rand_len(s) + pkg_len(s)
}

/// The transaction-hash bytes.
pub open spec fn hash_field(s: Seq<u8>) -> Seq<u8> {
    s.subrange(hash_start(s), hash_start(s) + TX_HASH_LEN)
}

/// Whether the payload has exactly the declared layout: both length
/// prefixes in bounds and the hash ending exactly at the payload's end.
pub open spec fn wf_layout(s: Seq<u8>) -> bool {
    &&& 2 <= s.len()
    &&& 2 + rand_len(s) + 2 <= s.len()
    &&& hash_start(s) + TX_HASH_LEN == s.len()
}

/// The error a failed parse reports, following the order in which the
/// parser walks the payload: a bounds violation up to and including the
/// randomizer bytes, then the randomizer's own decoding, then the bounds of
/// the signing package, then its decoding, and last the hash bounds and the
/// trailing-bytes check.
pub open spec fn parse_error(s: Seq<u8>) -> AppSW {
    if s.len() < 2 || 2 + rand_len(s) > s.len() {
        AppSW::InvalidPayload
    } else if !randomizer_ok(randomizer_field(s)) {
        AppSW::InvalidRandomizer
    } else if 4 + rand_len(s) > s.len() || 4 + rand_len(s) + pkg_len(s) > s.len() {
        AppSW::InvalidPayload
    } else if !signing_package_ok(package_field(s)) {
        AppSW::InvalidSigningPackage
    } else {
        AppSW::InvalidPayload
    }
}

/// Whether the payload parses completely: the layout is exact and both
/// opaque fields decode.
pub open spec fn parse_ok(s: Seq<u8>) -> bool {
    &&& wf_layout(s)
    &&& randomizer_ok(randomizer_field(s))
    &&& signing_package_ok(package_field(s))
}

/// Decode the reassembled payload into the signing package, the randomizer
/// and the transaction hash. Reads are bounds-checked at the buffer layer;
/// a payload that leaves bytes unconsumed after the hash is rejected.
pub fn parse_tx(buffer: &Buffer) -> (r: Result<(SigningPackage, Randomizer, Vec<u8>), AppSW>)
    requires
        buffer.wf(),
    ensures
        r is Ok <==> parse_ok(buffer@),
        r is Ok ==> {
            &&& r->Ok_0.0 == signing_package_of(package_field(buffer@))->0
            &&& r->Ok_0.1 == randomizer_of(randomizer_field(buffer@))->0
            &&& r->Ok_0.2@ == hash_field(buffer@)
        },
        r is Err ==> r->Err_0 == parse_error(buffer@),
{
    let ghost s = buffer@;
    let mut tx_pos: usize = 0;

    let pk_randomness_len = match buffer.get_u16(tx_pos) {
        Ok(v) => v,
        Err(e) => { return Err(e); },
    };
    tx_pos = tx_pos + 2;

    let rdata = match buffer.get_slice(tx_pos, tx_pos + pk_randomness_len) {
        Ok(v) => v,
        Err(e) => { return Err(e); },
    };
    assert(rdata@ == randomizer_field(s));
    let randomizer = match deserialize_randomizer(rdata.as_slice()) {
        Ok(v) => v,
        Err(e) => { return Err(e); },
    };
    tx_pos = tx_pos + pk_randomness_len;

    let pkg_field_len = match buffer.get_u16(tx_pos) {
        Ok(v) => v,
        Err(e) => { return Err(e); },
    };
    assert(pkg_field_len == pkg_len(s));
    tx_pos = tx_pos + 2;

    let pdata = match buffer.get_slice(tx_pos, tx_pos + pkg_field_len) {
        Ok(v) => v,
        Err(e) => { return Err(e); },
    };
    assert(pdata@ == package_field(s));
    let frost_signing_package = match deserialize_signing_package(pdata.as_slice()) {
        Ok(v) => v,
        Err(e) => { return Err(e); },
    };
    tx_pos = tx_pos + pkg_field_len;

    let tx_hash = match buffer.get_slice(tx_pos, tx_pos + TX_HASH_LEN) {
        Ok(v) => v,
        Err(e) => { return Err(e); },
    };
    assert(tx_hash@ == hash_field(s));
    tx_pos = tx_pos + TX_HASH_LEN;

    if tx_pos != buffer.len() {
        return Err(AppSW::InvalidPayload);
    }

    Ok((frost_signing_package, randomizer, tx_hash))
}

/// Split the payload into its three raw byte fields without decoding the
/// opaque ones: the layout logic of the parser, usable on its own.
pub fn split_payload(buffer: &Buffer) -> (r: Result<(Vec<u8>, Vec<u8>, Vec<u8>), AppSW>)
    requires
        buffer.wf(),
    ensures
        r is Ok <==> wf_layout(buffer@),
        r is Ok ==> {
            &&& r->Ok_0.0@ == randomizer_field(buffer@)
            &&& r->Ok_0.1@ == package_field(buffer@)
            &&& r->Ok_0.2@ == hash_field(buffer@)
        },
        r is Err ==> r->Err_0 == AppSW::InvalidPayload,
{
    let mut tx_pos: usize = 0;

    let l1 = match buffer.get_u16(tx_pos) {
        Ok(v) => v,
        Err(e) => { return Err(e); },
    };
    tx_pos = tx_pos + 2;
    let rdata = match buffer.get_slice(tx_pos, tx_pos + l1) {
        Ok(v) => v,
        Err(e) => { return Err(e); },
    };
    tx_pos = tx_pos + l1;

    let l2 = match buffer.get_u16(tx_pos) {
        Ok(v) => v,
        Err(e) => { return Err(e); },
    };
    tx_pos = tx_pos + 2;
    let pdata = match buffer.get_slice(tx_pos, tx_pos + l2) {
        Ok(v) => v,
        Err(e) => { return Err(e); },
    };
    tx_pos = tx_pos + l2;

    let hdata = match buffer.get_slice(tx_pos, tx_pos + TX_HASH_LEN) {
        Ok(v) => v,
        Err(e) => { return Err(e); },
    };
    tx_pos = tx_pos + TX_HASH_LEN;

    if tx_pos != buffer.len() {
        return Err(AppSW::InvalidPayload);
    }

    Ok((rdata, pdata, hdata))
}

/// The two-byte big-endian encoding of a length.
pub open spec fn len_be(n: int) -> Seq<u8> {
    seq![((n / 256) as u8), ((n % 256) as u8)]
}

/// The wire encoding of a signing payload: each of the two opaque fields
/// length-prefixed, the transaction hash verbatim at the end.
pub open spec fn encode_payload(r: Seq<u8>, p: Seq<u8>, h: Seq<u8>) -> Seq<u8> {
    len_be(r.len() as int) + r + len_be(p.len() as int) + p + h
}

/// Append a byte string to a vector.
fn push_bytes(out: &mut Vec<u8>, s: &[u8])
    ensures
        final(out)@ == old(out)@ + s@,
{
    let n = s.len();
    let mut i: usize = 0;
    while i < n
        invariant
            i <= n,
            n == s@.len(),
            out@ == old(out)@ + s@.subrange(0, i as int),
        decreases n - i,
    {
        out.push(*vstd::slice::slice_index_get(s, i));
        assert(out@ =~= old(out)@ + s@.subrange(0, i + 1));
        i = i + 1;
    }
    assert(old(out)@ + s@.subrange(0, n as int) =~= old(out)@ + s@);
}

/// Serialize a signing payload in the wire layout that `parse_tx` reads.
pub fn build_payload(rand: &[u8], pkg: &[u8], hash: &[u8]) -> (r: Vec<u8>)
    requires
        rand@.len() < 65536,
        pkg@.len() < 65536,
        hash@.len() == TX_HASH_LEN,
    ensures
        r@ == encode_payload(rand@, pkg@, hash@),
{
    let mut out: Vec<u8> = Vec::new();
    out.push((rand.len() / 256) as u8);
    out.push((rand.len() % 256) as u8);
    assert(out@ =~= len_be(rand@.len() as int));
    push_bytes(&mut out, rand);
    out.push((pkg.len() / 256) as u8);
    out.push((pkg.len() % 256) as u8);
    assert(out@ =~= len_be(rand@.len() as int) + rand@ + len_be(pkg@.len() as int));
    push_bytes(&mut out, pkg);
    push_bytes(&mut out, hash);
    assert(out@ =~= encode_payload(rand@, pkg@, hash@));
    out
}

/// Round-trip: a payload built from any randomizer bytes, signing-package
/// bytes and transaction hash has exactly the declared layout, and the
/// parser's field views recover the three inputs byte-identically.
pub proof fn lemma_round_trip(r: Seq<u8>, p: Seq<u8>, h: Seq<u8>)
    requires
        r.len() < 65536,
        p.len() < 65536,
        h.len() == TX_HASH_LEN,
    ensures
        wf_layout(encode_payload(r, p, h)),
        randomizer_field(encode_payload(r, p, h)) == r,
        package_field(encode_payload(r, p, h)) == p,
        hash_field(encode_payload(r, p, h)) == h,
{
    let s = encode_payload(r, p, h);
    let rl = r.len() as int;
    let pl = p.len() as int;
    assert(s.len() == 4 + rl + pl + h.len());
    assert(rl / 256 < 256 && pl / 256 < 256) by (nonlinear_arith)
        requires
            0 <= rl < 65536,
            0 <= pl < 65536,
    ;
    vstd::arithmetic::div_mod::lemma_fundamental_div_mod(rl, 256);
    vstd::arithmetic::div_mod::lemma_fundamental_div_mod(pl, 256);
    assert(s[0] == ((rl / 256) as u8) && s[1] == ((rl % 256) as u8));
    assert(rand_len(s) == rl);
    assert(randomizer_field(s) =~= r);
    assert(s[2 + rl] == ((pl / 256) as u8) && s[3 + rl] == ((pl % 256) as u8));
    assert(pkg_len(s) == pl);
    assert(package_field(s) =~= p);
    assert(hash_field(s) =~= h);
}

/// Trailing-bytes rejection: appending any extra byte to a payload with the
/// exact declared layout breaks the layout, so the parser reports
/// `InvalidPayload` rather than silently succeeding.
pub proof fn lemma_trailing_byte_rejected(s: Seq<u8>, b: u8)
    requires
        wf_layout(s),
    ensures
        !wf_layout(s.push(b)),
{
    let t = s.push(b);
    assert(t.len() == s.len() + 1);
    assert(t[0] == s[0] && t[1] == s[1]);
    assert(rand_len(t) == rand_len(s));
    assert(t[2 + rand_len(s)] == s[2 + rand_len(s)]);
    assert(t[3 + rand_len(s)] == s[3 + rand_len(s)]);
    assert(pkg_len(t) == pkg_len(s));
}

} // verus!
