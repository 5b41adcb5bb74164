//! The chunked response encoder.
//!
//! A result — a serialized signature or an encrypted backup blob — may be
//! larger than one transport frame. It is stored in the session and handed
//! out as a fixed number of chunks: `ceil(len / MAX_CHUNK_SIZE)` of them,
//! the last possibly shorter, and exactly one empty chunk for an empty
//! result, so that the retrieval protocol is always well-defined.

use vstd::prelude::*;
use crate::context::TxContext;
use crate::errors::AppSW;
use crate::BUFFER_CAPACITY;

verus! {

/// Size of one response chunk, imposed by the transport frame.
pub const MAX_CHUNK_SIZE: usize = 250;

/// Number of chunks a payload of `n` bytes yields with chunk size `c`:
/// `ceil(n / c)`, and one (empty) chunk for an empty payload.
pub open spec fn spec_total_chunks(n: int, c: int) -> int {
    if n == 0 {
        1
    } else {
        (n + c - 1) / c
    }
}

/// The bytes of chunk `i`: from `i * c` up to `i * c + c`, clipped to the
/// payload's end.
pub open spec fn spec_chunk(s: Seq<u8>, c: int, i: int) -> Seq<u8> {
    if i * c + c <= s.len() {
        s.subrange(i * c, i * c + c)
    } else {
        s.subrange(i * c, s.len() as int)
    }
}

/// Compute the number of chunks.
pub fn total_chunks(n: usize, c: usize) -> (r: usize)
    requires
        c > 0,
    ensures
        r == spec_total_chunks(n as int, c as int),
{
    if n == 0 {
        1
    } else {
        let r = (n - 1) / c + 1;
        assert((n + c - 1) / (c as int) == (n - 1) / (c as int) + 1) by (nonlinear_arith)
            requires
                n >= 1,
                c >= 1,
        ;
        r
    }
}

/// Store a fully computed result in the session and return how many chunks
/// the transport must subsequently retrieve. Fails with `CapacityError`,
/// leaving the session idle, if the result exceeds the fixed capacity.
pub fn save_result(ctx: &mut TxContext, data: &[u8]) -> (r: Result<u8, AppSW>)
    requires
        old(ctx).wf(),
    ensures
        final(ctx).wf(),
        r is Ok <==> data@.len() <= BUFFER_CAPACITY,
        r is Ok ==> {
            &&& r->Ok_0 == spec_total_chunks(data@.len() as int, MAX_CHUNK_SIZE as int)
            &&& final(ctx).buffer_bytes() == data@
            &&& !final(ctx).spec_done()
            &&& final(ctx).spec_approved() is None
        },
        r is Err ==> {
            &&& r->Err_0 == AppSW::CapacityError
            &&& final(ctx).is_idle()
        },
{
    match ctx.store_response(data) {
        Ok(()) => {
            let total = total_chunks(data.len(), MAX_CHUNK_SIZE);
            assert(total <= 255) by {
                assert((data@.len() + MAX_CHUNK_SIZE - 1) / (MAX_CHUNK_SIZE as int) <= 255)
                    by (nonlinear_arith)
                    requires
                        data@.len() <= BUFFER_CAPACITY,
                        BUFFER_CAPACITY == 4096,
                        MAX_CHUNK_SIZE == 250,
                ;
            }
            Ok(total as u8)
        },
        Err(e) => Err(e),
    }
}

/// Hand out chunk `index` of the stored result.
pub fn get_result_chunk(ctx: &TxContext, index: usize) -> (r: Vec<u8>)
    requires
        ctx.wf(),
        index < spec_total_chunks(ctx.buffer_bytes().len() as int, MAX_CHUNK_SIZE as int),
    ensures
        r@ == spec_chunk(ctx.buffer_bytes(), MAX_CHUNK_SIZE as int, index as int),
{
    let buffer = ctx.payload();
    let n = buffer.len();
    assert(index * MAX_CHUNK_SIZE <= n && index * MAX_CHUNK_SIZE + MAX_CHUNK_SIZE < usize::MAX)
        by (nonlinear_arith)
        requires
            n <= BUFFER_CAPACITY,
            BUFFER_CAPACITY == 4096,
            MAX_CHUNK_SIZE == 250,
            index < spec_total_chunks(n as int, MAX_CHUNK_SIZE as int),
    ;
    let start = index * MAX_CHUNK_SIZE;
    let end = if start + MAX_CHUNK_SIZE <= n {
        start + MAX_CHUNK_SIZE
    } else {
        n
    };
    match buffer.get_slice(start, end) {
        Ok(v) => v,
        Err(_) => {
            // Unreachable: start <= end <= n by the bound above.
            assert(false);
            Vec::new()
        },
    }
}

/// Concatenation of the first `k` chunks.
pub open spec fn concat_chunks(s: Seq<u8>, c: int, k: int) -> Seq<u8>
    decreases k,
{
    if k <= 0 {
        Seq::<u8>::empty()
    } else {
        concat_chunks(s, c, k - 1) + spec_chunk(s, c, k - 1)
    }
}

proof fn lemma_concat_chunks_prefix(s: Seq<u8>, c: int, k: int)
    requires
        c > 0,
        0 <= k,
        (k - 1) * c <= s.len(),
    ensures
        concat_chunks(s, c, k) == s.subrange(0, if k * c <= s.len() { k * c } else { s.len() as int }),
    decreases k,
{
    if k <= 0 {
        assert(concat_chunks(s, c, k) =~= s.subrange(0, 0));
    } else {
        assert((k - 2) * c <= (k - 1) * c) by (nonlinear_arith)
            requires c > 0,
        ;
        lemma_concat_chunks_prefix(s, c, k - 1);
        assert((k - 1) * c == k * c - c) by (nonlinear_arith);
        let stop = if k * c <= s.len() { k * c } else { s.len() as int };
        assert(concat_chunks(s, c, k) =~= s.subrange(0, stop));
    }
}

/// Chunker exactness: a payload of `n` bytes yields `ceil(n / c)` chunks —
/// one empty chunk when `n` is zero — every chunk except the last has
/// exactly `c` bytes, no chunk of a non-empty payload is empty, and the
/// concatenation of all chunks in order is the payload itself.
pub proof fn lemma_chunks_reconstruct(s: Seq<u8>, c: int)
    requires
        c > 0,
    ensures
        concat_chunks(s, c, spec_total_chunks(s.len() as int, c)) == s,
        s.len() == 0 ==> spec_total_chunks(s.len() as int, c) == 1
            && spec_chunk(s, c, 0).len() == 0,
        forall|i: int|
            0 <= i < spec_total_chunks(s.len() as int, c) && s.len() > 0
                ==> #[trigger] spec_chunk(s, c, i).len() > 0,
        forall|i: int|
            0 <= i < spec_total_chunks(s.len() as int, c) - 1
                ==> #[trigger] spec_chunk(s, c, i).len() == c,
{
    let n = s.len() as int;
    let total = spec_total_chunks(n, c);
    if n == 0 {
        reveal_with_fuel(concat_chunks, 3);
        assert(spec_chunk(s, c, 0).len() == 0);
        assert(concat_chunks(s, c, 1) =~= s);
    } else {
        assert((total - 1) * c < n && n <= total * c) by (nonlinear_arith)
            requires
                n > 0,
                c > 0,
                total == (n + c - 1) / c,
        ;
        lemma_concat_chunks_prefix(s, c, total);
        assert(concat_chunks(s, c, total) =~= s);
        assert forall|i: int| 0 <= i < total && s.len() > 0 implies #[trigger] spec_chunk(
            s,
            c,
            i,
        ).len() > 0 by {
            assert(i * c < n) by (nonlinear_arith)
                requires
                    0 <= i < total,
                    (total - 1) * c < n,
                    c > 0,
            ;
        }
        assert forall|i: int| 0 <= i < total - 1 implies #[trigger] spec_chunk(s, c, i).len()
            == c by {
            assert(i * c + c <= n) by (nonlinear_arith)
                requires
                    0 <= i < total - 1,
                    (total - 1) * c < n,
                    n <= total * c,
                    c > 0,
            ;
        }
    }
}

} // verus!
