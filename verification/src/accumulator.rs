//! Chunked reassembly of a command payload.
//!
//! The transport delivers a payload as strictly sequential chunks and
//! declares the total length out of band. The first chunk of a ceremony
//! carries ordinal `0` and resets the accumulation state; every chunk is
//! appended at the current length; the completion flag flips exactly when
//! the accumulated length reaches the declared total — never early, never
//! late. Any failure resets the session to idle.

use vstd::prelude::*;
use crate::context::TxContext;
use crate::errors::AppSW;
use crate::BUFFER_CAPACITY;

pub use crate::context::accumulate_data;

verus! {

/// The bytes already present when a chunk with ordinal `chunk` arrives: a
/// first chunk starts from an empty buffer, every later one appends.
pub open spec fn acc_base(prev: TxContext, chunk: u8) -> Seq<u8> {
    if chunk == 0 {
        Seq::<u8>::empty()
    } else {
        prev.buffer_bytes()
    }
}

/// The declared total in force after a chunk with ordinal `chunk` arrives:
/// the first chunk establishes it, later ones inherit it.
pub open spec fn acc_target(prev: TxContext, chunk: u8, total_len: usize) -> int {
    if chunk == 0 {
        total_len as int
    } else {
        prev.spec_target()
    }
}

/// Whether accepting the chunk keeps the accumulation well-bounded: the
/// declared total fits the fixed buffer and the accumulated bytes do not run
/// past it.
pub open spec fn acc_ok(prev: TxContext, chunk: u8, data: Seq<u8>, total_len: usize) -> bool {
    &&& chunk != 0 ==> prev.spec_active() && !prev.spec_done()
    &&& acc_target(prev, chunk, total_len) <= BUFFER_CAPACITY
    &&& acc_base(prev, chunk).len() + data.len() <= acc_target(prev, chunk, total_len)
}

/// The error reported when a chunk is rejected: a continuation chunk
/// without an open, unfinished ceremony is an invalid payload; a declared
/// total or an accumulated length beyond the fixed capacity is a capacity
/// error; bytes running past a well-bounded declared total are an invalid
/// payload.
pub open spec fn acc_error(prev: TxContext, chunk: u8, data: Seq<u8>, total_len: usize) -> AppSW {
    if chunk != 0 && (!prev.spec_active() || prev.spec_done()) {
        AppSW::InvalidPayload
    } else if acc_target(prev, chunk, total_len) > BUFFER_CAPACITY
        || acc_base(prev, chunk).len() + data.len() > BUFFER_CAPACITY {
        AppSW::CapacityError
    } else {
        AppSW::InvalidPayload
    }
}

/// Partial sum of the first `k` chunk sizes.
pub open spec fn accumulated(sizes: Seq<int>, k: int) -> int
    decreases k,
{
    if k <= 0 {
        0
    } else {
        accumulated(sizes, k - 1) + sizes[k - 1]
    }
}

proof fn lemma_accumulated_monotone(sizes: Seq<int>, j: int, k: int)
    requires
        forall|i: int| 0 <= i < sizes.len() ==> sizes[i] > 0,
        0 <= j <= k <= sizes.len(),
    ensures
        accumulated(sizes, j) <= accumulated(sizes, k),
        j < k ==> accumulated(sizes, j) < accumulated(sizes, k),
    decreases k - j,
{
    if j < k {
        lemma_accumulated_monotone(sizes, j, k - 1);
    }
}

/// Accumulation completeness: deliver a payload as any sequence of non-empty
/// chunks whose sizes sum to the declared total, and the accumulated length
/// reaches the total exactly after the last chunk — never before, and never
/// on more than that one boundary. Together with the contract of
/// `accumulate_data`, whose completion flag is exactly "accumulated length
/// equals declared total", the flag flips exactly once, on the last chunk.
pub proof fn lemma_accumulation_completeness(sizes: Seq<int>, total: int)
    requires
        sizes.len() > 0,
        forall|i: int| 0 <= i < sizes.len() ==> sizes[i] > 0,
        accumulated(sizes, sizes.len() as int) == total,
    ensures
        forall|k: int|
            0 < k <= sizes.len() ==> (accumulated(sizes, k) == total <==> k == sizes.len()),
{
    assert forall|k: int| 0 < k <= sizes.len() implies (accumulated(sizes, k) == total <==> k
        == sizes.len()) by {
        if k < sizes.len() {
            lemma_accumulated_monotone(sizes, k, sizes.len() as int);
        }
    }
}

} // verus!
