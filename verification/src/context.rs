//! Per-ceremony session state: the accumulation buffer, the completion flag,
//! the declared total payload length, and the one-shot approved-hash mailbox
//! that an independent review stage fills and the sign handler consumes with
//! read-and-clear semantics.

use vstd::prelude::*;
use crate::buffer::Buffer;
use crate::errors::AppSW;
use crate::accumulator::{acc_base, acc_target, acc_ok, acc_error};
use crate::{BUFFER_CAPACITY, TX_HASH_LEN};

verus! {

/// Session context of one ceremony. Created once, mutated by every chunk,
/// and reset to a clean idle state whenever a ceremony concludes, so that no
/// residue (partial buffer, stale approved hash) leaks into the next one.
pub struct TxContext {
    pub(crate) buffer: Buffer,
    pub(crate) active: bool,
    pub(crate) done: bool,
    pub(crate) target: usize,
    pub(crate) approved_hash: Option<Vec<u8>>,
}

impl TxContext {
    /// The bytes accumulated so far.
    pub closed spec fn buffer_bytes(self) -> Seq<u8> {
        self.buffer@
    }

    /// Whether a ceremony is in progress: a first chunk has arrived and
    /// established the declared total.
    pub closed spec fn spec_active(self) -> bool {
        self.active
    }

    /// Whether the declared total payload length has been reached.
    pub closed spec fn spec_done(self) -> bool {
        self.done
    }

    /// The total payload length the transport declared for this ceremony.
    pub closed spec fn spec_target(self) -> int {
        self.target as int
    }

    /// The transaction hash the review stage approved, if any.
    pub closed spec fn spec_approved(self) -> Option<Seq<u8>> {
        match self.approved_hash {
            Some(h) => Some(h@),
            None => None,
        }
    }

    /// Structural invariant of the session state.
    pub closed spec fn wf(self) -> bool {
        &&& self.buffer.wf()
        &&& self.target <= BUFFER_CAPACITY
        &&& match self.approved_hash {
            Some(h) => h@.len() == TX_HASH_LEN,
            None => true,
        }
    }

    /// A context in the clean idle state.
    pub open spec fn is_idle(self) -> bool {
        &&& self.buffer_bytes() == Seq::<u8>::empty()
        &&& !self.spec_active()
        &&& !self.spec_done()
        &&& self.spec_target() == 0
        &&& self.spec_approved() is None
    }

    /// A fresh context in the idle state.
    pub fn new() -> (r: TxContext)
        ensures
            r.wf(),
            r.is_idle(),
    {
        TxContext {
            buffer: Buffer::new(),
            active: false,
            done: false,
            target: 0,
            approved_hash: None,
        }
    }

    /// Return the session to the clean idle state. Invoked on every terminal
    /// path of a ceremony, success or failure.
    pub fn reset(&mut self)
        requires
            old(self).wf(),
        ensures
            final(self).wf(),
            final(self).is_idle(),
    {
        self.buffer.reset();
        self.active = false;
        self.done = false;
        self.target = 0;
        self.approved_hash = None;
    }

    /// Whether accumulation is complete.
    pub fn is_done(&self) -> (r: bool)
        ensures
            r == self.spec_done(),
    {
        self.done
    }

    /// Record the transaction hash that the independent review stage has
    /// shown to the user and the user has approved.
    pub fn set_approved_hash(&mut self, hash: &[u8])
        requires
            old(self).wf(),
            hash@.len() == TX_HASH_LEN,
        ensures
            final(self).wf(),
            final(self).spec_approved() == Some(hash@),
            final(self).buffer_bytes() == old(self).buffer_bytes(),
            final(self).spec_active() == old(self).spec_active(),
            final(self).spec_done() == old(self).spec_done(),
            final(self).spec_target() == old(self).spec_target(),
    {
        let h = vstd::slice::slice_to_vec(hash);
        self.approved_hash = Some(h);
    }

    /// Replace the session's buffer content with a fully computed response,
    /// concluding the ceremony: the completion flag, the declared total and
    /// any stale approved hash are cleared. Fails with `CapacityError`,
    /// leaving the session idle, if the response exceeds the fixed capacity.
    pub fn store_response(&mut self, data: &[u8]) -> (r: Result<(), AppSW>)
        requires
            old(self).wf(),
        ensures
            final(self).wf(),
            r is Ok <==> data@.len() <= BUFFER_CAPACITY,
            r is Ok ==> {
                &&& final(self).buffer_bytes() == data@
                &&& !final(self).spec_active()
                &&& !final(self).spec_done()
                &&& final(self).spec_target() == 0
                &&& final(self).spec_approved() is None
            },
            r is Err ==> {
                &&& r->Err_0 == AppSW::CapacityError
                &&& final(self).is_idle()
            },
    {
        self.buffer.reset();
        self.active = false;
        self.done = false;
        self.target = 0;
        self.approved_hash = None;
        match self.buffer.append(data) {
            Ok(()) => Ok(()),
            Err(e) => Err(e),
        }
    }

    /// Borrow the accumulated payload for parsing.
    pub fn payload(&self) -> (r: &Buffer)
        ensures
            r@ == self.buffer_bytes(),
            self.wf() ==> r.wf(),
    {
        &self.buffer
    }
}

/// Append one transport chunk to the session. On success the buffer holds
/// the bytes accumulated so far and `done` is true exactly when the declared
/// total has been reached. On failure the session is reset to idle.
pub fn accumulate_data(ctx: &mut TxContext, chunk: u8, data: &[u8], total_len: usize) -> (r:
    Result<(), AppSW>)
    requires
        old(ctx).wf(),
    ensures
        final(ctx).wf(),
        r is Ok <==> acc_ok(*old(ctx), chunk, data@, total_len),
        r is Ok ==> {
            &&& final(ctx).buffer_bytes() == acc_base(*old(ctx), chunk) + data@
            &&& final(ctx).spec_active()
            &&& final(ctx).spec_target() == acc_target(*old(ctx), chunk, total_len)
            &&& final(ctx).spec_done() <==> acc_base(*old(ctx), chunk).len() + data@.len()
                == acc_target(*old(ctx), chunk, total_len)
            &&& final(ctx).spec_approved() == old(ctx).spec_approved()
        },
        r is Err ==> {
            &&& r->Err_0 == acc_error(*old(ctx), chunk, data@, total_len)
            &&& final(ctx).is_idle()
        },
{
    if chunk == 0 {
        if total_len > BUFFER_CAPACITY {
            ctx.reset();
            return Err(AppSW::CapacityError);
        }
        ctx.buffer.reset();
        ctx.active = true;
        ctx.done = false;
        ctx.target = total_len;
    } else if !ctx.active || ctx.done {
        // Protocol violation: a continuation chunk without an open,
        // unfinished ceremony.
        ctx.reset();
        return Err(AppSW::InvalidPayload);
    }
    let base = ctx.buffer.len();
    if data.len() > BUFFER_CAPACITY - base {
        ctx.reset();
        return Err(AppSW::CapacityError);
    }
    if base + data.len() > ctx.target {
        ctx.reset();
        return Err(AppSW::InvalidPayload);
    }
    let append_result = ctx.buffer.append(data);
    match append_result {
        Ok(()) => {},
        Err(_) => {
            // Unreachable: the capacity check above already admitted the chunk.
            ctx.reset();
            return Err(AppSW::CapacityError);
        },
    }
    ctx.done = ctx.buffer.len() == ctx.target;
    Ok(())
}

/// Consume the approved transaction hash: return it and clear the slot, so
/// that an approval feeds at most one signing attempt.
pub fn get_and_clear_tx_hash(ctx: &mut TxContext) -> (r: Option<Vec<u8>>)
    requires
        old(ctx).wf(),
    ensures
        final(ctx).wf(),
        match old(ctx).spec_approved() {
            Some(h) => r is Some && r->0@ == h,
            None => r is None,
        },
        final(ctx).spec_approved() is None,
        final(ctx).buffer_bytes() == old(ctx).buffer_bytes(),
        final(ctx).spec_active() == old(ctx).spec_active(),
        final(ctx).spec_done() == old(ctx).spec_done(),
        final(ctx).spec_target() == old(ctx).spec_target(),
{
    let r = ctx.approved_hash.take();
    r
}

} // verus!
