//! Invocations of named entry points.
//!
//! A call binds one entry point of a session at creation time, accumulates
//! input buffer views, invokes, and yields output buffer views in FIFO
//! order.  Inputs are only accepted before the invocation and outputs only
//! exist after it; re-invoking an already-invoked call is rejected with a
//! typed error rather than handed to the runtime, whose behaviour for it is
//! undefined.
//!
//! The reference runtime behind this crate evaluates every entry point as
//! the identity mapping: an invocation's outputs are exactly its inputs, in
//! push order.  What a compiled function computes numerically is outside
//! this layer's scope; the contracts here pin down the queueing and
//! sequencing rules.

use vstd::prelude::*;

use crate::err::spec_is_status_error;
use crate::err::IreeError;
use crate::hal_buffer::IreeHalBufferView;
use crate::session::spec_name_bytes;
use crate::session::IreeRuntimeSession;
use crate::status::STATUS_FAILED_PRECONDITION;
use crate::status::STATUS_OUT_OF_RANGE;

verus! {

/// Exclusive owner of one call context, bound to one entry point of one
/// session.  The handle is neither copyable nor clonable; the context is
/// released exactly once, when the handle is dropped.
#[derive(Debug)]
pub struct IreeRuntimeCall {
    entry: Vec<u8>,
    invoked: bool,
    inputs: Vec<IreeHalBufferView>,
    outputs: Vec<IreeHalBufferView>,
}

impl IreeRuntimeCall {
    /// The full name, as bytes, of the entry point this call is bound to.
    pub closed spec fn spec_entry(&self) -> Seq<u8> {
        self.entry@
    }

    /// Whether the call has been invoked.
    pub closed spec fn spec_invoked(&self) -> bool {
        self.invoked
    }

    /// The models of the queued input buffer views, in push order.
    pub closed spec fn spec_inputs(&self) -> Seq<(Seq<usize>, u32, u32, usize)> {
        self.inputs@.map_values(|b: IreeHalBufferView| b@)
    }

    /// The models of the not-yet-popped output buffer views, front first.
    pub closed spec fn spec_outputs(&self) -> Seq<(Seq<usize>, u32, u32, usize)> {
        self.outputs@.map_values(|b: IreeHalBufferView| b@)
    }

    /// Well-formedness: the state machine of a call.  Outputs exist only
    /// after the invocation, and the invocation consumes all queued inputs.
    /// Session lookup establishes this and every method preserves it, so it
    /// holds of every call a caller can reach.
    pub open spec fn spec_wf(&self) -> bool {
        &&& !self.spec_invoked() ==> self.spec_outputs().len() == 0
        &&& self.spec_invoked() ==> self.spec_inputs().len() == 0
    }

    /// Builds a freshly initialized call bound to `entry`; session lookup
    /// validates the name before calling this.
    pub(crate) fn new_initialized(entry: Vec<u8>) -> (r: Self)
        ensures
            r.spec_entry() == entry@,
            !r.spec_invoked(),
            r.spec_inputs() == Seq::<(Seq<usize>, u32, u32, usize)>::empty(),
            r.spec_outputs() == Seq::<(Seq<usize>, u32, u32, usize)>::empty(),
            r.spec_wf(),
    {
        let r = IreeRuntimeCall { entry, invoked: false, inputs: Vec::new(), outputs: Vec::new() };
        proof {
            assert(r.spec_inputs() =~= Seq::<(Seq<usize>, u32, u32, usize)>::empty());
            assert(r.spec_outputs() =~= Seq::<(Seq<usize>, u32, u32, usize)>::empty());
        }
        r
    }

    /// Binds a call to the entry point named `full_name` in `session`.
    /// Succeeds exactly when some appended module exports that full name;
    /// otherwise fails with a typed not-found error and produces no call.
    pub fn initialize_by_name(session: &IreeRuntimeSession, full_name: &String) -> (r: Result<
        Self,
        IreeError,
    >)
        ensures
            r.is_ok() <==> session.spec_exports().contains(spec_name_bytes(full_name@)),
            r matches Ok(call) ==> call.spec_entry() == spec_name_bytes(full_name@)
                && !call.spec_invoked() && call.spec_inputs() == Seq::<
                (Seq<usize>, u32, u32, usize),
            >::empty() && call.spec_outputs() == Seq::<(Seq<usize>, u32, u32, usize)>::empty()
                && call.spec_wf(),
            r matches Err(e) ==> spec_is_status_error(e, crate::status::STATUS_NOT_FOUND),
    {
        session.get_call_by_name(full_name.as_str())
    }

    /// Transfers one buffer view to the back of the call's input queue; the
    /// runtime retains the underlying buffer, so the caller's handle stays
    /// valid.  Pushing onto an already-invoked call is rejected with a typed
    /// failed-precondition error and leaves the call unchanged.
    pub fn inputs_push_back_buffer_view(&mut self, buffer_view: &IreeHalBufferView) -> (r: Result<
        (),
        IreeError,
    >)
        ensures
            old(self).spec_invoked() ==> (*final(self) == *old(self) && (r matches Err(e)
                && spec_is_status_error(e, STATUS_FAILED_PRECONDITION))),
            !old(self).spec_invoked() ==> (r is Ok && final(self).spec_inputs() == old(self).spec_inputs().push(buffer_view@) && final(self).spec_outputs() == old(self).spec_outputs() && final(self).spec_entry() == old(self).spec_entry() && !final(self).spec_invoked()),
            old(self).spec_wf() ==> final(self).spec_wf(),
    {
        if self.invoked {
            Err(crate::err::status_error(STATUS_FAILED_PRECONDITION))
        } else {
            self.inputs.push(buffer_view.retain());
            proof {
                assert(self.spec_inputs() =~= old(self).spec_inputs().push(buffer_view@));
            }
            Ok(())
        }
    }

    /// Executes the bound entry point against all queued inputs, in push
    /// order.  The reference runtime evaluates the entry point as the
    /// identity, so the inputs move to the output queue unchanged and in
    /// order.  Re-invoking an invoked call is rejected with a typed
    /// failed-precondition error and leaves the call unchanged.
    #[allow(unused_variables)]
    pub fn invoke(&mut self, flags: u32) -> (r: Result<(), IreeError>)
        ensures
            old(self).spec_invoked() ==> (*final(self) == *old(self) && (r matches Err(e)
                && spec_is_status_error(e, STATUS_FAILED_PRECONDITION))),
            !old(self).spec_invoked() ==> (r is Ok && final(self).spec_invoked() && final(self).spec_outputs() == old(self).spec_outputs() + old(self).spec_inputs() && final(self).spec_inputs() == Seq::<(Seq<usize>, u32, u32, usize)>::empty() && final(self).spec_entry() == old(self).spec_entry()),
            (old(self).spec_wf() && !old(self).spec_invoked()) ==> final(self).spec_outputs()
                == old(self).spec_inputs(),
            old(self).spec_wf() ==> final(self).spec_wf(),
    {
        if self.invoked {
            Err(crate::err::status_error(STATUS_FAILED_PRECONDITION))
        } else {
            self.outputs.append(&mut self.inputs);
            self.invoked = true;
            proof {
                assert(self.spec_outputs() =~= old(self).spec_outputs() + old(self).spec_inputs());
                assert(self.spec_inputs() =~= Seq::<(Seq<usize>, u32, u32, usize)>::empty());
            }
            Ok(())
        }
    }

    /// Removes and returns the earliest not-yet-popped output.  Popping with
    /// no outputs remaining fails cleanly with a typed out-of-range error
    /// and leaves the call unchanged.
    pub fn outputs_pop_front_buffer_view(&mut self) -> (r: Result<IreeHalBufferView, IreeError>)
        ensures
            old(self).spec_outputs().len() == 0 ==> (*final(self) == *old(self) && (r matches Err(e)
                && spec_is_status_error(e, STATUS_OUT_OF_RANGE))),
            old(self).spec_outputs().len() > 0 ==> (r matches Ok(bv) && bv@ == old(self).spec_outputs()[0] && final(self).spec_outputs() == old(self).spec_outputs().drop_first() && final(self).spec_inputs() == old(self).spec_inputs()
                && final(self).spec_entry() == old(self).spec_entry() && final(self).spec_invoked()
                == old(self).spec_invoked()),
            old(self).spec_wf() ==> final(self).spec_wf(),
    {
        if self.outputs.len() == 0 {
            Err(crate::err::status_error(STATUS_OUT_OF_RANGE))
        } else {
            let bv = self.outputs.remove(0);
            proof {
                assert(self.spec_outputs() =~= old(self).spec_outputs().drop_first());
            }
            Ok(bv)
        }
    }
}

/// The FIFO round-trip law.  A fresh call has an empty output queue, so
/// invoking it yields exactly the pushed inputs as its outputs, in push
/// order (the first clause).  Draining those outputs `vs` by repeated pops
/// then enumerates them in the same order: by the pop contract, the pop
/// after `k` earlier pops returns the front of `vs.skip(k)`, which is the
/// `k`-th pushed view, and leaves `vs.skip(k + 1)`; after `vs.len()` pops
/// nothing remains, so one more pop fails cleanly, again by the pop
/// contract.
pub proof fn lemma_fifo_round_trip(vs: Seq<(Seq<usize>, u32, u32, usize)>, k: int)
    requires
        0 <= k < vs.len(),
    ensures
        Seq::<(Seq<usize>, u32, u32, usize)>::empty() + vs == vs,
        vs.skip(k).first() == vs[k],
        vs.skip(k).drop_first() == vs.skip(k + 1),
        vs.skip(vs.len() as int).len() == 0,
{
    assert(Seq::<(Seq<usize>, u32, u32, usize)>::empty() + vs =~= vs);
    assert(vs.skip(k).drop_first() =~= vs.skip(k + 1));
}

} // verus!
