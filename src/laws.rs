//! Properties that hold of every unwinder state the public methods can reach.
//! Each method preserves `Unwinder::wf`, and `Unwinder::new` establishes it.
use crate::cortexm::{clear_thumb, hard_fault_at};
use crate::unwind::{Outcome, Phase, RawFrame, Unwinder};
use vstd::prelude::*;

verus! {

/// Every emitted subroutine frame has its Thumb bit cleared.
pub proof fn lemma_subroutine_pcs_cleared(u: &Unwinder)
    requires
        u.wf(),
    ensures
        forall|i: int|
            0 <= i < u.frames().len() && (#[trigger] u.frames()[i]) is Subroutine ==> u.frames()[i]->pc
                & 1u32 == 0,
{
    assert forall|i: int|
        0 <= i < u.frames().len() && (#[trigger] u.frames()[i]) is Subroutine implies u.frames()[i]->pc
            & 1u32 == 0 by {
        match u.frames()[i] {
            RawFrame::Subroutine { pc } => {},
            RawFrame::Exception => {},
        }
    }
}

/// Once unwinding has finished, at least the frame the core halted in was emitted,
/// and it comes first: the halted PC with its Thumb bit cleared.
pub proof fn lemma_finished_has_frames(u: &Unwinder)
    requires
        u.wf(),
        u.phase is Finished,
    ensures
        u.frames().len() >= 1,
        u.frames()[0] == (RawFrame::Subroutine { pc: clear_thumb(u.initial_pc) }),
{
}

/// A fault outcome is only reported when the core halted in the HardFault handler.
pub proof fn lemma_fault_only_in_handler(u: &Unwinder)
    requires
        u.wf(),
        u.output.outcome is HardFault || u.output.outcome is StackOverflow,
    ensures
        hard_fault_at(u.initial_pc, u.vector_table),
{
}

/// A stack overflow is only reported when the halted SP lies outside `[start, end]`
/// of the known stack region.
pub proof fn lemma_overflow_outside_ram(u: &Unwinder)
    requires
        u.wf(),
        u.output.outcome is StackOverflow,
    ensures
        u.ram.is_some(),
        !(u.ram.unwrap().start <= u.initial_sp && u.initial_sp <= u.ram.unwrap().end),
{
}

/// An exception marker is followed by a subroutine frame, or is the last frame of
/// a finished unwind that is flagged as corrupted.
pub proof fn lemma_exception_followed(u: &Unwinder)
    requires
        u.wf(),
    ensures
        forall|i: int|
            0 <= i < u.frames().len() - 1 && (#[trigger] u.frames()[i]) is Exception ==> u.frames()[i
                + 1] is Subroutine,
        u.phase is Finished && u.frames().len() > 0 && u.frames().last() is Exception ==> u.output.corrupted,
{
}

/// An unwind that is not flagged as corrupted ended cleanly: it is finished, holds
/// no error, and its last frame is a subroutine.
pub proof fn lemma_clean_end(u: &Unwinder)
    requires
        u.wf(),
        !u.output.corrupted,
    ensures
        u.phase is Finished,
        u.output.processing_error.is_none(),
        u.frames().len() > 0 && u.frames().last() is Subroutine,
{
}

} // verus!
