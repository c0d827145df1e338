//! The frame slot: a single-producer/single-consumer overwrite cell.
//!
//! A slot holds at most one pending [`FrameDescriptor`]. A `store` replaces
//! whatever is pending (superseded frames are coalesced, never queued); a
//! `take` removes and returns the pending descriptor, or reports empty.
//! The cell is `atomicbox::AtomicOptionBox`, an atomic pointer swap, so one
//! producer thread and one consumer thread may use it concurrently without
//! locks or blocking.

use vstd::prelude::*;

use crate::frame::FrameDescriptor;

verus! {

/// Declares atomicbox's cell type to the verifier; values of it are opaque
/// and only the wrappers below touch them.
#[verifier::external_type_specification]
#[verifier::external_body]
#[verifier::reject_recursive_types(T)]
pub struct ExAtomicOptionBox<T>(atomicbox::AtomicOptionBox<T>);

/// The descriptor the atomic cell currently holds, if any.
pub uninterp spec fn cell_frame(cell: &atomicbox::AtomicOptionBox<FrameDescriptor>) -> Option<
    FrameDescriptor,
>;

/// What a slot holds after a store: exactly the new descriptor; whatever was
/// pending before is dropped.
pub open spec fn slot_after_store(
    prior: Option<FrameDescriptor>,
    frame: FrameDescriptor,
) -> Option<FrameDescriptor> {
    Some(frame)
}

/// What a take observes: exactly what was pending at the moment of the swap.
pub open spec fn take_observation(prior: Option<FrameDescriptor>) -> Option<FrameDescriptor> {
    prior
}

/// A one-shot frame handoff cell. At most one descriptor is pending at any
/// time; a new store silently supersedes an undrained one.
pub struct FrameSlot {
    pub cell: atomicbox::AtomicOptionBox<FrameDescriptor>,
}

impl FrameSlot {
    /// The descriptor currently pending in this slot, if any.
    pub open spec fn pending(&self) -> Option<FrameDescriptor> {
        cell_frame(&self.cell)
    }

    /// Relies on `atomicbox::AtomicOptionBox::none`: a fresh cell holds a
    /// null pointer, that is, no value.
    #[verifier::external_body]
    pub fn new() -> (slot: FrameSlot)
        ensures
            cell_frame(&slot.cell) == Option::<FrameDescriptor>::None,
    {
        FrameSlot { cell: atomicbox::AtomicOptionBox::none() }
    }

    /// Relies on `atomicbox::AtomicOptionBox::store` with `Ordering::SeqCst`:
    /// one atomic pointer swap that makes the cell hold the new value and
    /// drops whatever it held before; for this ordering it neither blocks nor
    /// panics.
    #[verifier::external_body]
    pub fn store(&mut self, frame: FrameDescriptor)
        ensures
            cell_frame(&final(self).cell) == slot_after_store(cell_frame(&old(self).cell), frame),
    {
        self.cell.store(
            Some(std::boxed::Box::new(frame)),
            std::sync::atomic::Ordering::SeqCst,
        );
    }

    /// Relies on `atomicbox::AtomicOptionBox::take` with `Ordering::SeqCst`:
    /// one atomic swap with null that returns what the cell held and leaves
    /// it empty; on an empty cell it returns `None`, and for this ordering it
    /// neither blocks nor panics.
    #[verifier::external_body]
    pub fn take(&mut self) -> (taken: Option<FrameDescriptor>)
        ensures
            taken == take_observation(cell_frame(&old(self).cell)),
            cell_frame(&final(self).cell) == Option::<FrameDescriptor>::None,
    {
        self.cell.take(std::sync::atomic::Ordering::SeqCst).map(|boxed| *boxed)
    }
}

/// What a slot holds after a whole run of stores, first to last.
pub open spec fn slot_after_stores(
    prior: Option<FrameDescriptor>,
    frames: Seq<FrameDescriptor>,
) -> Option<FrameDescriptor>
    decreases frames.len(),
{
    if frames.len() == 0 {
        prior
    } else {
        slot_after_stores(slot_after_store(prior, frames[0]), frames.drop_first())
    }
}

/// For every sequence of stores with no intervening take, only the most
/// recently stored descriptor is left pending, so it alone is observable by
/// the next take.
pub proof fn lemma_latest_store_wins(prior: Option<FrameDescriptor>, frames: Seq<FrameDescriptor>)
    requires
        frames.len() > 0,
    ensures
        slot_after_stores(prior, frames) == Some(frames.last()),
        take_observation(slot_after_stores(prior, frames)) == Some(frames.last()),
    decreases frames.len(),
{
    if frames.len() == 1 {
        assert(slot_after_stores(prior, frames) == slot_after_stores(
            Some(frames[0]),
            frames.drop_first(),
        ));
    } else {
        lemma_latest_store_wins(Some(frames[0]), frames.drop_first());
        assert(frames.drop_first().last() == frames.last());
    }
}

/// A take on an empty slot observes empty: the observation is exactly the
/// pending contents, and nothing is fabricated.
pub proof fn lemma_take_on_empty_reports_empty(prior: Option<FrameDescriptor>)
    requires
        prior == Option::<FrameDescriptor>::None,
    ensures
        take_observation(prior) == Option::<FrameDescriptor>::None,
{
}

} // verus!
