//! Resource states and transition barriers.
//!
//! A frame buffer is either presentable or a render target; the two states
//! are mutually exclusive and every change between them is an explicit
//! transition barrier recorded into the command list.  A `BarrierDesc` names
//! the ring slot whose buffer changes state and the pair of states it moves
//! between.

use vstd::prelude::*;
use core::ops::Range;

verus! {

/// Usage state of a frame buffer.
#[derive(Clone, Copy, PartialEq, Eq, Structural, Debug)]
pub enum ResourceStates {
    /// The buffer may be handed to the presentation surface.
    Present,
    /// The buffer is the target of draw and clear commands.
    RenderTarget,
}

/// Placement flags of a barrier; a plain barrier carries none.
#[derive(Clone, Copy, PartialEq, Eq, Structural, Debug)]
pub struct BarrierFlags {
    pub bits: u32,
}

impl BarrierFlags {
    /// No placement flag: the barrier both begins and ends the transition.
    pub fn none() -> (r: BarrierFlags)
        ensures
            r.bits == 0,
    {
        BarrierFlags { bits: 0 }
    }

    /// The barrier only begins the transition.
    pub fn begin_only() -> (r: BarrierFlags)
        ensures
            r.bits == 1,
    {
        BarrierFlags { bits: 1 }
    }

    /// The barrier only ends a transition begun earlier.
    pub fn end_only() -> (r: BarrierFlags)
        ensures
            r.bits == 2,
    {
        BarrierFlags { bits: 2 }
    }
}

/// One state transition of one ring slot's frame buffer.
pub struct BarrierDesc {
    pub index: usize,
    pub flags: BarrierFlags,
    pub states: Range<ResourceStates>,
}

impl BarrierDesc {
    /// A plain transition barrier for the buffer of ring slot `index`.
    pub fn new(index: usize, states: Range<ResourceStates>) -> (r: BarrierDesc)
        ensures
            r.index == index,
            r.flags.bits == 0,
            r.states.start == states.start,
            r.states.end == states.end,
    {
        BarrierDesc { index, flags: BarrierFlags::none(), states }
    }
}

/// Usage state of an attachment, the abstract counterpart of
/// [`ResourceStates`].
#[derive(Clone, Copy, PartialEq, Eq, Hash, Structural, Debug)]
pub enum AttachmentMode {
    /// The attachment may be handed to the presentation surface.
    Present,
    /// The attachment is the target of draw and clear commands.
    RenderTarget,
}

/// A render-pass attachment and the pair of states it moves between.
pub struct Attachment {
    pub states: Range<AttachmentMode>,
}

/// Whether a barrier stands before or after the draw commands of a pass.
#[derive(Clone, Copy, PartialEq, Eq, Structural, Debug)]
pub enum BarrierPoint {
    /// Before the pass: entering the render-target state.
    Pre,
    /// After the pass: back to the presentable state.
    Post,
}

} // verus!
