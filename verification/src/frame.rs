//! The frame ring and fence tracker state machine.
//!
//! One CPU thread drives the loop: record into the current ring slot, submit,
//! present, signal the fence, move to the slot the surface hands out next,
//! and wait for that slot's previous work before touching it again.  The
//! `FrameLoop` struct owns all of that state; its methods are the transitions
//! of the per-frame cycle `Idle -> Recording -> Submitted -> Presented ->
//! Idle` and of the resize protocol.  The GPU's progress is read from a
//! [`Fence`](crate::fence::Fence), which the embedding program advances.

use vstd::prelude::*;

use crate::barrier::{BarrierDesc, ResourceStates};
use crate::error::Error;
use crate::fence::Fence;

verus! {

/// Where the driving loop stands within one frame's cycle.
#[derive(Clone, Copy, PartialEq, Eq, Structural, Debug)]
pub enum FramePhase {
    /// Between frames; the current slot may still have work in flight.
    Idle,
    /// The slot's recorder has been reset and commands are being recorded.
    Recording,
    /// The command list is closed and handed to the submission queue.
    Submitted,
    /// The frame was handed to the presentation surface.
    Presented,
}

/// The slot the surface hands out after `i`, cycling through `n` slots.
pub open spec fn ring_next(i: int, n: int) -> int {
    if i + 1 == n {
        0
    } else {
        i + 1
    }
}

/// All synchronization state of the frame loop.
pub struct FrameLoop {
    /// Number of ring slots, N.
    pub buffer_count: usize,
    /// Width of the presentation surface, at least 1.
    pub width: u32,
    /// Height of the presentation surface, at least 1.
    pub height: u32,
    /// The slot the CPU is recording into (or about to).
    pub current_index: usize,
    /// The slot the presentation surface will hand out next.
    pub surface_index: usize,
    /// The last fence value submitted to the queue.
    pub fence_value: u64,
    /// For each slot, the fence value submitted for its last frame.
    pub frame_fence_values: Vec<u64>,
    /// Position within the per-frame cycle.
    pub phase: FramePhase,
    /// Whether the current slot's buffer is in the render-target state.
    pub target_open: bool,
    /// Whether the ring's frame buffers exist.
    pub buffers_live: bool,
    /// Whether work was submitted to the queue after the last fence signal.
    pub unfenced: bool,
}

impl FrameLoop {
    /// Well-formedness: indices stay inside the ring, the table covers every
    /// slot, and no recorded slot value exceeds the last submitted one.
    pub open spec fn wf(&self) -> bool {
        &&& 2 <= self.buffer_count
        &&& 1 <= self.width
        &&& 1 <= self.height
        &&& self.current_index < self.buffer_count
        &&& self.surface_index < self.buffer_count
        &&& self.frame_fence_values.len() == self.buffer_count
        &&& forall|i: int|
            0 <= i < self.frame_fence_values.len() ==> self.frame_fence_values[i]
                <= self.fence_value
        &&& self.target_open ==> self.phase is Recording
        &&& !self.buffers_live ==> self.phase is Idle
    }

    /// The fence value recorded for the slot about to be reused.
    pub open spec fn slot_fence(&self) -> u64 {
        self.frame_fence_values[self.current_index as int]
    }

    /// No submitted work is outstanding: everything handed to the queue was
    /// covered by a fence signal and the fence has completed all of it.
    pub open spec fn drained(&self, fence: Fence) -> bool {
        !self.unfenced && fence.completed >= self.fence_value
    }

    /// A fresh loop over `buffer_count` slots and a `width` by `height`
    /// surface: slot 0 is current, the fence starts at zero and every table
    /// entry is zero.
    pub fn new(buffer_count: usize, width: u32, height: u32) -> (fl: FrameLoop)
        requires
            2 <= buffer_count,
            1 <= width,
            1 <= height,
        ensures
            fl.wf(),
            fl.buffer_count == buffer_count,
            fl.width == width,
            fl.height == height,
            fl.current_index == 0,
            fl.surface_index == 0,
            fl.fence_value == 0,
            fl.frame_fence_values@ == Seq::new(buffer_count as nat, |i: int| 0u64),
            fl.phase is Idle,
            !fl.target_open,
            fl.buffers_live,
            !fl.unfenced,
    {
        let mut table: Vec<u64> = Vec::new();
        let mut i: usize = 0;
        while i < buffer_count
            invariant
                i <= buffer_count,
                table@ == Seq::new(i as nat, |j: int| 0u64),
            decreases buffer_count - i,
        {
            table.push(0);
            proof {
                assert(table@ =~= Seq::new((i + 1) as nat, |j: int| 0u64));
            }
            i = i + 1;
        }
        FrameLoop {
            buffer_count,
            width,
            height,
            current_index: 0,
            surface_index: 0,
            fence_value: 0,
            frame_fence_values: table,
            phase: FramePhase::Idle,
            target_open: false,
            buffers_live: true,
            unfenced: false,
        }
    }

    /// One queue-side fence signal: the counter is incremented and the new
    /// target is submitted.  Every returned value is one more than the value
    /// the loop held before, so successive calls return strictly increasing
    /// values.
    pub fn signal(&mut self) -> (v: u64)
        requires
            old(self).fence_value < u64::MAX,
        ensures
            signal_step(*old(self), *final(self), v),
            old(self).wf() ==> final(self).wf(),
    {
        self.fence_value = self.fence_value + 1;
        self.unfenced = false;
        self.fence_value
    }

    /// Block until the fence completes `value`, with the unbounded timeout
    /// the driving loop uses.  The fast path consults the completed value
    /// first: a value the fence has already reached succeeds at once, with
    /// no blocking call and the fence untouched.  Otherwise a value that
    /// was submitted to the queue is eventually completed, so the call
    /// returns `true` once the fence has reached it; waiting on a value
    /// that neither holds would block forever and is reported as `false`
    /// with the fence untouched.
    pub fn wait_until(&self, fence: &mut Fence, value: u64) -> (r: bool)
        ensures
            wait_step(*self, *old(fence), *final(fence), value, r),
    {
        if fence.get_value() >= value {
            true
        } else if value <= self.fence_value {
            fence.signal(value);
            true
        } else {
            false
        }
    }

    /// Whether the current slot's previous frame has completed on the GPU,
    /// read from the table entry for that slot against the fence.  This is
    /// the fast-path check of a wait, costing no blocking call.
    pub fn slot_ready(&self, fence: &Fence) -> (r: bool)
        requires
            self.wf(),
        ensures
            r == (fence.completed >= self.slot_fence()),
    {
        fence.is_reached(self.frame_fence_values[self.current_index])
    }

    /// Enter `Recording`: reset the current slot's command allocator and
    /// list.  The reset is refused with `SlotInFlight` unless the slot's
    /// previous frame has completed, checked against the fence's completed
    /// value rather than blindly; the recorder of a slot is therefore never
    /// reset before the fence has reached the table's value for that slot.
    pub fn begin_frame(&mut self, fence: &Fence) -> (r: Result<(), Error>)
        requires
            old(self).wf(),
            old(self).phase is Idle,
            old(self).buffers_live,
        ensures
            begin_frame_step(*old(self), *fence, *final(self), r),
            final(self).wf(),
    {
        if self.slot_ready(fence) {
            self.phase = FramePhase::Recording;
            Ok(())
        } else {
            Err(Error::SlotInFlight)
        }
    }

    /// Record the barrier that moves the current slot's buffer from the
    /// presentable state to the render-target state.
    pub fn transition_to_render_target(&mut self) -> (desc: BarrierDesc)
        requires
            old(self).wf(),
            old(self).phase is Recording,
            !old(self).target_open,
        ensures
            *final(self) == (FrameLoop { target_open: true, ..*old(self) }),
            final(self).wf(),
            desc.index == old(self).current_index,
            desc.flags.bits == 0,
            desc.states.start is Present,
            desc.states.end is RenderTarget,
    {
        self.target_open = true;
        BarrierDesc::new(
            self.current_index,
            ResourceStates::Present..ResourceStates::RenderTarget,
        )
    }

    /// Record the barrier that moves the current slot's buffer back from the
    /// render-target state to the presentable state.
    pub fn transition_to_present(&mut self) -> (desc: BarrierDesc)
        requires
            old(self).wf(),
            old(self).phase is Recording,
            old(self).target_open,
        ensures
            *final(self) == (FrameLoop { target_open: false, ..*old(self) }),
            final(self).wf(),
            desc.index == old(self).current_index,
            desc.flags.bits == 0,
            desc.states.start is RenderTarget,
            desc.states.end is Present,
    {
        self.target_open = false;
        BarrierDesc::new(
            self.current_index,
            ResourceStates::RenderTarget..ResourceStates::Present,
        )
    }

    /// Close the recorder and hand its command list to the submission queue.
    /// The buffer must be back in the presentable state, so the two barriers
    /// of the frame are balanced before anything is executed.  From here the
    /// queue holds work not yet covered by a fence signal.
    pub fn submit(&mut self)
        requires
            old(self).wf(),
            old(self).phase is Recording,
            !old(self).target_open,
        ensures
            *final(self) == (FrameLoop {
                phase: FramePhase::Submitted,
                unfenced: true,
                ..*old(self)
            }),
            final(self).wf(),
    {
        self.phase = FramePhase::Submitted;
        self.unfenced = true;
    }

    /// Hand the rendered frame to the presentation surface.  The surface
    /// presents in submission order and moves its cursor to the next ring
    /// slot.
    pub fn present(&mut self)
        requires
            old(self).wf(),
            old(self).phase is Submitted,
            old(self).buffers_live,
        ensures
            *final(self) == (FrameLoop {
                phase: FramePhase::Presented,
                surface_index: ring_next(
                    old(self).surface_index as int,
                    old(self).buffer_count as int,
                ) as usize,
                ..*old(self)
            }),
            final(self).wf(),
    {
        self.surface_index = if self.surface_index + 1 == self.buffer_count {
            0
        } else {
            self.surface_index + 1
        };
        self.phase = FramePhase::Presented;
    }

    /// Finish the frame right after presenting: signal the fence once for
    /// the frame's work, record the returned value in the table entry of the
    /// slot just presented, and move the CPU cursor to the slot the surface
    /// hands out next.  The table entry written is the value a later frame
    /// must wait for before reusing that slot.
    pub fn finish_frame(&mut self) -> (v: u64)
        requires
            old(self).wf(),
            old(self).phase is Presented,
            old(self).fence_value < u64::MAX,
        ensures
            finish_frame_step(*old(self), *final(self), v),
            final(self).wf(),
    {
        let v = self.signal();
        self.frame_fence_values[self.current_index] = v;
        self.current_index = self.surface_index;
        self.phase = FramePhase::Idle;
        v
    }

    /// Drain the queue: make sure every piece of submitted work is covered
    /// by a fence signal, then wait the fence out to that target.  With no
    /// submission since the last signal the target is the fence value
    /// already held, so flushing twice in a row waits for the same target
    /// and the second wait is satisfied immediately.  Returns the target.
    pub fn flush(&mut self, fence: &mut Fence) -> (target: u64)
        requires
            old(self).unfenced ==> old(self).fence_value < u64::MAX,
        ensures
            flush_step(*old(self), *old(fence), *final(self), *final(fence), target),
            old(self).wf() ==> final(self).wf(),
    {
        let target = if self.unfenced {
            self.signal()
        } else {
            self.fence_value
        };
        let _reached = self.wait_until(fence, target);
        target
    }

    /// Release every frame buffer of the ring, as a resize or a shutdown
    /// must before the surface may be touched.  While work that may still
    /// read the buffers is not known complete the call is refused with
    /// `QueueNotDrained`: a release is only allowed once the fence has
    /// completed everything submitted, which a [`FrameLoop::flush`]
    /// establishes.
    pub fn release_buffers(&mut self, fence: &Fence) -> (r: Result<(), Error>)
        requires
            old(self).wf(),
            old(self).phase is Idle,
        ensures
            release_step(*old(self), *fence, *final(self), r),
            final(self).wf(),
    {
        if !self.unfenced && fence.is_reached(self.fence_value) {
            self.buffers_live = false;
            Ok(())
        } else {
            Err(Error::QueueNotDrained)
        }
    }

    /// Reset every table entry to the value recorded for the current slot.
    /// A resize does this so that no slot keeps a stale value: a larger one
    /// would let a later wait be skipped too early, a smaller one would
    /// stall a frame needlessly.
    pub fn normalize_fence_table(&mut self)
        requires
            old(self).wf(),
            old(self).phase is Idle,
        ensures
            *final(self) == (FrameLoop {
                frame_fence_values: final(self).frame_fence_values,
                ..*old(self)
            }),
            final(self).frame_fence_values@ == Seq::new(
                old(self).frame_fence_values@.len(),
                |i: int| old(self).slot_fence(),
            ),
            final(self).wf(),
    {
        let v = self.frame_fence_values[self.current_index];
        let n = self.frame_fence_values.len();
        let mut i: usize = 0;
        while i < n
            invariant
                i <= n,
                n == self.frame_fence_values.len(),
                self.current_index < n,
                v == old(self).slot_fence(),
                *self == (FrameLoop {
                    frame_fence_values: self.frame_fence_values,
                    ..*old(self)
                }),
                forall|j: int| 0 <= j < i ==> self.frame_fence_values[j] == v,
                forall|j: int|
                    i <= j < n ==> self.frame_fence_values[j] == old(
                        self,
                    ).frame_fence_values[j],
            decreases n - i,
        {
            self.frame_fence_values[i] = v;
            i = i + 1;
        }
        proof {
            assert(self.frame_fence_values@ =~= Seq::new(
                old(self).frame_fence_values@.len(),
                |i: int| old(self).slot_fence(),
            ));
        }
    }

    /// Resize the presentation surface to the new dimensions, clamped to at
    /// least 1 by 1 since zero-sized buffers are invalid.  The surface
    /// rejects the call outright while any frame buffer still exists, with
    /// `ResizeSwapChainFailed`.  After a successful resize the surface's
    /// cursor is back at slot 0.
    pub fn resize_surface(&mut self, width: u32, height: u32) -> (r: Result<(), Error>)
        requires
            old(self).wf(),
            old(self).phase is Idle,
        ensures
            resize_surface_step(*old(self), *final(self), width, height, r),
            final(self).wf(),
    {
        if self.buffers_live {
            Err(Error::ResizeSwapChainFailed)
        } else {
            self.width = if width == 0 {
                1
            } else {
                width
            };
            self.height = if height == 0 {
                1
            } else {
                height
            };
            self.surface_index = 0;
            Ok(())
        }
    }

    /// Query the surface for the slot it will render and present next and
    /// move the CPU cursor there; called after every present and after a
    /// resize.  The returned index is always inside the ring.
    pub fn acquire_current_index(&mut self) -> (i: usize)
        requires
            old(self).wf(),
            old(self).phase is Idle,
        ensures
            *final(self) == (FrameLoop { current_index: old(self).surface_index, ..*old(self) }),
            final(self).wf(),
            i == old(self).surface_index,
            i < old(self).buffer_count,
    {
        self.current_index = self.surface_index;
        self.current_index
    }

    /// Recreate each frame buffer and its render-target view from the
    /// resized surface.
    pub fn recreate_buffers(&mut self)
        requires
            old(self).wf(),
            old(self).phase is Idle,
            !old(self).buffers_live,
        ensures
            *final(self) == (FrameLoop { buffers_live: true, ..*old(self) }),
            final(self).wf(),
    {
        self.buffers_live = true;
    }

    /// The whole resize protocol, strictly ordered: drain the queue, release
    /// every frame buffer, normalize the fence table to the current slot's
    /// value, resize the surface to the clamped dimensions, re-acquire the
    /// current index, and recreate the buffers.  On return no table entry
    /// exceeds the fence's completed value and the current index is inside
    /// the ring.
    pub fn resize(&mut self, fence: &mut Fence, width: u32, height: u32) -> (target: u64)
        requires
            old(self).wf(),
            old(self).phase is Idle,
            old(self).unfenced ==> old(self).fence_value < u64::MAX,
        ensures
            resize_step(*old(self), *old(fence), *final(self), *final(fence), width, height),
            final(self).wf(),
            target == final(self).fence_value,
    {
        let target = self.flush(fence);
        let released = self.release_buffers(fence);
        proof {
            assert(released is Ok);
        }
        self.normalize_fence_table();
        let resized = self.resize_surface(width, height);
        proof {
            assert(resized is Ok);
        }
        let _index = self.acquire_current_index();
        self.recreate_buffers();
        target
    }

    /// One whole frame of the steady-state loop: wait for the current
    /// slot's previous work, reset its recorder, record the two balanced
    /// barriers around the draw, submit, present, then signal and retire.
    /// Returns the fence value signalled for this frame, which is recorded
    /// in the table entry of the slot the frame used.
    pub fn render_frame(&mut self, fence: &mut Fence) -> (v: u64)
        requires
            old(self).wf(),
            old(self).phase is Idle,
            old(self).buffers_live,
            old(self).fence_value < u64::MAX,
        ensures
            render_frame_step(*old(self), *old(fence), *final(self), *final(fence), v),
            final(self).wf(),
    {
        let _reached = self.wait_until(fence, self.frame_fence_values[self.current_index]);
        let begun = self.begin_frame(fence);
        proof {
            assert(begun is Ok);
        }
        let _open_barrier = self.transition_to_render_target();
        let _close_barrier = self.transition_to_present();
        self.submit();
        self.present();
        self.finish_frame()
    }
}

/// Transition of one [`FrameLoop::signal`] call returning `v`.
pub open spec fn signal_step(pre: FrameLoop, post: FrameLoop, v: u64) -> bool {
    &&& pre.fence_value < u64::MAX
    &&& v == pre.fence_value + 1
    &&& post == (FrameLoop { fence_value: v, unfenced: false, ..pre })
}

/// Transition of one [`FrameLoop::begin_frame`] call: the recorder of the
/// current slot is reset exactly when the fence has completed the table's
/// value for that slot; otherwise nothing changes and `SlotInFlight` comes
/// back.
pub open spec fn begin_frame_step(
    pre: FrameLoop,
    fence: Fence,
    post: FrameLoop,
    r: Result<(), Error>,
) -> bool {
    &&& pre.phase is Idle
    &&& pre.buffers_live
    &&& if fence.completed >= pre.slot_fence() {
        &&& r is Ok
        &&& post == (FrameLoop { phase: FramePhase::Recording, ..pre })
    } else {
        &&& r == Result::<(), Error>::Err(Error::SlotInFlight)
        &&& post == pre
    }
}

/// Transition of one [`FrameLoop::finish_frame`] call returning `v`: one
/// fence signal, the table entry of the slot just presented set to `v`, and
/// the CPU cursor moved to the surface's next slot.
pub open spec fn finish_frame_step(pre: FrameLoop, post: FrameLoop, v: u64) -> bool {
    &&& pre.phase is Presented
    &&& pre.fence_value < u64::MAX
    &&& v == pre.fence_value + 1
    &&& post.fence_value == v
    &&& !post.unfenced
    &&& post.frame_fence_values@ == pre.frame_fence_values@.update(pre.current_index as int, v)
    &&& post.current_index == pre.surface_index
    &&& post.phase is Idle
    &&& post.buffer_count == pre.buffer_count
    &&& post.width == pre.width
    &&& post.height == pre.height
    &&& post.surface_index == pre.surface_index
    &&& post.target_open == pre.target_open
    &&& post.buffers_live == pre.buffers_live
}

/// Transition of one [`FrameLoop::flush`] call returning `target`: work
/// submitted after the last signal forces one new signal, otherwise the
/// target is the fence value already held; either way the fence has
/// completed the target when the call returns.
pub open spec fn flush_step(
    pre: FrameLoop,
    f0: Fence,
    post: FrameLoop,
    f1: Fence,
    target: u64,
) -> bool {
    &&& (pre.unfenced ==> pre.fence_value < u64::MAX)
    &&& if pre.unfenced {
        &&& target == pre.fence_value + 1
        &&& post == (FrameLoop { fence_value: target, unfenced: false, ..pre })
    } else {
        &&& target == pre.fence_value
        &&& post == pre
    }
    &&& f1.completed == (if f0.completed >= target {
        f0.completed
    } else {
        target
    })
}

/// Transition of one [`FrameLoop::release_buffers`] call: the buffers go
/// away exactly when the queue is drained; with work possibly still in
/// flight nothing changes and `QueueNotDrained` comes back.
pub open spec fn release_step(
    pre: FrameLoop,
    fence: Fence,
    post: FrameLoop,
    r: Result<(), Error>,
) -> bool {
    &&& pre.phase is Idle
    &&& if pre.drained(fence) {
        &&& r is Ok
        &&& post == (FrameLoop { buffers_live: false, ..pre })
    } else {
        &&& r == Result::<(), Error>::Err(Error::QueueNotDrained)
        &&& post == pre
    }
}

/// Transition of one [`FrameLoop::resize_surface`] call: refused outright
/// while buffers exist; otherwise the dimensions are clamped to at least 1
/// and the surface's cursor returns to slot 0.
pub open spec fn resize_surface_step(
    pre: FrameLoop,
    post: FrameLoop,
    width: u32,
    height: u32,
    r: Result<(), Error>,
) -> bool {
    &&& pre.phase is Idle
    &&& if pre.buffers_live {
        &&& r == Result::<(), Error>::Err(Error::ResizeSwapChainFailed)
        &&& post == pre
    } else {
        &&& r is Ok
        &&& post == (FrameLoop {
            width: if width == 0 {
                1u32
            } else {
                width
            },
            height: if height == 0 {
                1u32
            } else {
                height
            },
            surface_index: 0,
            ..pre
        })
    }
}

/// Transition of one [`FrameLoop::resize`] call: the drained queue, the
/// normalized table, the clamped dimensions, the cursor back at slot 0, and
/// the buffers recreated.  No table entry exceeds the fence's completed
/// value afterwards.
pub open spec fn resize_step(
    pre: FrameLoop,
    f0: Fence,
    post: FrameLoop,
    f1: Fence,
    width: u32,
    height: u32,
) -> bool {
    &&& post.buffer_count == pre.buffer_count
    &&& post.width == (if width == 0 {
        1u32
    } else {
        width
    })
    &&& post.height == (if height == 0 {
        1u32
    } else {
        height
    })
    &&& post.current_index == 0
    &&& post.surface_index == 0
    &&& post.fence_value == (if pre.unfenced {
        pre.fence_value + 1
    } else {
        pre.fence_value as int
    })
    &&& post.frame_fence_values@ == Seq::new(
        pre.frame_fence_values@.len(),
        |i: int| pre.slot_fence(),
    )
    &&& post.phase is Idle
    &&& post.target_open == pre.target_open
    &&& post.buffers_live
    &&& !post.unfenced
    &&& f1.completed == (if f0.completed >= post.fence_value {
        f0.completed
    } else {
        post.fence_value
    })
    &&& pre.wf() ==> forall|i: int|
        0 <= i < post.frame_fence_values@.len() ==> post.frame_fence_values@[i] <= f1.completed
}

/// Transition of one [`FrameLoop::render_frame`] call returning `v`: the
/// fence has completed the old table entry of the slot the frame used, that
/// entry now holds the one new signal's value `v`, and both cursors moved to
/// the next ring slot.
pub open spec fn render_frame_step(
    pre: FrameLoop,
    f0: Fence,
    post: FrameLoop,
    f1: Fence,
    v: u64,
) -> bool {
    &&& v == pre.fence_value + 1
    &&& post.fence_value == v
    &&& !post.unfenced
    &&& post.frame_fence_values@ == pre.frame_fence_values@.update(pre.current_index as int, v)
    &&& post.current_index == ring_next(pre.surface_index as int, pre.buffer_count as int)
    &&& post.surface_index == post.current_index
    &&& post.phase is Idle
    &&& !post.target_open
    &&& post.buffers_live
    &&& post.buffer_count == pre.buffer_count
    &&& post.width == pre.width
    &&& post.height == pre.height
    &&& f1.completed == (if f0.completed >= pre.slot_fence() {
        f0.completed
    } else {
        pre.slot_fence()
    })
}

/// Transition of one [`FrameLoop::wait_until`] call on `value`: the wait
/// succeeds exactly when the fence has already completed `value` (the fast
/// path) or a submitted signal covers it, and on success the fence has
/// completed at least `value`.
pub open spec fn wait_step(fl: FrameLoop, f0: Fence, f1: Fence, value: u64, r: bool) -> bool {
    &&& r == (f0.completed >= value || value <= fl.fence_value)
    &&& if r {
        f1.completed == (if f0.completed >= value {
            f0.completed
        } else {
            value
        })
    } else {
        f1 == f0
    }
}

/// Arguments of one present call: one interval of vertical sync when it is
/// on, else immediate presentation; tearing is allowed only with vertical
/// sync off and the capability reported by the surface.
pub fn present_parameters(vsync: bool, tearing_supported: bool) -> (r: (u32, bool))
    ensures
        r.0 == (if vsync {
            1u32
        } else {
            0u32
        }),
        r.1 == (!vsync && tearing_supported),
{
    let sync_interval: u32 = if vsync {
        1
    } else {
        0
    };
    (sync_interval, !vsync && tearing_supported)
}

/// Value returned by the `k`-th signal of an uninterrupted chain: the chain
/// starts at the first state's fence value and each signal adds one.
proof fn lemma_signal_chain_value(states: Seq<FrameLoop>, values: Seq<u64>, k: int)
    requires
        states.len() == values.len() + 1,
        forall|i: int| 0 <= i < values.len() ==> signal_step(states[i], states[i + 1], values[i]),
        0 <= k < values.len(),
    ensures
        values[k] == states[0].fence_value + 1 + k,
    decreases k,
{
    if k > 0 {
        lemma_signal_chain_value(states, values, k - 1);
        assert(signal_step(states[k - 1], states[k], values[k - 1]));
        assert(signal_step(states[k], states[k + 1], values[k]));
    }
}

/// Monotonic fence: over any sequence of signal transitions, each returned
/// value is strictly greater than every value returned before it.
pub proof fn lemma_signal_monotonic(states: Seq<FrameLoop>, values: Seq<u64>)
    requires
        states.len() == values.len() + 1,
        forall|i: int| 0 <= i < values.len() ==> signal_step(states[i], states[i + 1], values[i]),
    ensures
        forall|i: int, j: int| 0 <= i < j < values.len() ==> values[i] < values[j],
{
    assert forall|i: int, j: int| 0 <= i < j < values.len() implies values[i] < values[j] by {
        lemma_signal_chain_value(states, values, i);
        lemma_signal_chain_value(states, values, j);
    }
}

/// No premature reuse: a slot's recorder is reset exactly when the fence has
/// completed the table's value for that slot, and a refused reset changes
/// nothing.
pub proof fn lemma_no_premature_reuse(
    pre: FrameLoop,
    fence: Fence,
    post: FrameLoop,
    r: Result<(), Error>,
)
    requires
        begin_frame_step(pre, fence, post, r),
    ensures
        (r is Ok) <==> fence.completed >= pre.slot_fence(),
        fence.completed < pre.slot_fence() ==> post == pre,
{
}

/// A wait on the current slot's recorded value always succeeds in a
/// well-formed loop, since every table entry was submitted; afterwards the
/// fence has completed that value, so the reset that follows is allowed.
pub proof fn lemma_wait_then_reset(fl: FrameLoop, f0: Fence, f1: Fence, r: bool)
    requires
        fl.wf(),
        wait_step(fl, f0, f1, fl.slot_fence(), r),
    ensures
        r,
        f1.completed >= fl.slot_fence(),
{
}

/// Resize drains first: while submitted work is not known complete, a
/// buffer release is refused and changes nothing, so the buffers can only
/// go away after a flush has drained the queue.
pub proof fn lemma_resize_drains_first(
    pre: FrameLoop,
    fence: Fence,
    post: FrameLoop,
    r: Result<(), Error>,
)
    requires
        release_step(pre, fence, post, r),
        !pre.drained(fence),
    ensures
        r == Result::<(), Error>::Err(Error::QueueNotDrained),
        post == pre,
{
}

/// Idempotent flush: two flushes with no submission in between wait for the
/// same target, and the second finds the fence already there, so it changes
/// neither the loop nor the fence.
pub proof fn lemma_flush_idempotent(
    s0: FrameLoop,
    f0: Fence,
    s1: FrameLoop,
    f1: Fence,
    t1: u64,
    s2: FrameLoop,
    f2: Fence,
    t2: u64,
)
    requires
        flush_step(s0, f0, s1, f1, t1),
        flush_step(s1, f1, s2, f2, t2),
    ensures
        t2 == t1,
        s2 == s1,
        f2.completed == f1.completed,
{
}

} // verus!
