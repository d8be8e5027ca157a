//! The frame orchestrator: one tick of the render loop.
//!
//! Per tick, in order: acquire the next image for the current slot
//! (waiting on the slot's fence first), reset and re-record the slot's
//! command buffer, submit it waiting on the image-available semaphore and
//! signaling the render-finished one, present waiting on render-finished,
//! and advance the slot index modulo N.  Transient presentation results
//! are recovered by recreation and never surfaced; a degenerate surface
//! extent suspends the tick entirely.

use vstd::prelude::*;

use crate::command_buffer::{CommandBuffer, CommandPool, CommandQueue, RecordingState};
use crate::device::Device;
use crate::pipeline::{CullMode, Pipeline};
use crate::render_pass::{AttachmentLoadOp, ImageLayout, RenderPass};
use crate::shader::ShaderStage;
use crate::swapchain::{
    AcquireOutcome, Extent2D, FormatSupport, FrameSlot, PresentOutcome, SwapChain, SwapchainState,
    spec_chosen_extent, spec_chosen_format, spec_chosen_image_count, spec_optimal_depth_format,
    spec_waited_slot,
};
use crate::sync::{Fence, FenceState, Semaphore};
use crate::ConfigurationError;

verus! {

/// Marker for the rendering subsystem when it is registered with an
/// application harness.
#[derive(Clone, Copy, Debug)]
pub struct VulkanRendererPlugin;

/// What one tick of the frame loop did.
#[derive(Clone, Copy, PartialEq, Eq, Structural, Debug)]
pub enum TickReport {
    /// The surface reported a zero extent: no acquire, submit or present
    /// happened, and nothing changed.
    Suspended,
    /// The chain is stale or the pipeline outdated; recreation must run
    /// before the next acquire.
    NeedsRecreation,
    /// The acquire came back out of date; the chain is now stale and the
    /// tick was skipped without submitting.
    AcquireFailed,
    /// A full tick: recorded, submitted and presented.
    Rendered { slot: usize, image: u32 },
}

/// A slot after a full tick: its fence was waited on once and now guards
/// the new submission.
pub open spec fn spec_cycled_slot(s: FrameSlot) -> FrameSlot {
    FrameSlot {
        fence: Fence { state: FenceState::Pending },
        waits: (s.waits + 1) as u64,
        ..s
    }
}

/// The command buffer contents one tick records: viewport and scissor
/// covering `extent`, one render pass over the same area, the bound
/// pipeline, and a single draw.
pub open spec fn spec_recorded_buffer(extent: Extent2D) -> CommandBuffer {
    CommandBuffer {
        state: RecordingState::Executable,
        viewport: Some(extent),
        scissor: Some(extent),
        render_area: Some(extent),
        pipeline_bound: true,
        draws: 1,
    }
}

/// The slot index the tick after `cur`, among `n` slots.
pub open spec fn spec_next_slot(cur: int, n: int) -> int {
    (cur + 1) % n
}

/// The slot index after `k` completed ticks starting from `start`.
pub open spec fn spec_slot_after_ticks(start: int, n: int, k: nat) -> int
    decreases k,
{
    if k == 0 {
        start
    } else {
        spec_next_slot(spec_slot_after_ticks(start, n, (k - 1) as nat), n)
    }
}

/// The frame-slot sequence is `start, start+1, …, N-1, 0, 1, …`: after
/// `k` completed ticks the slot index is `(start + k) % N`.  The
/// advance reads nothing but the slot index and N — in particular not
/// the swapchain's image count.
pub proof fn lemma_frame_slot_sequence(start: int, n: int, k: nat)
    requires
        0 <= start < n,
    ensures
        spec_slot_after_ticks(start, n, k) == (start + k) % n,
    decreases k,
{
    if k == 0 {
        vstd::arithmetic::div_mod::lemma_small_mod(start as nat, n as nat);
    } else {
        lemma_frame_slot_sequence(start, n, (k - 1) as nat);
        vstd::arithmetic::div_mod::lemma_add_mod_noop_right(1, start + k - 1, n);
    }
}

/// The top-level coordinator: exclusively owns the device, the chain,
/// the render pass, the pipeline and the submission queue, and drives
/// them once per application tick.
#[derive(Clone, Debug)]
pub struct FrameOrchestrator {
    pub device: Device,
    pub swapchain: SwapChain,
    pub render_pass: RenderPass,
    pub pipeline: Pipeline,
    pub command_pool: CommandPool,
    pub queue: CommandQueue,
    /// The pipeline and render pass were built against the chain's
    /// current extent and formats.  Cleared by swapchain recreation; the
    /// frame loop refuses to render until the pipeline is rebuilt.
    pub pipeline_current: bool,
}

impl FrameOrchestrator {
    /// Structural invariant tying the pieces together: one command
    /// buffer per frame slot; a slot whose fence is pending has a fully
    /// recorded buffer (its contents are owned by the GPU until the
    /// fence is waited on); and a current pipeline matches the chain's
    /// extent and formats.
    pub open spec fn wf(self) -> bool {
        &&& self.swapchain.wf()
        &&& !self.swapchain.image_acquired
        &&& self.queue.command_buffers@.len() == self.swapchain.slots@.len()
        &&& (forall|i: int|
            0 <= i < self.swapchain.slots@.len() && (#[trigger] self.swapchain.slots@[i]).fence.state is Pending
                ==> self.queue.command_buffers@[i].state == RecordingState::Executable)
        &&& (self.pipeline_current ==> {
            &&& self.pipeline.extent == self.swapchain.extent
            &&& self.pipeline.color_format == self.swapchain.color_format.format
            &&& self.pipeline.depth_format == self.swapchain.depth_format
            &&& self.render_pass.color_attachment.format == self.swapchain.color_format.format
            &&& self.render_pass.depth_attachment.format == self.swapchain.depth_format
            &&& self.pipeline.samples == self.render_pass.msaa_samples
        })
    }

    /// The tick counters have room left; a machine limit, not a design
    /// one.
    pub open spec fn spec_counters_ok(self) -> bool {
        &&& self.swapchain.acquires < u64::MAX
        &&& self.swapchain.presents < u64::MAX
        &&& self.queue.submissions < u64::MAX
        &&& self.swapchain.slots@[self.swapchain.current_frame as int].waits < u64::MAX
    }

    /// Assemble the subsystem at startup: create the chain from the
    /// surface's capabilities, build the render pass and pipeline
    /// against the chain's formats and extent, and allocate one
    /// long-lived command buffer per slot.
    pub fn new(
        device: Device,
        depth_supports: &Vec<FormatSupport>,
        stages: Vec<ShaderStage>,
        cull_mode: CullMode,
        depth_test_enabled: bool,
        width: u32,
        height: u32,
        num_slots: usize,
    ) -> (r: Result<FrameOrchestrator, ConfigurationError>)
        requires
            device.swapchain_support.capabilities.wf(),
            device.swapchain_support.formats@.len() > 0,
            device.queue_indices.spec_complete(),
            1 <= num_slots <= 0xFFFF_FFFF,
            !spec_chosen_extent(
                device.swapchain_support.capabilities,
                width,
                height,
            ).spec_is_zero(),
        ensures
            r is Ok <==> spec_optimal_depth_format(depth_supports@) is Ok,
            r matches Err(e) ==> Err::<crate::swapchain::Format, ConfigurationError>(e)
                == spec_optimal_depth_format(depth_supports@),
            r matches Ok(o) ==> {
                &&& o.wf()
                &&& o.pipeline_current
                &&& o.swapchain.state == SwapchainState::Valid
                &&& o.swapchain.extent == spec_chosen_extent(
                    device.swapchain_support.capabilities,
                    width,
                    height,
                )
                &&& o.swapchain.color_format == spec_chosen_format(
                    device.swapchain_support.formats@,
                )
                &&& o.swapchain.image_count == spec_chosen_image_count(
                    device.swapchain_support.capabilities,
                )
                &&& o.swapchain.slots@.len() == num_slots
                &&& o.swapchain.current_frame == 0
                &&& o.swapchain.acquires == 0
                &&& o.swapchain.presents == 0
                &&& o.queue.submissions == 0
                &&& o.pipeline.stages@ == stages@
                &&& o.pipeline.cull_mode == cull_mode
                &&& o.pipeline.depth_test_enabled == depth_test_enabled
                &&& o.device == device
            },
    {
        let swapchain = match SwapChain::new(
            &device.swapchain_support.capabilities,
            &device.swapchain_support.formats,
            &device.swapchain_support.present_modes,
            depth_supports,
            width,
            height,
            num_slots,
        ) {
            Ok(sc) => sc,
            Err(e) => {
                return Err(e);
            },
        };
        let samples = device.get_max_sample_count();
        let render_pass = RenderPass::new(
            swapchain.get_color_format(),
            swapchain.get_depth_format(),
            samples,
            AttachmentLoadOp::Clear,
            ImageLayout::Undefined,
            ImageLayout::ColorAttachmentOptimal,
        );
        let pipeline = Pipeline::new(
            swapchain.get_extent(),
            &render_pass,
            stages,
            cull_mode,
            depth_test_enabled,
        );
        let graphics_family = match device.get_queue_indices().graphics_family {
            Some(g) => g,
            None => {
                proof {
                    assert(false);
                }
                0
            },
        };
        let mut command_pool = CommandPool::new(graphics_family);
        let queue = CommandQueue::new(graphics_family, &mut command_pool, num_slots);
        proof {
            assert forall|i: int|
                0 <= i < swapchain.slots@.len() && (#[trigger] swapchain.slots@[i]).fence.state is Pending
                implies queue.command_buffers@[i].state == RecordingState::Executable by {
                assert(swapchain.slots@[i] == crate::swapchain::spec_initial_slot(i));
            }
        }
        Ok(
            FrameOrchestrator {
                device,
                swapchain,
                render_pass,
                pipeline,
                command_pool,
                queue,
                pipeline_current: true,
            },
        )
    }

    /// An external resize notification: mark the chain stale; the next
    /// tick reports that recreation is needed.
    pub fn note_resize(&mut self)
        requires
            old(self).wf(),
        ensures
            final(self).wf(),
            final(self).swapchain == (SwapChain {
                state: SwapchainState::Stale,
                ..old(self).swapchain
            }),
            final(self).queue == old(self).queue,
            final(self).pipeline == old(self).pipeline,
            final(self).render_pass == old(self).render_pass,
            final(self).device == old(self).device,
            final(self).command_pool == old(self).command_pool,
            final(self).pipeline_current == old(self).pipeline_current,
    {
        self.swapchain.mark_stale();
    }

    /// One tick of the frame loop.
    ///
    /// `surface_extent` is the framebuffer size the surface reports this
    /// tick; `acquire` and `present` are the presentation engine's
    /// answers to this tick's acquire and present requests.  A zero
    /// extent suspends the tick with nothing touched; a stale chain or
    /// outdated pipeline asks for recreation with nothing touched; an
    /// out-of-date acquire marks the chain stale and skips the tick.
    /// Otherwise the slot's fence is waited on exactly once, its buffer
    /// re-recorded and submitted waiting on the slot's image-available
    /// semaphore and signaling its render-finished one, the image
    /// presented waiting on render-finished, and the slot index advanced
    /// modulo the slot count.
    pub fn render_frame(
        &mut self,
        surface_extent: Extent2D,
        acquire: AcquireOutcome,
        present: PresentOutcome,
    ) -> (r: TickReport)
        requires
            old(self).wf(),
            old(self).spec_counters_ok(),
            acquire matches AcquireOutcome::Image(i) ==> i < old(self).swapchain.image_count,
        ensures
            final(self).wf(),
            surface_extent.spec_is_zero() ==> r == TickReport::Suspended && *final(self) == *old(
                self,
            ),
            !surface_extent.spec_is_zero() && !(old(self).swapchain.state == SwapchainState::Valid
                && old(self).pipeline_current) ==> r == TickReport::NeedsRecreation && *final(self)
                == *old(self),
            (!surface_extent.spec_is_zero() && old(self).swapchain.state == SwapchainState::Valid
                && old(self).pipeline_current && acquire == AcquireOutcome::OutOfDate) ==> {
                &&& r == TickReport::AcquireFailed
                &&& final(self).swapchain.state == SwapchainState::Stale
                &&& final(self).swapchain.slots@ == old(self).swapchain.slots@.update(
                    old(self).swapchain.current_frame as int,
                    spec_waited_slot(
                        old(self).swapchain.slots@[old(self).swapchain.current_frame as int],
                    ),
                )
                &&& final(self).swapchain.current_frame == old(self).swapchain.current_frame
                &&& final(self).swapchain.acquires == old(self).swapchain.acquires + 1
                &&& final(self).swapchain.presents == old(self).swapchain.presents
                &&& final(self).queue == old(self).queue
                &&& final(self).pipeline == old(self).pipeline
                &&& final(self).render_pass == old(self).render_pass
                &&& final(self).device == old(self).device
                &&& final(self).pipeline_current == old(self).pipeline_current
            },
            (!surface_extent.spec_is_zero() && old(self).swapchain.state == SwapchainState::Valid
                && old(self).pipeline_current) ==> (acquire matches AcquireOutcome::Image(img)
                ==> {
                &&& r == (TickReport::Rendered {
                    slot: old(self).swapchain.current_frame,
                    image: img,
                })
                &&& final(self).swapchain.slots@ == old(self).swapchain.slots@.update(
                    old(self).swapchain.current_frame as int,
                    spec_cycled_slot(
                        old(self).swapchain.slots@[old(self).swapchain.current_frame as int],
                    ),
                )
                &&& final(self).swapchain.current_frame == spec_next_slot(
                    old(self).swapchain.current_frame as int,
                    old(self).swapchain.slots@.len() as int,
                )
                &&& final(self).swapchain.state == (match present {
                    PresentOutcome::Success => SwapchainState::Valid,
                    _ => SwapchainState::Stale,
                })
                &&& final(self).swapchain.current_image == img
                &&& !final(self).swapchain.image_acquired
                &&& final(self).swapchain.acquires == old(self).swapchain.acquires + 1
                &&& final(self).swapchain.presents == old(self).swapchain.presents + 1
                &&& final(self).swapchain.extent == old(self).swapchain.extent
                &&& final(self).swapchain.image_count == old(self).swapchain.image_count
                &&& final(self).queue.submissions == old(self).queue.submissions + 1
                &&& final(self).queue.command_buffers@ == old(self).queue.command_buffers@.update(
                    old(self).swapchain.current_frame as int,
                    spec_recorded_buffer(old(self).swapchain.extent),
                )
                &&& final(self).queue.last_wait@ == seq![
                    old(self).swapchain.slots@[old(self).swapchain.current_frame as int].image_available.id,
                ]
                &&& final(self).queue.last_signal@ == seq![
                    old(self).swapchain.slots@[old(self).swapchain.current_frame as int].render_finished.id,
                ]
                &&& final(self).pipeline == old(self).pipeline
                &&& final(self).render_pass == old(self).render_pass
                &&& final(self).device == old(self).device
                &&& final(self).pipeline_current == old(self).pipeline_current
            }),
    {
        if surface_extent.is_zero() {
            return TickReport::Suspended;
        }
        if !(matches!(self.swapchain.state, SwapchainState::Valid) && self.pipeline_current) {
            return TickReport::NeedsRecreation;
        }

        let cur = self.swapchain.get_current_frame();
        let image = match self.swapchain.next_image(acquire) {
            Ok(i) => i,
            Err(_) => {
                return TickReport::AcquireFailed;
            },
        };

        let extent = self.swapchain.get_extent();
        let command_buffer = self.queue.get_command_buffer(cur);
        command_buffer.reset();
        command_buffer.begin();
        command_buffer.set_viewport(&extent);
        command_buffer.begin_render_pass(&self.render_pass, &extent);
        command_buffer.bind_graphics_pipeline(&self.pipeline);
        command_buffer.draw(3, 1, 0, 0);
        command_buffer.end_render_pass();
        command_buffer.end();

        let image_available = self.swapchain.image_available_semaphore();
        let render_finished = self.swapchain.render_finished_semaphore();
        let mut wait_semaphores: Vec<Semaphore> = Vec::new();
        wait_semaphores.push(image_available);
        let mut signal_semaphores: Vec<Semaphore> = Vec::new();
        signal_semaphores.push(render_finished);

        let fence = self.queue.submit_command_buffer(
            cur,
            Some(&wait_semaphores),
            Some(&signal_semaphores),
        );

        let presented = self.swapchain.present(&fence, &signal_semaphores, present);
        proof {
            assert(presented is Ok);
        }
        TickReport::Rendered { slot: cur, image }
    }

    /// Recreate a stale chain at the surface's current size.  The
    /// pipeline is no longer current afterwards and must be rebuilt
    /// before the next acquire.
    pub fn recreate_swapchain(
        &mut self,
        support: &crate::device::SwapchainSupportDetail,
        depth_supports: &Vec<FormatSupport>,
        width: u32,
        height: u32,
    ) -> (r: Result<(), ConfigurationError>)
        requires
            old(self).wf(),
            old(self).swapchain.state == SwapchainState::Stale,
            support.capabilities.wf(),
            support.formats@.len() > 0,
            !spec_chosen_extent(support.capabilities, width, height).spec_is_zero(),
        ensures
            final(self).wf(),
            r is Ok <==> spec_optimal_depth_format(depth_supports@) is Ok,
            !final(self).pipeline_current,
            final(self).queue == old(self).queue,
            final(self).pipeline == old(self).pipeline,
            final(self).render_pass == old(self).render_pass,
            final(self).device == old(self).device,
            r is Ok ==> {
                &&& final(self).swapchain.state == SwapchainState::Valid
                &&& final(self).swapchain.extent == spec_chosen_extent(
                    support.capabilities,
                    width,
                    height,
                )
                &&& final(self).swapchain.color_format == spec_chosen_format(support.formats@)
                &&& final(self).swapchain.image_count == spec_chosen_image_count(
                    support.capabilities,
                )
                &&& final(self).swapchain.slots@.len() == old(self).swapchain.slots@.len()
                &&& (forall|i: int|
                    0 <= i < old(self).swapchain.slots@.len() ==> final(self).swapchain.slots@[i]
                        == (FrameSlot {
                        fence: Fence { state: FenceState::Signaled },
                        ..old(self).swapchain.slots@[i]
                    }))
                &&& final(self).swapchain.current_frame == old(self).swapchain.current_frame
                &&& final(self).swapchain.acquires == old(self).swapchain.acquires
                &&& final(self).swapchain.presents == old(self).swapchain.presents
            },
            r matches Err(e) ==> Err::<crate::swapchain::Format, ConfigurationError>(e)
                == spec_optimal_depth_format(depth_supports@) && final(self).swapchain.state
                == SwapchainState::Rebuilding,
    {
        let r = self.swapchain.recreate(
            &support.capabilities,
            &support.formats,
            &support.present_modes,
            depth_supports,
            width,
            height,
        );
        self.pipeline_current = false;
        r
    }

    /// Rebuild the render pass and pipeline against the chain's current
    /// extent and formats; rendering may resume afterwards.
    pub fn recreate_pipeline(
        &mut self,
        stages: Vec<ShaderStage>,
        cull_mode: CullMode,
        depth_test_enabled: bool,
    )
        requires
            old(self).wf(),
        ensures
            final(self).wf(),
            final(self).pipeline_current,
            final(self).pipeline.extent == old(self).swapchain.extent,
            final(self).pipeline.color_format == old(self).swapchain.color_format.format,
            final(self).pipeline.depth_format == old(self).swapchain.depth_format,
            final(self).pipeline.stages@ == stages@,
            final(self).pipeline.cull_mode == cull_mode,
            final(self).pipeline.depth_test_enabled == depth_test_enabled,
            final(self).render_pass.msaa_samples == crate::device::spec_max_sample_count(
                old(self).device.color_sample_mask,
                old(self).device.depth_sample_mask,
            ),
            final(self).swapchain == old(self).swapchain,
            final(self).queue == old(self).queue,
            final(self).device == old(self).device,
            final(self).command_pool == old(self).command_pool,
    {
        let samples = self.device.get_max_sample_count();
        self.render_pass = RenderPass::new(
            self.swapchain.get_color_format(),
            self.swapchain.get_depth_format(),
            samples,
            AttachmentLoadOp::Clear,
            ImageLayout::Undefined,
            ImageLayout::ColorAttachmentOptimal,
        );
        self.pipeline = Pipeline::new(
            self.swapchain.get_extent(),
            &self.render_pass,
            stages,
            cull_mode,
            depth_test_enabled,
        );
        self.pipeline_current = true;
    }
}

} // verus!
