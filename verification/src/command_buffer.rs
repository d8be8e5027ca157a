//! Command recording and submission.
//!
//! One long-lived command buffer exists per frame slot; it is reset, not
//! reallocated, between uses.  Recording follows a fixed order — begin,
//! set viewport and scissor, begin the render pass, bind the pipeline,
//! draw, end the render pass, end — and every step's precondition makes
//! an out-of-order recording unrepresentable.

use vstd::prelude::*;

use crate::pipeline::Pipeline;
use crate::render_pass::RenderPass;
use crate::swapchain::Extent2D;
use crate::sync::{Fence, FenceState, Semaphore};

verus! {

/// Where a command buffer stands in its recording cycle.
#[derive(Clone, Copy, PartialEq, Eq, Structural, Debug)]
pub enum RecordingState {
    /// Fresh or reset; recording may begin.
    Initial,
    /// Between begin and end, outside a render pass.
    Recording,
    /// Between render-pass begin and end.
    InRenderPass,
    /// Fully recorded; ready for submission.
    Executable,
}

/// The pool command buffers are allocated from.  It is created with
/// buffer reset enabled, since the frame loop resets its buffers every
/// cycle instead of freeing them.
#[derive(Clone, Copy, PartialEq, Eq, Structural, Debug)]
pub struct CommandPool {
    pub queue_family_index: u32,
    pub allocated: u64,
    pub supports_reset: bool,
}

impl CommandPool {
    pub fn new(queue_family_index: u32) -> (r: CommandPool)
        ensures
            r == (CommandPool { queue_family_index, allocated: 0, supports_reset: true }),
    {
        CommandPool { queue_family_index, allocated: 0, supports_reset: true }
    }
}

/// One frame slot's command buffer and what has been recorded into it.
#[derive(Clone, Copy, PartialEq, Eq, Structural, Debug)]
pub struct CommandBuffer {
    pub state: RecordingState,
    pub viewport: Option<Extent2D>,
    pub scissor: Option<Extent2D>,
    pub render_area: Option<Extent2D>,
    pub pipeline_bound: bool,
    pub draws: u64,
}

/// An empty buffer ready for recording.
pub open spec fn spec_fresh_buffer() -> CommandBuffer {
    CommandBuffer {
        state: RecordingState::Initial,
        viewport: None,
        scissor: None,
        render_area: None,
        pipeline_bound: false,
        draws: 0,
    }
}

impl CommandBuffer {
    /// Allocate a fresh buffer from the pool.
    pub fn new(command_pool: &mut CommandPool) -> (r: CommandBuffer)
        requires
            old(command_pool).allocated < u64::MAX,
        ensures
            r == spec_fresh_buffer(),
            *final(command_pool) == (CommandPool {
                allocated: (old(command_pool).allocated + 1) as u64,
                ..*old(command_pool)
            }),
    {
        command_pool.allocated = command_pool.allocated + 1;
        CommandBuffer {
            state: RecordingState::Initial,
            viewport: None,
            scissor: None,
            render_area: None,
            pipeline_bound: false,
            draws: 0,
        }
    }

    /// Reset the buffer for reuse.  The caller must first have waited on
    /// the fence of the submission that last used it; the frame loop's
    /// wait-before-reset order makes a reset of an in-flight buffer
    /// unreachable.
    pub fn reset(&mut self)
        ensures
            *final(self) == spec_fresh_buffer(),
    {
        self.state = RecordingState::Initial;
        self.viewport = None;
        self.scissor = None;
        self.render_area = None;
        self.pipeline_bound = false;
        self.draws = 0;
    }

    /// Start recording.
    pub fn begin(&mut self)
        requires
            old(self).state == RecordingState::Initial,
        ensures
            *final(self) == (CommandBuffer { state: RecordingState::Recording, ..*old(self) }),
    {
        self.state = RecordingState::Recording;
    }

    /// Record the viewport and a matching scissor covering `extent`.
    pub fn set_viewport(&mut self, extent: &Extent2D)
        requires
            old(self).state == RecordingState::Recording,
        ensures
            *final(self) == (CommandBuffer {
                viewport: Some(*extent),
                scissor: Some(*extent),
                ..*old(self)
            }),
    {
        self.viewport = Some(*extent);
        self.scissor = Some(*extent);
    }

    /// Record a scissor rectangle covering `extent`.
    pub fn set_scissor(&mut self, extent: &Extent2D)
        requires
            old(self).state == RecordingState::Recording,
        ensures
            *final(self) == (CommandBuffer { scissor: Some(*extent), ..*old(self) }),
    {
        self.scissor = Some(*extent);
    }

    /// Enter the render pass, rendering into `render_area`.
    pub fn begin_render_pass(&mut self, render_pass: &RenderPass, render_area: &Extent2D)
        requires
            old(self).state == RecordingState::Recording,
        ensures
            *final(self) == (CommandBuffer {
                state: RecordingState::InRenderPass,
                render_area: Some(*render_area),
                ..*old(self)
            }),
    {
        let _ = render_pass;
        self.state = RecordingState::InRenderPass;
        self.render_area = Some(*render_area);
    }

    /// Bind the graphics pipeline for the draws that follow.
    pub fn bind_graphics_pipeline(&mut self, pipeline: &Pipeline)
        requires
            old(self).state == RecordingState::InRenderPass,
        ensures
            *final(self) == (CommandBuffer { pipeline_bound: true, ..*old(self) }),
    {
        let _ = pipeline;
        self.pipeline_bound = true;
    }

    /// Record a draw.  A pipeline must be bound inside the render pass.
    pub fn draw(
        &mut self,
        vertex_count: u32,
        instance_count: u32,
        first_vertex: u32,
        first_instance: u32,
    )
        requires
            old(self).state == RecordingState::InRenderPass,
            old(self).pipeline_bound,
            old(self).draws < u64::MAX,
        ensures
            *final(self) == (CommandBuffer { draws: (old(self).draws + 1) as u64, ..*old(self) }),
    {
        let _ = (vertex_count, instance_count, first_vertex, first_instance);
        self.draws = self.draws + 1;
    }

    /// Leave the render pass.
    pub fn end_render_pass(&mut self)
        requires
            old(self).state == RecordingState::InRenderPass,
        ensures
            *final(self) == (CommandBuffer { state: RecordingState::Recording, ..*old(self) }),
    {
        self.state = RecordingState::Recording;
    }

    /// Finish recording; the buffer becomes submittable.
    pub fn end(&mut self)
        requires
            old(self).state == RecordingState::Recording,
        ensures
            *final(self) == (CommandBuffer { state: RecordingState::Executable, ..*old(self) }),
    {
        self.state = RecordingState::Executable;
    }
}

/// The submission target: holds the per-slot command buffers and records
/// each submission's semaphore pairing.
#[derive(Clone, Debug)]
pub struct CommandQueue {
    pub queue_family_index: u32,
    pub command_buffers: Vec<CommandBuffer>,
    /// Total submissions made.
    pub submissions: u64,
    /// Semaphore ids the latest submission waits on.
    pub last_wait: Vec<u64>,
    /// Semaphore ids the latest submission signals.
    pub last_signal: Vec<u64>,
}

impl CommandQueue {
    /// Create the queue with one long-lived command buffer per frame
    /// slot, all allocated from `command_pool`.
    pub fn new(queue_family_index: u32, command_pool: &mut CommandPool, num_buffers: usize) -> (r:
        CommandQueue)
        requires
            old(command_pool).allocated + num_buffers <= u64::MAX,
        ensures
            r.queue_family_index == queue_family_index,
            r.command_buffers@.len() == num_buffers,
            forall|i: int| 0 <= i < num_buffers ==> r.command_buffers@[i] == spec_fresh_buffer(),
            r.submissions == 0,
            r.last_wait@ == Seq::<u64>::empty(),
            r.last_signal@ == Seq::<u64>::empty(),
            *final(command_pool) == (CommandPool {
                allocated: (old(command_pool).allocated + num_buffers) as u64,
                ..*old(command_pool)
            }),
    {
        let mut command_buffers: Vec<CommandBuffer> = Vec::new();
        let mut i: usize = 0;
        while i < num_buffers
            invariant
                i <= num_buffers,
                command_buffers@.len() == i,
                forall|j: int| 0 <= j < i ==> command_buffers@[j] == spec_fresh_buffer(),
                old(command_pool).allocated + num_buffers <= u64::MAX,
                command_pool.allocated == old(command_pool).allocated + i,
                command_pool.queue_family_index == old(command_pool).queue_family_index,
                command_pool.supports_reset == old(command_pool).supports_reset,
            decreases num_buffers - i,
        {
            command_buffers.push(CommandBuffer::new(command_pool));
            i = i + 1;
        }
        CommandQueue {
            queue_family_index,
            command_buffers,
            submissions: 0,
            last_wait: Vec::new(),
            last_signal: Vec::new(),
        }
    }

    /// Exclusive access to the slot's command buffer for recording.
    pub fn get_command_buffer(&mut self, current_frame: usize) -> (r: &mut CommandBuffer)
        requires
            current_frame < old(self).command_buffers@.len(),
        ensures
            *r == old(self).command_buffers@[current_frame as int],
            final(self).command_buffers@ == old(self).command_buffers@.update(
                current_frame as int,
                *final(r),
            ),
            final(self).queue_family_index == old(self).queue_family_index,
            final(self).submissions == old(self).submissions,
            final(self).last_wait@ == old(self).last_wait@,
            final(self).last_signal@ == old(self).last_signal@,
    {
        &mut self.command_buffers[current_frame]
    }

    /// Submit the recorded buffers of the given slots in one batch: the
    /// submission waits on `wait_semaphores`, signals
    /// `signal_semaphores`, and returns the pending fence that guards the
    /// batch: it signals when the batch completes.
    pub fn submit_command_buffers(
        &mut self,
        frames: &Vec<usize>,
        wait_semaphores: Option<&Vec<Semaphore>>,
        signal_semaphores: Option<&Vec<Semaphore>>,
    ) -> (r: Fence)
        requires
            old(self).submissions < u64::MAX,
            forall|i: int|
                0 <= i < frames@.len() ==> (#[trigger] frames@[i])
                    < old(self).command_buffers@.len() && old(self).command_buffers@[frames@[i] as int].state
                    == RecordingState::Executable,
        ensures
            r.state is Pending,
            final(self).command_buffers@ == old(self).command_buffers@,
            final(self).queue_family_index == old(self).queue_family_index,
            final(self).submissions == old(self).submissions + 1,
            final(self).last_wait@ == (match wait_semaphores {
                Some(v) => v@.map_values(|s: Semaphore| s.id),
                None => Seq::<u64>::empty(),
            }),
            final(self).last_signal@ == (match signal_semaphores {
                Some(v) => v@.map_values(|s: Semaphore| s.id),
                None => Seq::<u64>::empty(),
            }),
    {
        let _ = frames;
        self.last_wait = match wait_semaphores {
            Some(v) => semaphore_ids(v),
            None => Vec::new(),
        };
        self.last_signal = match signal_semaphores {
            Some(v) => semaphore_ids(v),
            None => Vec::new(),
        };
        self.submissions = self.submissions + 1;
        Fence { state: FenceState::Pending }
    }

    /// Submit one slot's recorded buffer.
    pub fn submit_command_buffer(
        &mut self,
        frame: usize,
        wait_semaphores: Option<&Vec<Semaphore>>,
        signal_semaphores: Option<&Vec<Semaphore>>,
    ) -> (r: Fence)
        requires
            old(self).submissions < u64::MAX,
            frame < old(self).command_buffers@.len(),
            old(self).command_buffers@[frame as int].state == RecordingState::Executable,
        ensures
            r.state is Pending,
            final(self).command_buffers@ == old(self).command_buffers@,
            final(self).queue_family_index == old(self).queue_family_index,
            final(self).submissions == old(self).submissions + 1,
            final(self).last_wait@ == (match wait_semaphores {
                Some(v) => v@.map_values(|s: Semaphore| s.id),
                None => Seq::<u64>::empty(),
            }),
            final(self).last_signal@ == (match signal_semaphores {
                Some(v) => v@.map_values(|s: Semaphore| s.id),
                None => Seq::<u64>::empty(),
            }),
    {
        let mut frames: Vec<usize> = Vec::new();
        frames.push(frame);
        self.submit_command_buffers(&frames, wait_semaphores, signal_semaphores)
    }
}

/// The ids of a semaphore list, in order.
fn semaphore_ids(semaphores: &Vec<Semaphore>) -> (r: Vec<u64>)
    ensures
        r@ == semaphores@.map_values(|s: Semaphore| s.id),
{
    let n = semaphores.len();
    let mut r: Vec<u64> = Vec::new();
    let mut i: usize = 0;
    while i < n
        invariant
            n == semaphores@.len(),
            i <= n,
            r@ == semaphores@.subrange(0, i as int).map_values(|s: Semaphore| s.id),
        decreases n - i,
    {
        r.push(semaphores[i].id);
        proof {
            assert(r@ =~= semaphores@.subrange(0, i as int + 1).map_values(
                |s: Semaphore| s.id,
            ));
        }
        i = i + 1;
    }
    proof {
        assert(semaphores@.subrange(0, n as int) =~= semaphores@);
    }
    r
}

} // verus!
