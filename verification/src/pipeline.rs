//! The graphics pipeline: compiled shader stages plus fixed-function
//! state, bound to a render pass and an extent.
//!
//! A pipeline is wholly immutable once built; any change of extent,
//! format, sample count or shader set requires a full rebuild, done off
//! to the side and swapped in only once no in-flight frame references the
//! old one.

use vstd::prelude::*;

use crate::device::SampleCount;
use crate::render_pass::RenderPass;
use crate::shader::ShaderStage;
use crate::swapchain::{Extent2D, Format};

verus! {

/// Which triangle faces are culled.
#[derive(Clone, Copy, PartialEq, Eq, Structural, Debug)]
pub enum CullMode {
    NoCull,
    Front,
    Back,
}

/// Compiled shader stages and fixed-function state, built against one
/// render pass and one viewport extent.
#[derive(Clone, Debug)]
pub struct Pipeline {
    pub extent: Extent2D,
    pub color_format: Format,
    pub depth_format: Format,
    pub samples: SampleCount,
    pub stages: Vec<ShaderStage>,
    pub cull_mode: CullMode,
    pub depth_test_enabled: bool,
}

impl Pipeline {
    /// Build the pipeline for the given extent and render pass; its
    /// formats and sample count are exactly the pass's own.
    pub fn new(
        extent: Extent2D,
        render_pass: &RenderPass,
        stages: Vec<ShaderStage>,
        cull_mode: CullMode,
        depth_test_enabled: bool,
    ) -> (r: Pipeline)
        ensures
            r.extent == extent,
            r.color_format == render_pass.color_attachment.format,
            r.depth_format == render_pass.depth_attachment.format,
            r.samples == render_pass.msaa_samples,
            r.stages@ == stages@,
            r.cull_mode == cull_mode,
            r.depth_test_enabled == depth_test_enabled,
    {
        Pipeline {
            extent,
            color_format: render_pass.color_attachment.format,
            depth_format: render_pass.depth_attachment.format,
            samples: render_pass.msaa_samples,
            stages,
            cull_mode,
            depth_test_enabled,
        }
    }

    pub fn get_extent(&self) -> (r: Extent2D)
        ensures
            r == self.extent,
    {
        self.extent
    }
}

} // verus!
