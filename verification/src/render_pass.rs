//! The render pass: an immutable description of the frame's attachments
//! and its single subpass.
//!
//! A render pass is built for a particular color format, depth format and
//! multisample count; it is invalidated — and must be rebuilt — whenever
//! any of those, or the extent it renders into, changes.

use vstd::prelude::*;

use crate::device::SampleCount;
use crate::swapchain::Format;

verus! {

/// What happens to an attachment's contents when the pass begins.
#[derive(Clone, Copy, PartialEq, Eq, Structural, Debug)]
pub enum AttachmentLoadOp {
    Load,
    Clear,
    DontCare,
}

/// What happens to an attachment's contents when the pass ends.
#[derive(Clone, Copy, PartialEq, Eq, Structural, Debug)]
pub enum AttachmentStoreOp {
    Store,
    DontCare,
}

/// Image layouts an attachment moves between.
#[derive(Clone, Copy, PartialEq, Eq, Structural, Debug)]
pub enum ImageLayout {
    Undefined,
    ColorAttachmentOptimal,
    DepthStencilAttachmentOptimal,
    PresentSrc,
}

/// Which aspect of an image a view exposes.
#[derive(Clone, Copy, PartialEq, Eq, Structural, Debug)]
pub enum ImageAspect {
    Color,
    Depth,
}

/// Views of depth formats expose the depth aspect; everything else is
/// color.
pub open spec fn spec_image_aspect(format: Format) -> ImageAspect {
    match format {
        Format::D32Sfloat => ImageAspect::Depth,
        Format::D32SfloatS8Uint => ImageAspect::Depth,
        Format::D24UnormS8Uint => ImageAspect::Depth,
        _ => ImageAspect::Color,
    }
}

/// The aspect an image view of `format` exposes.
pub fn image_aspect_for_format(format: Format) -> (r: ImageAspect)
    ensures
        r == spec_image_aspect(format),
{
    match format {
        Format::D32Sfloat => ImageAspect::Depth,
        Format::D32SfloatS8Uint => ImageAspect::Depth,
        Format::D24UnormS8Uint => ImageAspect::Depth,
        _ => ImageAspect::Color,
    }
}

/// One attachment of the pass.
#[derive(Clone, Copy, PartialEq, Eq, Structural, Debug)]
pub struct AttachmentDescription {
    pub format: Format,
    pub samples: SampleCount,
    pub load_op: AttachmentLoadOp,
    pub store_op: AttachmentStoreOp,
    pub stencil_load_op: AttachmentLoadOp,
    pub stencil_store_op: AttachmentStoreOp,
    pub initial_layout: ImageLayout,
    pub final_layout: ImageLayout,
}

/// A color attachment, a depth attachment, and a single-sample resolve
/// attachment that ends up presentable, wired to one subpass.
#[derive(Clone, Copy, PartialEq, Eq, Structural, Debug)]
pub struct RenderPass {
    pub color_attachment: AttachmentDescription,
    pub depth_attachment: AttachmentDescription,
    pub resolve_attachment: AttachmentDescription,
    pub msaa_samples: SampleCount,
}

impl RenderPass {
    /// Describe the pass for the given formats and sample count: the
    /// multisampled color attachment keeps its contents per `load_op` and
    /// stores them; the depth attachment is cleared and discarded; the
    /// resolve attachment collapses to one sample and is left ready for
    /// presentation.
    pub fn new(
        color_format: Format,
        depth_format: Format,
        msaa_samples: SampleCount,
        load_op: AttachmentLoadOp,
        initial_layout: ImageLayout,
        final_layout: ImageLayout,
    ) -> (r: RenderPass)
        ensures
            r.color_attachment == (AttachmentDescription {
                format: color_format,
                samples: msaa_samples,
                load_op,
                store_op: AttachmentStoreOp::Store,
                stencil_load_op: AttachmentLoadOp::DontCare,
                stencil_store_op: AttachmentStoreOp::DontCare,
                initial_layout,
                final_layout,
            }),
            r.depth_attachment == (AttachmentDescription {
                format: depth_format,
                samples: msaa_samples,
                load_op: AttachmentLoadOp::Clear,
                store_op: AttachmentStoreOp::DontCare,
                stencil_load_op: AttachmentLoadOp::DontCare,
                stencil_store_op: AttachmentStoreOp::DontCare,
                initial_layout: ImageLayout::Undefined,
                final_layout: ImageLayout::DepthStencilAttachmentOptimal,
            }),
            r.resolve_attachment == (AttachmentDescription {
                format: color_format,
                samples: SampleCount::Type1,
                load_op: AttachmentLoadOp::DontCare,
                store_op: AttachmentStoreOp::Store,
                stencil_load_op: AttachmentLoadOp::DontCare,
                stencil_store_op: AttachmentStoreOp::DontCare,
                initial_layout: ImageLayout::Undefined,
                final_layout: ImageLayout::PresentSrc,
            }),
            r.msaa_samples == msaa_samples,
    {
        let color_attachment = AttachmentDescription {
            format: color_format,
            samples: msaa_samples,
            load_op,
            store_op: AttachmentStoreOp::Store,
            stencil_load_op: AttachmentLoadOp::DontCare,
            stencil_store_op: AttachmentStoreOp::DontCare,
            initial_layout,
            final_layout,
        };
        let depth_attachment = AttachmentDescription {
            format: depth_format,
            samples: msaa_samples,
            load_op: AttachmentLoadOp::Clear,
            store_op: AttachmentStoreOp::DontCare,
            stencil_load_op: AttachmentLoadOp::DontCare,
            stencil_store_op: AttachmentStoreOp::DontCare,
            initial_layout: ImageLayout::Undefined,
            final_layout: ImageLayout::DepthStencilAttachmentOptimal,
        };
        let resolve_attachment = AttachmentDescription {
            format: color_format,
            samples: SampleCount::Type1,
            load_op: AttachmentLoadOp::DontCare,
            store_op: AttachmentStoreOp::Store,
            stencil_load_op: AttachmentLoadOp::DontCare,
            stencil_store_op: AttachmentStoreOp::DontCare,
            initial_layout: ImageLayout::Undefined,
            final_layout: ImageLayout::PresentSrc,
        };
        RenderPass { color_attachment, depth_attachment, resolve_attachment, msaa_samples }
    }

    pub fn get_sample_count(&self) -> (r: SampleCount)
        ensures
            r == self.msaa_samples,
    {
        self.msaa_samples
    }
}

} // verus!
