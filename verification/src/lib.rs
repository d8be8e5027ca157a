//! A small real-time engine core: an entity/component store, event
//! translation, and a GPU presentation pipeline modelled as verified state
//! machines (swapchain, per-frame synchronization, command recording and
//! submission, and the frame loop that ties them together).

pub mod cmd_queue;
pub mod command_buffer;
pub mod device;
pub mod event;
pub mod frame;
pub mod systems;
pub mod pipeline;
pub mod render_pass;
pub mod shader;
pub mod swapchain;
pub mod sync;
pub mod util;
pub mod window;
pub mod world;

use vstd::prelude::*;

verus! {

/// Fatal startup failure: a required adapter, queue family, extension or
/// shader stage is missing.  These abort startup and are never retried.
#[derive(Clone, Copy, PartialEq, Eq, Structural, Debug)]
pub enum ConfigurationError {
    /// No physical device is suitable for rendering and presentation.
    NoSuitableAdapter,
    /// A required queue family (graphics or present) is absent.
    MissingQueueFamily,
    /// A required device extension is not available.
    MissingExtension,
    /// No candidate format supports the requested features.
    NoSupportedFormat,
    /// A shader stage tag was not recognized.
    UnknownShaderStage,
}

} // verus!
