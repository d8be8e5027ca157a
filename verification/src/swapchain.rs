//! Swapchain configuration and the swapchain state machine.
//!
//! The swapchain owns the presentable image chain.  Its configuration
//! (surface format, present mode, extent, image count) is chosen here from
//! the surface's reported capabilities; the choices are exact functions of
//! their inputs and are stated as such.

use vstd::prelude::*;

use crate::sync::{Fence, FenceState, Semaphore};

verus! {

/// A two-dimensional pixel extent.
#[derive(Clone, Copy, PartialEq, Eq, Structural, Debug)]
pub struct Extent2D {
    pub width: u32,
    pub height: u32,
}

impl Extent2D {
    /// An extent is degenerate when either dimension is zero; rendering is
    /// suspended rather than creating a zero-sized swapchain.
    pub open spec fn spec_is_zero(self) -> bool {
        self.width == 0 || self.height == 0
    }

    pub fn is_zero(&self) -> (r: bool)
        ensures
            r == self.spec_is_zero(),
    {
        self.width == 0 || self.height == 0
    }
}

/// Surface capabilities as reported by the presentation engine.
///
/// `max_image_count == 0` means the surface places no upper bound on the
/// number of swapchain images.  A `current_extent.width` of `u32::MAX` means
/// the surface lets the swapchain pick its own extent within
/// `min_image_extent ..= max_image_extent`.
#[derive(Clone, Copy, PartialEq, Eq, Structural, Debug)]
pub struct SurfaceCapabilities {
    pub min_image_count: u32,
    pub max_image_count: u32,
    pub current_extent: Extent2D,
    pub min_image_extent: Extent2D,
    pub max_image_extent: Extent2D,
}

impl SurfaceCapabilities {
    /// The surface's stated bounds are consistent: minima do not exceed
    /// maxima, and at least one image can always be created.
    pub open spec fn wf(self) -> bool {
        &&& self.min_image_extent.width <= self.max_image_extent.width
        &&& self.min_image_extent.height <= self.max_image_extent.height
        &&& self.min_image_count >= 1
        &&& self.min_image_count < u32::MAX
        &&& (self.max_image_count > 0 ==> self.min_image_count <= self.max_image_count)
    }
}

/// Clamp `x` into `lo ..= hi`.
pub open spec fn spec_clamp_u32(x: u32, lo: u32, hi: u32) -> u32 {
    if x < lo {
        lo
    } else if x > hi {
        hi
    } else {
        x
    }
}

pub fn clamp_u32(x: u32, lo: u32, hi: u32) -> (r: u32)
    requires
        lo <= hi,
    ensures
        r == spec_clamp_u32(x, lo, hi),
        lo <= r <= hi,
{
    if x < lo {
        lo
    } else if x > hi {
        hi
    } else {
        x
    }
}

/// The extent the swapchain is created with: the surface's own extent when
/// the surface fixes one, otherwise the requested size clamped to the
/// surface's bounds.
pub open spec fn spec_chosen_extent(caps: SurfaceCapabilities, width: u32, height: u32) -> Extent2D {
    if caps.current_extent.width != u32::MAX {
        caps.current_extent
    } else {
        Extent2D {
            width: spec_clamp_u32(width, caps.min_image_extent.width, caps.max_image_extent.width),
            height: spec_clamp_u32(
                height,
                caps.min_image_extent.height,
                caps.max_image_extent.height,
            ),
        }
    }
}

/// Choose the swapchain extent from the surface capabilities and the
/// requested framebuffer size.
pub fn choose_swapchain_extent(caps: &SurfaceCapabilities, width: u32, height: u32) -> (r: Extent2D)
    requires
        caps.wf(),
    ensures
        r == spec_chosen_extent(*caps, width, height),
{
    if caps.current_extent.width != u32::MAX {
        caps.current_extent
    } else {
        Extent2D {
            width: clamp_u32(width, caps.min_image_extent.width, caps.max_image_extent.width),
            height: clamp_u32(height, caps.min_image_extent.height, caps.max_image_extent.height),
        }
    }
}

/// The number of images the swapchain is created with: one more than the
/// surface's minimum, capped by the surface's maximum when it has one.
pub open spec fn spec_chosen_image_count(caps: SurfaceCapabilities) -> u32 {
    let wanted = (caps.min_image_count + 1) as u32;
    if caps.max_image_count > 0 && wanted > caps.max_image_count {
        caps.max_image_count
    } else {
        wanted
    }
}

pub fn choose_image_count(caps: &SurfaceCapabilities) -> (r: u32)
    requires
        caps.wf(),
    ensures
        r == spec_chosen_image_count(*caps),
        r >= caps.min_image_count,
        caps.max_image_count > 0 ==> r <= caps.max_image_count,
{
    let wanted = caps.min_image_count + 1;
    if caps.max_image_count > 0 && wanted > caps.max_image_count {
        caps.max_image_count
    } else {
        wanted
    }
}

/// Pixel formats the presentation engine distinguishes.  Formats outside
/// this set are carried through as their raw format code.
#[derive(Clone, Copy, PartialEq, Eq, Structural, Debug)]
pub enum Format {
    B8G8R8A8Srgb,
    D32Sfloat,
    D32SfloatS8Uint,
    D24UnormS8Uint,
    Other(u32),
}

/// Color spaces the presentation engine distinguishes.
#[derive(Clone, Copy, PartialEq, Eq, Structural, Debug)]
pub enum ColorSpace {
    SrgbNonlinear,
    Other(u32),
}

/// How the presentation engine paces image delivery.
#[derive(Clone, Copy, PartialEq, Eq, Structural, Debug)]
pub enum PresentMode {
    Immediate,
    Mailbox,
    Fifo,
    FifoRelaxed,
    Other(u32),
}

/// A supported surface format: a pixel format together with a color space.
#[derive(Clone, Copy, PartialEq, Eq, Structural, Debug)]
pub struct SurfaceFormat {
    pub format: Format,
    pub color_space: ColorSpace,
}

/// Feature masks a format supports under linear and optimal tiling.
#[derive(Clone, Copy, PartialEq, Eq, Structural, Debug)]
pub struct FormatProperties {
    pub linear_tiling_features: u32,
    pub optimal_tiling_features: u32,
}

/// A format paired with its reported properties.
#[derive(Clone, Copy, PartialEq, Eq, Structural, Debug)]
pub struct FormatSupport {
    pub format: Format,
    pub properties: FormatProperties,
}

/// Image tiling modes relevant to format selection.
#[derive(Clone, Copy, PartialEq, Eq, Structural, Debug)]
pub enum ImageTiling {
    Linear,
    Optimal,
}

/// Feature bit: the format can back a depth/stencil attachment.
pub const FORMAT_FEATURE_DEPTH_STENCIL_ATTACHMENT: u32 = 0x200;

/// The surface format the swapchain prefers: 8-bit BGRA sRGB.
pub open spec fn spec_is_preferred_format(f: SurfaceFormat) -> bool {
    f.format == Format::B8G8R8A8Srgb && f.color_space == ColorSpace::SrgbNonlinear
}

/// The chosen surface format: the preferred one when available, otherwise
/// the first the surface offers.
pub open spec fn spec_chosen_format(formats: Seq<SurfaceFormat>) -> SurfaceFormat {
    if exists|i: int| 0 <= i < formats.len() && spec_is_preferred_format(formats[i]) {
        SurfaceFormat { format: Format::B8G8R8A8Srgb, color_space: ColorSpace::SrgbNonlinear }
    } else {
        formats[0]
    }
}

/// Choose the swapchain's surface format from what the surface offers.
pub fn choose_swapchain_format(available_formats: &Vec<SurfaceFormat>) -> (r: SurfaceFormat)
    requires
        available_formats@.len() > 0,
    ensures
        r == spec_chosen_format(available_formats@),
{
    let n = available_formats.len();
    let mut i: usize = 0;
    while i < n
        invariant
            n == available_formats@.len(),
            0 <= i <= n,
            forall|j: int| 0 <= j < i ==> !spec_is_preferred_format(available_formats@[j]),
        decreases n - i,
    {
        let f = available_formats[i];
        if matches!(f.format, Format::B8G8R8A8Srgb) && matches!(
            f.color_space,
            ColorSpace::SrgbNonlinear,
        ) {
            return f;
        }
        i = i + 1;
    }
    available_formats[0]
}

/// The chosen present mode: mailbox when offered, otherwise FIFO, which
/// every surface supports.
pub open spec fn spec_chosen_present_mode(modes: Seq<PresentMode>) -> PresentMode {
    if modes.contains(PresentMode::Mailbox) {
        PresentMode::Mailbox
    } else {
        PresentMode::Fifo
    }
}

/// Choose the present mode from what the surface offers.
pub fn choose_swapchain_present_mode(available_present_modes: &Vec<PresentMode>) -> (r: PresentMode)
    ensures
        r == spec_chosen_present_mode(available_present_modes@),
{
    let n = available_present_modes.len();
    let mut i: usize = 0;
    while i < n
        invariant
            n == available_present_modes@.len(),
            0 <= i <= n,
            forall|j: int| 0 <= j < i ==> available_present_modes@[j] != PresentMode::Mailbox,
        decreases n - i,
    {
        if matches!(available_present_modes[i], PresentMode::Mailbox) {
            assert(available_present_modes@.contains(available_present_modes@[i as int]));
            return PresentMode::Mailbox;
        }
        i = i + 1;
    }
    assert(forall|j: int|
        0 <= j < available_present_modes@.len() ==> available_present_modes@[j]
            != PresentMode::Mailbox);
    PresentMode::Fifo
}

/// Whether a format supports the given features under the given tiling.
pub open spec fn spec_format_supports(fs: FormatSupport, tiling: ImageTiling, features: u32) -> bool {
    match tiling {
        ImageTiling::Linear => fs.properties.linear_tiling_features & features == features,
        ImageTiling::Optimal => fs.properties.optimal_tiling_features & features == features,
    }
}

/// The first of the listed formats that supports the features, if any.
pub open spec fn spec_first_supported(
    supports: Seq<FormatSupport>,
    tiling: ImageTiling,
    features: u32,
) -> Option<Format>
    decreases supports.len(),
{
    if supports.len() == 0 {
        None
    } else if spec_format_supports(supports[0], tiling, features) {
        Some(supports[0].format)
    } else {
        spec_first_supported(supports.drop_first(), tiling, features)
    }
}

/// Find the first candidate format that supports `features` under
/// `tiling`; fails with a configuration error when none does.
pub fn find_supported_format(
    candidate_formats: &Vec<FormatSupport>,
    tiling: ImageTiling,
    features: u32,
) -> (r: Result<Format, crate::ConfigurationError>)
    ensures
        r == match spec_first_supported(candidate_formats@, tiling, features) {
            Some(f) => Result::<Format, crate::ConfigurationError>::Ok(f),
            None => Result::<Format, crate::ConfigurationError>::Err(
                crate::ConfigurationError::NoSupportedFormat,
            ),
        },
{
    let n = candidate_formats.len();
    let mut i: usize = 0;
    proof {
        assert(candidate_formats@.skip(0) =~= candidate_formats@);
    }
    while i < n
        invariant
            n == candidate_formats@.len(),
            0 <= i <= n,
            spec_first_supported(candidate_formats@, tiling, features) == spec_first_supported(
                candidate_formats@.skip(i as int),
                tiling,
                features,
            ),
        decreases n - i,
    {
        let fs = candidate_formats[i];
        let feats = match tiling {
            ImageTiling::Linear => fs.properties.linear_tiling_features,
            ImageTiling::Optimal => fs.properties.optimal_tiling_features,
        };
        proof {
            assert(candidate_formats@.skip(i as int)[0] == candidate_formats@[i as int]);
        }
        if feats & features == features {
            return Ok(fs.format);
        }
        proof {
            assert(candidate_formats@.skip(i as int).drop_first() =~= candidate_formats@.skip(
                i as int + 1,
            ));
        }
        i = i + 1;
    }
    Err(crate::ConfigurationError::NoSupportedFormat)
}

/// Depth formats in preference order.
pub open spec fn spec_depth_candidates() -> Seq<Format> {
    seq![Format::D32Sfloat, Format::D32SfloatS8Uint, Format::D24UnormS8Uint]
}

/// The reported properties of `f`, if the surface reported any.
pub open spec fn spec_props_of(supports: Seq<FormatSupport>, f: Format) -> Option<FormatProperties>
    decreases supports.len(),
{
    if supports.len() == 0 {
        None
    } else if supports[0].format == f {
        Some(supports[0].properties)
    } else {
        spec_props_of(supports.drop_first(), f)
    }
}

/// Whether `f`'s reported properties support depth/stencil attachment use
/// under optimal tiling.
pub open spec fn spec_depth_usable(supports: Seq<FormatSupport>, f: Format) -> bool {
    match spec_props_of(supports, f) {
        Some(p) => p.optimal_tiling_features & FORMAT_FEATURE_DEPTH_STENCIL_ATTACHMENT
            == FORMAT_FEATURE_DEPTH_STENCIL_ATTACHMENT,
        None => false,
    }
}

/// The first depth candidate usable on this surface, if any.
pub open spec fn spec_first_depth(candidates: Seq<Format>, supports: Seq<FormatSupport>) -> Option<
    Format,
>
    decreases candidates.len(),
{
    if candidates.len() == 0 {
        None
    } else if spec_depth_usable(supports, candidates[0]) {
        Some(candidates[0])
    } else {
        spec_first_depth(candidates.drop_first(), supports)
    }
}

/// The depth format the swapchain is created with.
pub open spec fn spec_optimal_depth_format(supports: Seq<FormatSupport>) -> Result<
    Format,
    crate::ConfigurationError,
> {
    match spec_first_depth(spec_depth_candidates(), supports) {
        Some(f) => Ok(f),
        None => Err(crate::ConfigurationError::NoSupportedFormat),
    }
}

/// Look up the reported properties of `f`.
fn props_of(supports: &Vec<FormatSupport>, f: Format) -> (r: Option<FormatProperties>)
    ensures
        r == spec_props_of(supports@, f),
{
    let n = supports.len();
    let mut i: usize = 0;
    proof {
        assert(supports@.skip(0) =~= supports@);
    }
    while i < n
        invariant
            n == supports@.len(),
            0 <= i <= n,
            spec_props_of(supports@, f) == spec_props_of(supports@.skip(i as int), f),
        decreases n - i,
    {
        proof {
            assert(supports@.skip(i as int)[0] == supports@[i as int]);
        }
        if supports[i].format == f {
            return Some(supports[i].properties);
        }
        proof {
            assert(supports@.skip(i as int).drop_first() =~= supports@.skip(i as int + 1));
        }
        i = i + 1;
    }
    None
}

/// Pick the depth attachment format: the first of the engine's preferred
/// depth formats that this surface supports for optimal-tiling
/// depth/stencil use.
pub fn get_optimal_depth_format(supports: &Vec<FormatSupport>) -> (r: Result<
    Format,
    crate::ConfigurationError,
>)
    ensures
        r == spec_optimal_depth_format(supports@),
{
    let mut candidates: Vec<Format> = Vec::new();
    candidates.push(Format::D32Sfloat);
    candidates.push(Format::D32SfloatS8Uint);
    candidates.push(Format::D24UnormS8Uint);
    proof {
        assert(candidates@ =~= spec_depth_candidates());
    }
    let n = candidates.len();
    let mut i: usize = 0;
    proof {
        assert(candidates@.skip(0) =~= candidates@);
    }
    while i < n
        invariant
            n == candidates@.len(),
            candidates@ == spec_depth_candidates(),
            0 <= i <= n,
            spec_first_depth(spec_depth_candidates(), supports@) == spec_first_depth(
                candidates@.skip(i as int),
                supports@,
            ),
        decreases n - i,
    {
        proof {
            assert(candidates@.skip(i as int)[0] == candidates@[i as int]);
        }
        let c = candidates[i];
        match props_of(supports, c) {
            Some(p) => {
                if p.optimal_tiling_features & FORMAT_FEATURE_DEPTH_STENCIL_ATTACHMENT
                    == FORMAT_FEATURE_DEPTH_STENCIL_ATTACHMENT {
                    return Ok(c);
                }
            },
            None => {},
        }
        proof {
            assert(candidates@.skip(i as int).drop_first() =~= candidates@.skip(i as int + 1));
        }
        i = i + 1;
    }
    Err(crate::ConfigurationError::NoSupportedFormat)
}

/// Frame slots rotated by the frame loop: the bound on frames in flight.
pub const MAX_FRAMES_IN_FLIGHT: usize = 3;

/// Lifecycle of the presentable image chain.  A resize notification or a
/// suboptimal/out-of-date presentation result makes a valid chain stale;
/// rebuilding waits for the device to go idle, destroys the old chain and
/// creates a new one sized to the current surface extent.
#[derive(Clone, Copy, PartialEq, Eq, Structural, Debug)]
pub enum SwapchainState {
    Valid,
    Stale,
    Rebuilding,
}

/// One of N reusable synchronization sets, rotated once per tick.  The
/// fence gates reuse of the slot's command buffer; the two semaphores
/// order acquire, submission and presentation on the GPU timeline.
#[derive(Clone, Copy, PartialEq, Eq, Structural, Debug)]
pub struct FrameSlot {
    pub fence: Fence,
    pub image_available: Semaphore,
    pub render_finished: Semaphore,
    /// How many times this slot's fence has been waited on.
    pub waits: u64,
}

/// What the presentation engine answered to an acquire request.
#[derive(Clone, Copy, PartialEq, Eq, Structural, Debug)]
pub enum AcquireOutcome {
    /// The image with this index is (or will be) ready for rendering.
    Image(u32),
    /// The chain no longer matches the surface and must be rebuilt.
    OutOfDate,
}

/// What the presentation engine answered to a present request.
#[derive(Clone, Copy, PartialEq, Eq, Structural, Debug)]
pub enum PresentOutcome {
    Success,
    /// The image was presented, but the chain no longer matches the
    /// surface perfectly; recreation is queued, not forced.
    Suboptimal,
    /// The chain no longer matches the surface and must be rebuilt.
    OutOfDate,
}

/// Recoverable presentation failures; contained by recreation and never
/// surfaced to the caller of the frame loop.
#[derive(Clone, Copy, PartialEq, Eq, Structural, Debug)]
pub enum TransientPresentationError {
    SwapChainOutOfDate,
}

/// Failure of a present request itself.
#[derive(Clone, Copy, PartialEq, Eq, Structural, Debug)]
pub enum PresentError {
    /// `present` was called without a preceding successful acquire in the
    /// same tick.
    NoAcquiredImage,
}

/// The presentable image chain together with its per-slot synchronization
/// state.  `image_count` (M) is independent of the number of frame slots
/// (N); the slot index always advances modulo N.
#[derive(Clone, Debug)]
pub struct SwapChain {
    pub state: SwapchainState,
    pub extent: Extent2D,
    pub color_format: SurfaceFormat,
    pub depth_format: Format,
    pub present_mode: PresentMode,
    /// Number of presentable images (M).
    pub image_count: u32,
    /// The N frame slots.
    pub slots: Vec<FrameSlot>,
    /// Index of the slot used by the current tick; always `< slots.len()`.
    pub current_frame: usize,
    /// Index of the most recently acquired image.
    pub current_image: u32,
    /// An image has been acquired this tick and not yet presented.
    pub image_acquired: bool,
    /// Total acquire requests made.
    pub acquires: u64,
    /// Total present requests carried out.
    pub presents: u64,
}

/// The synchronization objects a fresh slot `i` is created with: a
/// signaled fence (so the first wait returns at once) and the slot's two
/// semaphores.
pub open spec fn spec_initial_slot(i: int) -> FrameSlot {
    FrameSlot {
        fence: Fence { state: FenceState::Signaled },
        image_available: Semaphore { id: (2 * i) as u64 },
        render_finished: Semaphore { id: (2 * i + 1) as u64 },
        waits: 0,
    }
}

/// A slot after its fence has been waited on: the fence is signaled, not
/// yet reset.
pub open spec fn spec_waited_slot(s: FrameSlot) -> FrameSlot {
    FrameSlot {
        fence: Fence { state: FenceState::Signaled },
        waits: (s.waits + 1) as u64,
        ..s
    }
}

/// A slot after its fence has been waited on and reset for reuse: the
/// fence is unsignaled until this tick's submission replaces it.
pub open spec fn spec_reset_slot(s: FrameSlot) -> FrameSlot {
    FrameSlot {
        fence: Fence { state: FenceState::Unsignaled },
        waits: (s.waits + 1) as u64,
        ..s
    }
}

impl SwapChain {
    /// Structural invariant of the chain.  An unsignaled fence guards
    /// nothing and waiting on it would never return; the only slot whose
    /// fence may be unsignaled is the current one, mid-tick, between its
    /// reset in `next_image` and its replacement in `present`.
    pub open spec fn wf(self) -> bool {
        &&& self.slots@.len() >= 1
        &&& self.current_frame < self.slots@.len()
        &&& self.image_count >= 1
        &&& (self.image_acquired ==> self.state == SwapchainState::Valid && self.current_image
            < self.image_count)
        &&& (self.state == SwapchainState::Valid ==> !self.extent.spec_is_zero())
        &&& (forall|i: int|
            0 <= i < self.slots@.len() ==> (#[trigger] self.slots@[i]).image_available.id == 2 * i
                && self.slots@[i].render_finished.id == 2 * i + 1)
        &&& (forall|i: int|
            0 <= i < self.slots@.len() && (#[trigger] self.slots@[i]).fence.state is Unsignaled
                ==> self.image_acquired && i == self.current_frame)
    }

    /// Number of submissions whose completion the CPU has not observed.
    pub open spec fn spec_frames_in_flight(self) -> int {
        self.slots@.filter(|s: FrameSlot| s.fence.state is Pending).len() as int
    }

    /// Create the chain from the surface's capabilities: format, present
    /// mode, extent and image count are each the exact stated function of
    /// what the surface offers, and every slot starts with a signaled
    /// fence.  Fails only when no depth format is usable.
    pub fn new(
        caps: &SurfaceCapabilities,
        formats: &Vec<SurfaceFormat>,
        present_modes: &Vec<PresentMode>,
        depth_supports: &Vec<FormatSupport>,
        width: u32,
        height: u32,
        num_slots: usize,
    ) -> (r: Result<SwapChain, crate::ConfigurationError>)
        requires
            caps.wf(),
            formats@.len() > 0,
            1 <= num_slots <= 0xFFFF_FFFF,
            !spec_chosen_extent(*caps, width, height).spec_is_zero(),
        ensures
            r matches Ok(sc) ==> {
                &&& sc.wf()
                &&& sc.state == SwapchainState::Valid
                &&& sc.extent == spec_chosen_extent(*caps, width, height)
                &&& sc.color_format == spec_chosen_format(formats@)
                &&& sc.present_mode == spec_chosen_present_mode(present_modes@)
                &&& spec_optimal_depth_format(depth_supports@) == Ok::<
                    Format,
                    crate::ConfigurationError,
                >(sc.depth_format)
                &&& sc.image_count == spec_chosen_image_count(*caps)
                &&& sc.slots@.len() == num_slots
                &&& (forall|i: int| 0 <= i < num_slots ==> sc.slots@[i] == spec_initial_slot(i))
                &&& sc.current_frame == 0
                &&& sc.current_image == 0
                &&& !sc.image_acquired
                &&& sc.acquires == 0
                &&& sc.presents == 0
            },
            r matches Err(e) ==> Err::<Format, crate::ConfigurationError>(e)
                == spec_optimal_depth_format(depth_supports@),
            r is Ok <==> spec_optimal_depth_format(depth_supports@) is Ok,
    {
        let surface_format = choose_swapchain_format(formats);
        let present_mode = choose_swapchain_present_mode(present_modes);
        let extent = choose_swapchain_extent(caps, width, height);
        let image_count = choose_image_count(caps);
        let depth_format = match get_optimal_depth_format(depth_supports) {
            Ok(f) => f,
            Err(e) => {
                return Err(e);
            },
        };

        let mut slots: Vec<FrameSlot> = Vec::new();
        let mut i: usize = 0;
        while i < num_slots
            invariant
                i <= num_slots <= 0xFFFF_FFFF,
                slots@.len() == i,
                forall|j: int| 0 <= j < i ==> slots@[j] == spec_initial_slot(j),
            decreases num_slots - i,
        {
            let image_available = Semaphore::new(2 * (i as u64));
            let render_finished = Semaphore::new(2 * (i as u64) + 1);
            slots.push(
                FrameSlot { fence: Fence::new(true), image_available, render_finished, waits: 0 },
            );
            i = i + 1;
        }

        proof {
            assert forall|j: int| 0 <= j < slots@.len() implies (#[trigger] slots@[j]).image_available.id
                == 2 * j && slots@[j].render_finished.id == 2 * j + 1 && !(slots@[j].fence.state
                is Unsignaled) by {
                assert(slots@[j] == spec_initial_slot(j));
            }
        }
        Ok(
            SwapChain {
                state: SwapchainState::Valid,
                extent,
                color_format: surface_format,
                depth_format,
                present_mode,
                image_count,
                slots,
                current_frame: 0,
                current_image: 0,
                image_acquired: false,
                acquires: 0,
                presents: 0,
            },
        )
    }

    pub fn get_extent(&self) -> (r: Extent2D)
        ensures
            r == self.extent,
    {
        self.extent
    }

    pub fn get_color_format(&self) -> (r: Format)
        ensures
            r == self.color_format.format,
    {
        self.color_format.format
    }

    pub fn get_depth_format(&self) -> (r: Format)
        ensures
            r == self.depth_format,
    {
        self.depth_format
    }

    /// One framebuffer exists per presentable image.
    pub fn get_framebuffer_count(&self) -> (r: usize)
        ensures
            r == self.image_count as usize,
    {
        self.image_count as usize
    }

    pub fn get_current_frame(&self) -> (r: usize)
        ensures
            r == self.current_frame,
    {
        self.current_frame
    }

    pub fn get_current_image(&self) -> (r: u32)
        ensures
            r == self.current_image,
    {
        self.current_image
    }

    /// The current slot's image-available semaphore: a submission using
    /// the acquired image must wait on it.
    pub fn image_available_semaphore(&self) -> (r: Semaphore)
        requires
            self.wf(),
        ensures
            r == self.slots@[self.current_frame as int].image_available,
    {
        self.slots[self.current_frame].image_available
    }

    /// The current slot's render-finished semaphore: presentation must
    /// wait on it.
    pub fn render_finished_semaphore(&self) -> (r: Semaphore)
        requires
            self.wf(),
        ensures
            r == self.slots@[self.current_frame as int].render_finished,
    {
        self.slots[self.current_frame].render_finished
    }

    /// Acquire the next presentable image for the current slot.
    ///
    /// First waits on the slot's fence — the sole mechanism bounding
    /// frames in flight — then resets it for reuse.  `acquire` is what the
    /// presentation engine answered; an out-of-date answer makes the chain
    /// stale and is returned as a transient error for the caller to
    /// recover by recreation.
    pub fn next_image(&mut self, acquire: AcquireOutcome) -> (r: Result<
        u32,
        TransientPresentationError,
    >)
        requires
            old(self).wf(),
            old(self).state == SwapchainState::Valid,
            !old(self).image_acquired,
            acquire matches AcquireOutcome::Image(i) ==> i < old(self).image_count,
            old(self).slots@[old(self).current_frame as int].waits < u64::MAX,
            old(self).acquires < u64::MAX,
        ensures
            final(self).wf(),
            final(self).current_frame == old(self).current_frame,
            final(self).extent == old(self).extent,
            final(self).color_format == old(self).color_format,
            final(self).depth_format == old(self).depth_format,
            final(self).present_mode == old(self).present_mode,
            final(self).image_count == old(self).image_count,
            final(self).acquires == old(self).acquires + 1,
            final(self).presents == old(self).presents,
            match acquire {
                AcquireOutcome::Image(i) => {
                    &&& r == Ok::<u32, TransientPresentationError>(i)
                    &&& final(self).slots@ == old(self).slots@.update(
                        old(self).current_frame as int,
                        spec_reset_slot(old(self).slots@[old(self).current_frame as int]),
                    )
                    &&& final(self).current_image == i
                    &&& final(self).image_acquired
                    &&& final(self).state == SwapchainState::Valid
                },
                AcquireOutcome::OutOfDate => {
                    &&& r == Err::<u32, TransientPresentationError>(
                        TransientPresentationError::SwapChainOutOfDate,
                    )
                    &&& final(self).slots@ == old(self).slots@.update(
                        old(self).current_frame as int,
                        spec_waited_slot(old(self).slots@[old(self).current_frame as int]),
                    )
                    &&& final(self).state == SwapchainState::Stale
                    &&& !final(self).image_acquired
                    &&& final(self).current_image == old(self).current_image
                },
            },
    {
        let cur = self.current_frame;
        let mut slot = self.slots[cur];
        proof {
            // The slot's fence guards the previous submission or is
            // signaled from creation; a mid-tick unsignaled fence would
            // mean an image is already acquired, excluded above.
            assert(!(slot.fence.state is Unsignaled));
        }
        slot.fence.wait();
        slot.waits = slot.waits + 1;
        self.acquires = self.acquires + 1;
        match acquire {
            AcquireOutcome::Image(i) => {
                slot.fence.reset();
                self.slots[cur] = slot;
                self.current_image = i;
                self.image_acquired = true;
                Ok(i)
            },
            AcquireOutcome::OutOfDate => {
                self.slots[cur] = slot;
                self.state = SwapchainState::Stale;
                self.image_acquired = false;
                Err(TransientPresentationError::SwapChainOutOfDate)
            },
        }
    }

    /// Present the acquired image.
    ///
    /// Fails deterministically, leaving the chain untouched, when no image
    /// was acquired this tick.  Otherwise the submission's fence replaces
    /// the slot's fence — so the next cycle of this slot waits on the
    /// right submission — the slot index advances modulo N, and a
    /// suboptimal or out-of-date answer marks the chain stale so that
    /// recreation is queued; neither is surfaced as an error.
    pub fn present(
        &mut self,
        fence: &Fence,
        wait_semaphores: &Vec<Semaphore>,
        outcome: PresentOutcome,
    ) -> (r: Result<(), PresentError>)
        requires
            old(self).wf(),
            old(self).presents < u64::MAX,
            old(self).image_acquired ==> fence.state is Pending,
            old(self).image_acquired ==> wait_semaphores@ =~= seq![
                old(self).slots@[old(self).current_frame as int].render_finished,
            ],
        ensures
            final(self).wf(),
            !old(self).image_acquired ==> r == Err::<(), PresentError>(PresentError::NoAcquiredImage)
                && *final(self) == *old(self),
            old(self).image_acquired ==> {
                &&& r == Ok::<(), PresentError>(())
                &&& final(self).slots@ == old(self).slots@.update(
                    old(self).current_frame as int,
                    FrameSlot {
                        fence: *fence,
                        ..old(self).slots@[old(self).current_frame as int]
                    },
                )
                &&& final(self).current_frame == (old(self).current_frame + 1) % (
                old(self).slots@.len() as int)
                &&& !final(self).image_acquired
                &&& final(self).presents == old(self).presents + 1
                &&& final(self).acquires == old(self).acquires
                &&& final(self).state == (match outcome {
                    PresentOutcome::Success => SwapchainState::Valid,
                    _ => SwapchainState::Stale,
                })
                &&& final(self).current_image == old(self).current_image
                &&& final(self).extent == old(self).extent
                &&& final(self).color_format == old(self).color_format
                &&& final(self).depth_format == old(self).depth_format
                &&& final(self).present_mode == old(self).present_mode
                &&& final(self).image_count == old(self).image_count
            },
    {
        if !self.image_acquired {
            return Err(PresentError::NoAcquiredImage);
        }
        let cur = self.current_frame;
        let mut slot = self.slots[cur];
        slot.fence = *fence;
        self.slots[cur] = slot;
        self.presents = self.presents + 1;
        self.image_acquired = false;
        match outcome {
            PresentOutcome::Success => {},
            PresentOutcome::Suboptimal => {
                self.state = SwapchainState::Stale;
            },
            PresentOutcome::OutOfDate => {
                self.state = SwapchainState::Stale;
            },
        }
        let n = self.slots.len();
        proof {
            assert(self.current_frame < n);
        }
        self.current_frame = (self.current_frame + 1) % n;
        Ok(())
    }

    /// An external resize notification: the chain no longer matches the
    /// surface.
    pub fn mark_stale(&mut self)
        ensures
            *final(self) == (SwapChain { state: SwapchainState::Stale, ..*old(self) }),
    {
        self.state = SwapchainState::Stale;
    }

    /// First half of recreation: wait for the device to go idle — after
    /// which no submission is outstanding — and retire the old chain.
    pub fn begin_rebuild(&mut self)
        requires
            old(self).wf(),
            old(self).state == SwapchainState::Stale,
        ensures
            final(self).wf(),
            final(self).state == SwapchainState::Rebuilding,
            final(self).slots@.len() == old(self).slots@.len(),
            forall|i: int|
                0 <= i < old(self).slots@.len() ==> final(self).slots@[i] == (FrameSlot {
                    fence: Fence { state: FenceState::Signaled },
                    ..old(self).slots@[i]
                }),
            !final(self).image_acquired,
            final(self).current_frame == old(self).current_frame,
            final(self).extent == old(self).extent,
            final(self).color_format == old(self).color_format,
            final(self).depth_format == old(self).depth_format,
            final(self).present_mode == old(self).present_mode,
            final(self).image_count == old(self).image_count,
            final(self).current_image == old(self).current_image,
            final(self).acquires == old(self).acquires,
            final(self).presents == old(self).presents,
    {
        let n = self.slots.len();
        let mut i: usize = 0;
        while i < n
            invariant
                n == self.slots@.len(),
                i <= n,
                self.slots@.len() == old(self).slots@.len(),
                forall|j: int|
                    0 <= j < i ==> self.slots@[j] == (FrameSlot {
                        fence: Fence { state: FenceState::Signaled },
                        ..old(self).slots@[j]
                    }),
                forall|j: int| i <= j < n ==> self.slots@[j] == old(self).slots@[j],
                self.state == old(self).state,
                self.extent == old(self).extent,
                self.color_format == old(self).color_format,
                self.depth_format == old(self).depth_format,
                self.present_mode == old(self).present_mode,
                self.image_count == old(self).image_count,
                self.current_frame == old(self).current_frame,
                self.current_image == old(self).current_image,
                self.image_acquired == old(self).image_acquired,
                self.acquires == old(self).acquires,
                self.presents == old(self).presents,
            decreases n - i,
        {
            let mut slot = self.slots[i];
            slot.fence = Fence::new(true);
            self.slots[i] = slot;
            i = i + 1;
        }
        self.state = SwapchainState::Rebuilding;
        self.image_acquired = false;
    }

    /// Second half of recreation: create the new chain sized to the
    /// current surface extent.  The frame slots and their wait counts
    /// survive; the configuration is rechosen exactly as at creation.
    pub fn complete_rebuild(
        &mut self,
        caps: &SurfaceCapabilities,
        formats: &Vec<SurfaceFormat>,
        present_modes: &Vec<PresentMode>,
        depth_supports: &Vec<FormatSupport>,
        width: u32,
        height: u32,
    ) -> (r: Result<(), crate::ConfigurationError>)
        requires
            old(self).wf(),
            old(self).state == SwapchainState::Rebuilding,
            caps.wf(),
            formats@.len() > 0,
            !spec_chosen_extent(*caps, width, height).spec_is_zero(),
        ensures
            final(self).wf(),
            r is Ok <==> spec_optimal_depth_format(depth_supports@) is Ok,
            r matches Err(e) ==> *final(self) == *old(self) && Err::<
                Format,
                crate::ConfigurationError,
            >(e) == spec_optimal_depth_format(depth_supports@),
            r is Ok ==> {
                &&& final(self).state == SwapchainState::Valid
                &&& final(self).extent == spec_chosen_extent(*caps, width, height)
                &&& final(self).color_format == spec_chosen_format(formats@)
                &&& final(self).present_mode == spec_chosen_present_mode(present_modes@)
                &&& spec_optimal_depth_format(depth_supports@) == Ok::<
                    Format,
                    crate::ConfigurationError,
                >(final(self).depth_format)
                &&& final(self).image_count == spec_chosen_image_count(*caps)
                &&& final(self).slots@ == old(self).slots@
                &&& final(self).current_frame == old(self).current_frame
                &&& final(self).current_image == 0
                &&& !final(self).image_acquired
                &&& final(self).acquires == old(self).acquires
                &&& final(self).presents == old(self).presents
            },
    {
        let depth_format = match get_optimal_depth_format(depth_supports) {
            Ok(f) => f,
            Err(e) => {
                return Err(e);
            },
        };
        self.color_format = choose_swapchain_format(formats);
        self.present_mode = choose_swapchain_present_mode(present_modes);
        self.extent = choose_swapchain_extent(caps, width, height);
        self.image_count = choose_image_count(caps);
        self.depth_format = depth_format;
        self.current_image = 0;
        self.image_acquired = false;
        self.state = SwapchainState::Valid;
        Ok(())
    }

    /// Recreate a stale chain: wait idle, retire the old chain, create a
    /// new one sized to the current surface extent clamped to the
    /// surface's bounds.
    pub fn recreate(
        &mut self,
        caps: &SurfaceCapabilities,
        formats: &Vec<SurfaceFormat>,
        present_modes: &Vec<PresentMode>,
        depth_supports: &Vec<FormatSupport>,
        width: u32,
        height: u32,
    ) -> (r: Result<(), crate::ConfigurationError>)
        requires
            old(self).wf(),
            old(self).state == SwapchainState::Stale,
            caps.wf(),
            formats@.len() > 0,
            !spec_chosen_extent(*caps, width, height).spec_is_zero(),
        ensures
            final(self).wf(),
            r is Ok <==> spec_optimal_depth_format(depth_supports@) is Ok,
            !final(self).image_acquired,
            final(self).slots@.len() == old(self).slots@.len(),
            forall|i: int|
                0 <= i < old(self).slots@.len() ==> final(self).slots@[i] == (FrameSlot {
                    fence: Fence { state: FenceState::Signaled },
                    ..old(self).slots@[i]
                }),
            final(self).current_frame == old(self).current_frame,
            final(self).acquires == old(self).acquires,
            final(self).presents == old(self).presents,
            r is Ok ==> {
                &&& final(self).state == SwapchainState::Valid
                &&& final(self).extent == spec_chosen_extent(*caps, width, height)
                &&& final(self).color_format == spec_chosen_format(formats@)
                &&& final(self).present_mode == spec_chosen_present_mode(present_modes@)
                &&& spec_optimal_depth_format(depth_supports@) == Ok::<
                    Format,
                    crate::ConfigurationError,
                >(final(self).depth_format)
                &&& final(self).image_count == spec_chosen_image_count(*caps)
                &&& final(self).current_image == 0
            },
            r matches Err(e) ==> Err::<Format, crate::ConfigurationError>(e)
                == spec_optimal_depth_format(depth_supports@) && final(self).state
                == SwapchainState::Rebuilding,
    {
        self.begin_rebuild();
        self.complete_rebuild(caps, formats, present_modes, depth_supports, width, height)
    }
}

/// For every well-formed chain with N frame slots, at most N submissions
/// are simultaneously unobserved — each slot guards exactly one command
/// buffer, and a buffer is reused only after its slot's fence was waited
/// on.
pub proof fn lemma_frames_in_flight_bounded(sc: SwapChain)
    requires
        sc.wf(),
    ensures
        0 <= sc.spec_frames_in_flight() <= sc.slots@.len(),
{
    sc.slots@.lemma_filter_len(|s: FrameSlot| s.fence.state is Pending);
}

/// Recreating at a requested size and then reading the extent yields that
/// size clamped to the surface's minimum and maximum image extents,
/// whenever the surface lets the swapchain choose its extent.
pub proof fn lemma_recreate_extent_clamped(caps: SurfaceCapabilities, width: u32, height: u32)
    requires
        caps.wf(),
        caps.current_extent.width == u32::MAX,
    ensures
        spec_chosen_extent(caps, width, height).width == spec_clamp_u32(
            width,
            caps.min_image_extent.width,
            caps.max_image_extent.width,
        ),
        spec_chosen_extent(caps, width, height).height == spec_clamp_u32(
            height,
            caps.min_image_extent.height,
            caps.max_image_extent.height,
        ),
{
}

} // verus!
