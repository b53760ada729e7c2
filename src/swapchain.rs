use vstd::prelude::*;

verus! {

/// A width and height in pixels.
#[derive(Clone, Copy, Debug, PartialEq, Eq, Structural)]
pub struct Extent {
    pub width: u32,
    pub height: u32,
}

/// The width a surface reports when its extent is left to the swapchain.
pub const UNDEFINED_EXTENT_WIDTH: u32 = 0xFFFF_FFFF;

/// Raw code of the low-latency present mode that replaces queued images.
pub const PRESENT_MODE_MAILBOX: i32 = 1;

/// Raw code of the blocking vsync present mode that every surface supports.
pub const PRESENT_MODE_FIFO: i32 = 2;

/// Bit of the identity pre-transform in a surface's transform flags.
pub const TRANSFORM_IDENTITY: u32 = 1;

/// What a surface reports of itself, as far as swapchain creation reads it.
#[derive(Clone, Copy, Debug, PartialEq, Eq, Structural)]
pub struct SurfaceCaps {
    pub min_image_count: u32,
    /// Zero where the surface sets no upper bound.
    pub max_image_count: u32,
    pub current_extent: Extent,
    pub supported_transforms: u32,
    pub current_transform: u32,
}

/// The parameters a swapchain is created with.
#[derive(Clone, Copy, Debug, PartialEq, Eq, Structural)]
pub struct SwapchainConfig {
    pub image_count: u32,
    pub extent: Extent,
    pub present_mode: i32,
    pub pre_transform: u32,
}

/// One more image than the surface's minimum, kept within its maximum where it
/// has one (and within `u32`).
pub open spec fn desired_image_count(min: u32, max: u32) -> u32 {
    if max != 0 && min as int + 1 > max as int {
        max
    } else if min == u32::MAX {
        min
    } else {
        (min + 1) as u32
    }
}

/// The surface's own extent, or the window's size where the surface leaves it
/// undefined.
pub open spec fn chosen_extent(caps: SurfaceCaps, window: Extent) -> Extent {
    if caps.current_extent.width == UNDEFINED_EXTENT_WIDTH {
        window
    } else {
        caps.current_extent
    }
}

/// Mailbox where the surface offers it, vsync otherwise.
pub open spec fn chosen_present_mode(modes: Seq<i32>) -> i32 {
    if modes.contains(PRESENT_MODE_MAILBOX) {
        PRESENT_MODE_MAILBOX
    } else {
        PRESENT_MODE_FIFO
    }
}

/// Identity where the surface supports it, its current transform otherwise.
pub open spec fn chosen_transform(caps: SurfaceCaps) -> u32 {
    if caps.supported_transforms & TRANSFORM_IDENTITY != 0 {
        TRANSFORM_IDENTITY
    } else {
        caps.current_transform
    }
}

pub open spec fn swapchain_config(caps: SurfaceCaps, modes: Seq<i32>, window: Extent) -> SwapchainConfig {
    SwapchainConfig {
        image_count: desired_image_count(caps.min_image_count, caps.max_image_count),
        extent: chosen_extent(caps, window),
        present_mode: chosen_present_mode(modes),
        pre_transform: chosen_transform(caps),
    }
}

/// The image count to ask for, from the surface's minimum and maximum.
pub fn image_count_for(min: u32, max: u32) -> (r: u32)
    ensures
        r == desired_image_count(min, max),
        max != 0 && min <= max ==> min <= r <= max,
        max == 0 ==> min <= r,
{
    if max != 0 && min >= max {
        max
    } else if min == u32::MAX {
        min
    } else {
        min + 1
    }
}

/// The extent a new swapchain gets for a window of size `window`.
pub fn extent_for(caps: &SurfaceCaps, window: Extent) -> (r: Extent)
    ensures
        r == chosen_extent(*caps, window),
{
    if caps.current_extent.width == UNDEFINED_EXTENT_WIDTH {
        window
    } else {
        caps.current_extent
    }
}

/// The present mode to use among those the surface offers.
pub fn present_mode_for(modes: &Vec<i32>) -> (r: i32)
    ensures
        r == chosen_present_mode(modes@),
{
    let mut i: usize = 0;
    while i < modes.len()
        invariant
            i <= modes@.len(),
            forall|j: int| 0 <= j < i ==> modes@[j] != PRESENT_MODE_MAILBOX,
        decreases modes@.len() - i,
    {
        if modes[i] == PRESENT_MODE_MAILBOX {
            assert(modes@.contains(PRESENT_MODE_MAILBOX)) by {
                assert(modes@[i as int] == PRESENT_MODE_MAILBOX);
            }
            return PRESENT_MODE_MAILBOX;
        }
        i += 1;
    }
    PRESENT_MODE_FIFO
}

/// The pre-transform a new swapchain gets.
pub fn transform_for(caps: &SurfaceCaps) -> (r: u32)
    ensures
        r == chosen_transform(*caps),
{
    if caps.supported_transforms & TRANSFORM_IDENTITY != 0 {
        TRANSFORM_IDENTITY
    } else {
        caps.current_transform
    }
}

/// Everything a swapchain is created with, from what the surface reports and
/// the window's pixel size.
pub fn choose_swapchain(caps: &SurfaceCaps, present_modes: &Vec<i32>, window: Extent) -> (r: SwapchainConfig)
    ensures
        r == swapchain_config(*caps, present_modes@, window),
{
    SwapchainConfig {
        image_count: image_count_for(caps.min_image_count, caps.max_image_count),
        extent: extent_for(caps, window),
        present_mode: present_mode_for(present_modes),
        pre_transform: transform_for(caps),
    }
}

/// One step of creating or rebuilding a swapchain, in the order a driver
/// requires them.
#[derive(Clone, Copy, Debug, PartialEq, Eq, Structural)]
pub enum SwapchainStep {
    QueryCapabilities,
    DestroyFramebuffers,
    DestroyImageViews,
    DestroyPresentSignals,
    DestroySwapchain,
    CreateSwapchain,
    CreateImageViews,
    CreatePresentSignals,
    CreateFramebuffers,
}

/// The steps of a first creation (`rebuild == false`) or of a rebuild: the old
/// framebuffers, views and present signals go before the new swapchain is
/// made, and the old swapchain goes after the capability query and before the
/// create call.
pub open spec fn swapchain_steps(rebuild: bool) -> Seq<SwapchainStep> {
    if rebuild {
        seq![
            SwapchainStep::QueryCapabilities,
            SwapchainStep::DestroyFramebuffers,
            SwapchainStep::DestroyImageViews,
            SwapchainStep::DestroyPresentSignals,
            SwapchainStep::DestroySwapchain,
            SwapchainStep::CreateSwapchain,
            SwapchainStep::CreateImageViews,
            SwapchainStep::CreatePresentSignals,
            SwapchainStep::CreateFramebuffers,
        ]
    } else {
        seq![
            SwapchainStep::QueryCapabilities,
            SwapchainStep::CreateSwapchain,
            SwapchainStep::CreateImageViews,
            SwapchainStep::CreatePresentSignals,
            SwapchainStep::CreateFramebuffers,
        ]
    }
}

/// The ordered steps of a swapchain creation or rebuild.
pub fn swapchain_plan(rebuild: bool) -> (r: Vec<SwapchainStep>)
    ensures
        r@ == swapchain_steps(rebuild),
{
    let mut steps: Vec<SwapchainStep> = Vec::new();
    steps.push(SwapchainStep::QueryCapabilities);
    if rebuild {
        steps.push(SwapchainStep::DestroyFramebuffers);
        steps.push(SwapchainStep::DestroyImageViews);
        steps.push(SwapchainStep::DestroyPresentSignals);
        steps.push(SwapchainStep::DestroySwapchain);
    }
    steps.push(SwapchainStep::CreateSwapchain);
    steps.push(SwapchainStep::CreateImageViews);
    steps.push(SwapchainStep::CreatePresentSignals);
    steps.push(SwapchainStep::CreateFramebuffers);
    proof {
        assert(steps@ =~= swapchain_steps(rebuild));
    }
    steps
}

/// A queue family as device selection sees it.
#[derive(Clone, Copy, Debug, PartialEq, Eq, Structural)]
pub struct QueueFamily {
    pub graphics: bool,
    pub present: bool,
}

/// Family `f` of device `d` exists and can both draw and present.
pub open spec fn suitable(devices: Seq<Seq<QueueFamily>>, d: int, f: int) -> bool {
    &&& 0 <= d < devices.len()
    &&& 0 <= f < devices[d].len()
    &&& devices[d][f].graphics
    &&& devices[d][f].present
}

/// `(d, f)` is the first suitable pair, devices first, then families.
pub open spec fn first_suitable(devices: Seq<Seq<QueueFamily>>, d: int, f: int) -> bool {
    &&& suitable(devices, d, f)
    &&& forall|d2: int, f2: int| 0 <= d2 < d ==> !suitable(devices, d2, f2)
    &&& forall|f2: int| 0 <= f2 < f ==> !suitable(devices, d, f2)
}

pub open spec fn families_view(devices: Seq<Vec<QueueFamily>>) -> Seq<Seq<QueueFamily>> {
    devices.map_values(|v: Vec<QueueFamily>| v@)
}

/// The first physical device with a queue family that supports both graphics
/// and presentation to the surface, and that family's index: `None` where no
/// device qualifies. `devices[d][f]` describes family `f` of device `d`.
pub fn select_device(devices: &Vec<Vec<QueueFamily>>) -> (r: Option<(usize, usize)>)
    ensures
        match r {
            Some((d, f)) => first_suitable(families_view(devices@), d as int, f as int),
            None => forall|d: int, f: int| !suitable(families_view(devices@), d, f),
        },
{
    let ghost all = families_view(devices@);
    let mut d: usize = 0;
    while d < devices.len()
        invariant
            d <= devices@.len(),
            all == families_view(devices@),
            forall|d2: int, f2: int| 0 <= d2 < d ==> !suitable(all, d2, f2),
        decreases devices@.len() - d,
    {
        let families = &devices[d];
        assert(all[d as int] == families@);
        let mut f: usize = 0;
        while f < families.len()
            invariant
                d < devices@.len(),
                f <= families@.len(),
                all == families_view(devices@),
                all[d as int] == families@,
                forall|d2: int, f2: int| 0 <= d2 < d ==> !suitable(all, d2, f2),
                forall|f2: int| 0 <= f2 < f ==> !suitable(all, d as int, f2),
            decreases families@.len() - f,
        {
            let q = families[f];
            if q.graphics && q.present {
                return Some((d, f));
            }
            f += 1;
        }
        d += 1;
    }
    None
}

} // verus!
