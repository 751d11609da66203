//! Choosing the swapchain configuration from what a window surface supports.

use vstd::prelude::*;

verus! {

/// `VK_PRESENT_MODE_IMMEDIATE_KHR`.
pub const PRESENT_MODE_IMMEDIATE: i32 = 0;

/// `VK_PRESENT_MODE_MAILBOX_KHR`: triple buffering without tearing.
pub const PRESENT_MODE_MAILBOX: i32 = 1;

/// `VK_PRESENT_MODE_FIFO_KHR`: vsync; every implementation supports it.
pub const PRESENT_MODE_FIFO: i32 = 2;

/// `VK_SURFACE_TRANSFORM_IDENTITY_BIT_KHR`.
pub const SURFACE_TRANSFORM_IDENTITY: u32 = 0x1;

/// `VK_FORMAT_R8G8B8A8_UNORM`.
pub const FORMAT_R8G8B8A8_UNORM: i32 = 37;

/// `VK_FORMAT_B8G8R8A8_UNORM`.
pub const FORMAT_B8G8R8A8_UNORM: i32 = 44;

/// `VK_FORMAT_D16_UNORM`, the depth format of the texture example.
pub const FORMAT_D16_UNORM: i32 = 124;

/// A width and a height in pixels.
#[derive(Clone, Copy, Debug, PartialEq, Eq)]
pub struct Extent2D {
    pub width: u32,
    pub height: u32,
}

/// A pixel format together with its color space.
#[derive(Clone, Copy, Debug, PartialEq, Eq)]
pub struct SurfaceFormat {
    pub format: i32,
    pub color_space: i32,
}

/// The part of the surface capabilities that the swapchain setup reads.
#[derive(Clone, Copy, Debug, PartialEq, Eq)]
pub struct SurfaceCapabilities {
    pub min_image_count: u32,
    /// Zero means that there is no upper limit.
    pub max_image_count: u32,
    /// A width of `u32::MAX` means that the swapchain decides the extent.
    pub current_extent: Extent2D,
    pub supported_transforms: u32,
    pub current_transform: u32,
}

/// The number of swapchain images to ask for: one more than the minimum,
/// but no more than the maximum when there is one.
pub open spec fn image_count_spec(caps: SurfaceCapabilities) -> int {
    let desired = caps.min_image_count + 1;
    if caps.max_image_count > 0 && desired > caps.max_image_count {
        caps.max_image_count as int
    } else {
        desired
    }
}

/// Asks for one image more than the minimum so that the application need
/// not wait on the driver, capped by the maximum (if any).
pub fn choose_image_count(caps: &SurfaceCapabilities) -> (count: u32)
    requires
        caps.min_image_count < u32::MAX,
    ensures
        count == image_count_spec(*caps),
        caps.max_image_count > 0 ==> count <= caps.max_image_count,
        caps.max_image_count == 0 || caps.min_image_count < caps.max_image_count ==> count
            == caps.min_image_count + 1,
        caps.min_image_count <= caps.max_image_count ==> caps.min_image_count <= count,
{
    let mut desired_image_count = caps.min_image_count + 1;
    if caps.max_image_count > 0 && desired_image_count > caps.max_image_count {
        desired_image_count = caps.max_image_count;
    }
    desired_image_count
}

/// The minimum image count of the circle example: at least two images
/// (double buffering), more when the surface demands more.
pub fn choose_min_image_count_at_least_two(min_image_count: u32) -> (count: u32)
    ensures
        count >= 2,
        count >= min_image_count,
        count == min_image_count || count == 2,
{
    if min_image_count > 2 {
        min_image_count
    } else {
        2
    }
}

/// The swapchain extent: the surface's current extent, unless the surface
/// leaves it to the swapchain (width `u32::MAX`), in which case the window
/// size is used.
pub fn choose_surface_extent(current_extent: Extent2D, window: Extent2D) -> (extent: Extent2D)
    ensures
        extent == (if current_extent.width == u32::MAX {
            window
        } else {
            current_extent
        }),
{
    if current_extent.width == u32::MAX {
        window
    } else {
        current_extent
    }
}

/// The identity transform when the surface supports it, otherwise the
/// surface's current transform.
pub fn choose_pre_transform(supported_transforms: u32, current_transform: u32) -> (transform:
    u32)
    ensures
        transform == (if supported_transforms & SURFACE_TRANSFORM_IDENTITY
            == SURFACE_TRANSFORM_IDENTITY {
            SURFACE_TRANSFORM_IDENTITY
        } else {
            current_transform
        }),
{
    if supported_transforms & SURFACE_TRANSFORM_IDENTITY == SURFACE_TRANSFORM_IDENTITY {
        SURFACE_TRANSFORM_IDENTITY
    } else {
        current_transform
    }
}

/// Mailbox when the surface offers it, FIFO (always available) otherwise.
pub fn choose_present_mode(present_modes: &Vec<i32>) -> (mode: i32)
    ensures
        mode == (if present_modes@.contains(PRESENT_MODE_MAILBOX) {
            PRESENT_MODE_MAILBOX
        } else {
            PRESENT_MODE_FIFO
        }),
{
    let mut i: usize = 0;
    while i < present_modes.len()
        invariant
            i <= present_modes@.len(),
            forall|k: int| 0 <= k < i ==> present_modes@[k] != PRESENT_MODE_MAILBOX,
        decreases present_modes@.len() - i,
    {
        if present_modes[i] == PRESENT_MODE_MAILBOX {
            assert(present_modes@.contains(PRESENT_MODE_MAILBOX));
            return PRESENT_MODE_MAILBOX;
        }
        i = i + 1;
    }
    PRESENT_MODE_FIFO
}

/// The index of the first preferred candidate, or of the first candidate
/// when none is preferred (the wgpu example prefers an sRGB format this
/// way).
pub fn choose_preferred_index(preferred: &Vec<bool>) -> (index: usize)
    requires
        preferred@.len() > 0,
    ensures
        index < preferred@.len(),
        preferred@[index as int] ==> forall|k: int| 0 <= k < index ==> !preferred@[k],
        !preferred@[index as int] ==> index == 0 && forall|k: int|
            0 <= k < preferred@.len() ==> !preferred@[k],
{
    let mut i: usize = 0;
    while i < preferred.len()
        invariant
            i <= preferred@.len(),
            forall|k: int| 0 <= k < i ==> !preferred@[k],
        decreases preferred@.len() - i,
    {
        if preferred[i] {
            return i;
        }
        i = i + 1;
    }
    0
}

/// The first surface format with the preferred pixel format, or the first
/// surface format when none has it.
pub fn choose_surface_format(formats: &Vec<SurfaceFormat>, preferred_format: i32) -> (chosen:
    SurfaceFormat)
    requires
        formats@.len() > 0,
    ensures
        formats@.contains(chosen),
        chosen.format == preferred_format ==> exists|i: int|
            0 <= i < formats@.len() && formats@[i] == chosen && forall|k: int|
                0 <= k < i ==> formats@[k].format != preferred_format,
        chosen.format != preferred_format ==> chosen == formats@[0] && forall|k: int|
            0 <= k < formats@.len() ==> formats@[k].format != preferred_format,
{
    let mut i: usize = 0;
    while i < formats.len()
        invariant
            i <= formats@.len(),
            forall|k: int| 0 <= k < i ==> formats@[k].format != preferred_format,
        decreases formats@.len() - i,
    {
        if formats[i].format == preferred_format {
            let f = formats[i];
            assert(formats@[i as int] == f);
            return f;
        }
        i = i + 1;
    }
    assert(formats@[0] == formats@[0]);
    formats[0]
}

/// Everything the texture example decides about its swapchain.
#[derive(Clone, Copy, Debug, PartialEq, Eq)]
pub struct SwapchainPlan {
    pub surface_format: SurfaceFormat,
    pub image_count: u32,
    pub extent: Extent2D,
    pub pre_transform: u32,
    pub present_mode: i32,
}

/// Why no swapchain can be planned.
#[derive(Clone, Copy, Debug, PartialEq, Eq)]
pub enum SurfaceError {
    NoSurfaceFormats,
}

/// The swapchain of the texture example: the first surface format, one image
/// more than the minimum (capped), the current extent or the window size,
/// the identity transform when supported, and mailbox presentation when
/// available (FIFO otherwise). Fails when the surface reports no format.
pub fn plan_swapchain(
    caps: &SurfaceCapabilities,
    formats: &Vec<SurfaceFormat>,
    present_modes: &Vec<i32>,
    window: Extent2D,
) -> (r: Result<SwapchainPlan, SurfaceError>)
    requires
        caps.min_image_count < u32::MAX,
    ensures
        match r {
            Ok(plan) => {
                &&& formats@.len() > 0
                &&& plan.surface_format == formats@[0]
                &&& plan.image_count == image_count_spec(*caps)
                &&& plan.extent == (if caps.current_extent.width == u32::MAX {
                    window
                } else {
                    caps.current_extent
                })
                &&& plan.pre_transform == (if caps.supported_transforms
                    & SURFACE_TRANSFORM_IDENTITY == SURFACE_TRANSFORM_IDENTITY {
                    SURFACE_TRANSFORM_IDENTITY
                } else {
                    caps.current_transform
                })
                &&& plan.present_mode == (if present_modes@.contains(PRESENT_MODE_MAILBOX) {
                    PRESENT_MODE_MAILBOX
                } else {
                    PRESENT_MODE_FIFO
                })
            },
            Err(e) => formats@.len() == 0 && e == SurfaceError::NoSurfaceFormats,
        },
{
    if formats.len() == 0 {
        return Err(SurfaceError::NoSurfaceFormats);
    }
    let surface_format = formats[0];
    let image_count = choose_image_count(caps);
    let extent = choose_surface_extent(caps.current_extent, window);
    let pre_transform = choose_pre_transform(caps.supported_transforms, caps.current_transform);
    let present_mode = choose_present_mode(present_modes);
    Ok(SwapchainPlan { surface_format, image_count, extent, pre_transform, present_mode })
}

/// The triangle viewer's image count: one more than the minimum, then the
/// smaller of that and the maximum when there is a maximum.
pub open spec fn min_capped_image_count(caps: SurfaceCapabilities) -> int {
    let desired = caps.min_image_count + 1;
    if caps.max_image_count > 0 {
        if desired <= caps.max_image_count {
            desired
        } else {
            caps.max_image_count as int
        }
    } else {
        desired
    }
}

/// The texture example's "cap when above the maximum" and the triangle
/// viewer's "smaller of the two" ask for the same number of images.
pub proof fn lemma_image_count_forms_agree(caps: SurfaceCapabilities)
    ensures
        image_count_spec(caps) == min_capped_image_count(caps),
{
}

} // verus!
