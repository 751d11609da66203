//! Frame pacing of the texture example: which per-frame resources a frame
//! uses, and what to do with the results of acquiring and presenting a
//! swapchain image.

use vstd::prelude::*;
use crate::memory::{MemoryProperties, MemoryRequirements, MAX_MEMORY_TYPES, first_suitable, find_memorytype_index, MEMORY_PROPERTY_DEVICE_LOCAL, MEMORY_PROPERTY_HOST_VISIBLE, MEMORY_PROPERTY_HOST_COHERENT};
use crate::surface::{Extent2D, SurfaceFormat};

verus! {

/// How many frames may be in flight at once; each has its own command
/// buffer, fence and "image acquired" semaphore.
pub const MAX_FRAME_LATENCY: usize = 3;

/// `VK_SUBOPTIMAL_KHR`.
pub const RESULT_SUBOPTIMAL: i32 = 1_000_001_003;

/// `VK_ERROR_OUT_OF_DATE_KHR`.
pub const RESULT_ERROR_OUT_OF_DATE: i32 = -1_000_001_004;

/// The per-frame resources of a frame: frames `MAX_FRAME_LATENCY` apart
/// share them.
pub open spec fn slot_spec(frame_index: int) -> int {
    frame_index % (MAX_FRAME_LATENCY as int)
}

/// The slot of the per-frame resources that frame `frame_index` uses.
pub fn frame_slot(frame_index: usize) -> (slot: usize)
    ensures
        slot == slot_spec(frame_index as int),
        slot < MAX_FRAME_LATENCY,
{
    frame_index % MAX_FRAME_LATENCY
}

/// Command buffers allocated by the texture example: one for the depth
/// image setup, one for the texture upload, one per frame slot.
pub const COMMAND_BUFFER_COUNT: usize = 5;

/// Index of the depth-setup command buffer.
pub const SETUP_COMMAND_BUFFER: usize = 0;

/// Index of the texture-upload command buffer.
pub const APP_SETUP_COMMAND_BUFFER: usize = 1;

/// The command buffer that frame slot `slot` records into.
pub fn draw_command_buffer_index(slot: usize) -> (index: usize)
    requires
        slot < MAX_FRAME_LATENCY,
    ensures
        index == 2 + slot,
        index < COMMAND_BUFFER_COUNT,
{
    2 + slot
}

/// The plain state of the texture example's Vulkan base that its logic
/// reads: the frame counter and what was chosen at setup.
#[derive(Clone, Copy, Debug, PartialEq, Eq)]
pub struct ExampleBase {
    pub frame_index: usize,
    pub queue_family_index: u32,
    pub surface_format: SurfaceFormat,
    pub surface_resolution: Extent2D,
    pub device_memory_properties: MemoryProperties,
    pub present_image_count: usize,
}

impl ExampleBase {
    /// The state right after setup, before the first frame.
    pub fn new(
        queue_family_index: u32,
        surface_format: SurfaceFormat,
        surface_resolution: Extent2D,
        device_memory_properties: MemoryProperties,
        present_image_count: usize,
    ) -> (base: ExampleBase)
        ensures
            base.frame_index == 0,
            base.queue_family_index == queue_family_index,
            base.surface_format == surface_format,
            base.surface_resolution == surface_resolution,
            base.device_memory_properties == device_memory_properties,
            base.present_image_count == present_image_count,
    {
        ExampleBase {
            frame_index: 0,
            queue_family_index,
            surface_format,
            surface_resolution,
            device_memory_properties,
            present_image_count,
        }
    }

    /// Starts the next frame: returns its index and advances the counter.
    /// The caller waits on (and resets) the fence of `frame_slot` of the
    /// returned index before reusing that slot.
    pub fn begin_frame(&mut self) -> (frame_index: usize)
        requires
            old(self).frame_index < usize::MAX,
        ensures
            frame_index == old(self).frame_index,
            final(self).frame_index == old(self).frame_index + 1,
            final(self).queue_family_index == old(self).queue_family_index,
            final(self).surface_format == old(self).surface_format,
            final(self).surface_resolution == old(self).surface_resolution,
            final(self).device_memory_properties == old(self).device_memory_properties,
            final(self).present_image_count == old(self).present_image_count,
    {
        let frame_index = self.frame_index;
        self.frame_index = self.frame_index + 1;
        frame_index
    }

    /// The memory type for the depth image: the first allowed device-local
    /// one.
    pub fn depth_memory_type(&self, req: &MemoryRequirements) -> (index: Option<u32>)
        requires
            self.device_memory_properties.memory_type_count <= MAX_MEMORY_TYPES,
        ensures
            index == first_suitable(*req, self.device_memory_properties, MEMORY_PROPERTY_DEVICE_LOCAL),
    {
        find_memorytype_index(req, &self.device_memory_properties, MEMORY_PROPERTY_DEVICE_LOCAL)
    }

    /// The memory type for a buffer that the host fills: the first allowed
    /// host-visible and host-coherent one.
    pub fn upload_memory_type(&self, req: &MemoryRequirements) -> (index: Option<u32>)
        requires
            self.device_memory_properties.memory_type_count <= MAX_MEMORY_TYPES,
        ensures
            index == first_suitable(
                *req,
                self.device_memory_properties,
                MEMORY_PROPERTY_HOST_VISIBLE | MEMORY_PROPERTY_HOST_COHERENT,
            ),
    {
        find_memorytype_index(
            req,
            &self.device_memory_properties,
            MEMORY_PROPERTY_HOST_VISIBLE | MEMORY_PROPERTY_HOST_COHERENT,
        )
    }
}

/// The resources one frame of the texture example uses.
#[derive(Clone, Copy, Debug, PartialEq, Eq)]
pub struct FrameResources {
    pub frame_index: usize,
    /// Index of the fence, the "image acquired" semaphore and the draw
    /// command buffer among the per-frame ones.
    pub slot: usize,
    /// Index of the draw command buffer among all allocated command buffers.
    pub command_buffer: usize,
}

/// What to do after trying to acquire a swapchain image.
#[derive(Clone, Copy, Debug, PartialEq, Eq)]
pub enum FrameStep {
    /// Record and submit the frame for this swapchain image, then present it.
    Draw { image_index: usize },
    /// Give up this frame quietly (the swapchain is out of date).
    Skip,
    /// Stop with this error code.
    Abort(i32),
}

/// The plain state of the texture example: its base.
#[derive(Clone, Copy, Debug, PartialEq, Eq)]
pub struct TextureExample {
    pub base: ExampleBase,
}

impl TextureExample {
    pub fn new(base: ExampleBase) -> (example: TextureExample)
        ensures
            example.base == base,
    {
        TextureExample { base }
    }

    /// First step of rendering a frame: starts the frame and picks its
    /// per-frame resources.
    pub fn render(&mut self) -> (res: FrameResources)
        requires
            old(self).base.frame_index < usize::MAX,
        ensures
            res.frame_index == old(self).base.frame_index,
            res.slot == slot_spec(res.frame_index as int),
            res.command_buffer == 2 + res.slot,
            res.slot < MAX_FRAME_LATENCY,
            final(self).base == (ExampleBase {
                frame_index: (old(self).base.frame_index + 1) as usize,
                ..old(self).base
            }),
    {
        let frame_index = self.base.begin_frame();
        let slot = frame_slot(frame_index);
        let command_buffer = draw_command_buffer_index(slot);
        FrameResources { frame_index, slot, command_buffer }
    }

    /// What the acquire result means: draw into the acquired image (also
    /// when the swapchain is suboptimal), skip the frame when the swapchain
    /// is out of date, abort on any other error.
    pub fn after_acquire(&self, acquired: Result<(u32, bool), i32>) -> (step: FrameStep)
        requires
            acquired matches Ok((i, _)) ==> i < self.base.present_image_count,
        ensures
            step == (match acquired {
                Ok((i, _)) => FrameStep::Draw { image_index: i as usize },
                Err(code) => if code == RESULT_ERROR_OUT_OF_DATE {
                    FrameStep::Skip
                } else {
                    FrameStep::Abort(code)
                },
            }),
    {
        match acquired {
            Ok((image_index, _)) => FrameStep::Draw { image_index: image_index as usize },
            Err(code) => {
                if code == RESULT_ERROR_OUT_OF_DATE {
                    FrameStep::Skip
                } else {
                    FrameStep::Abort(code)
                }
            },
        }
    }
}

/// Whether the texture example carries on after presenting: it does on
/// success and when the swapchain is out of date or suboptimal, and stops
/// on any other error (`Err(code)` is returned then).
pub fn after_present(presented: Result<bool, i32>) -> (r: Result<(), i32>)
    ensures
        r == (match presented {
            Ok(_) => Ok::<(), i32>(()),
            Err(code) => if code == RESULT_ERROR_OUT_OF_DATE || code == RESULT_SUBOPTIMAL {
                Ok(())
            } else {
                Err(code)
            },
        }),
{
    match presented {
        Ok(_) => Ok(()),
        Err(code) => {
            if code == RESULT_ERROR_OUT_OF_DATE || code == RESULT_SUBOPTIMAL {
                Ok(())
            } else {
                Err(code)
            }
        },
    }
}

/// The index buffer of the textured quad: two triangles over its four
/// corners.
pub fn quad_indices() -> (indices: Vec<u32>)
    ensures
        indices@ == seq![0u32, 1, 2, 2, 3, 0],
{
    let mut indices: Vec<u32> = Vec::new();
    indices.push(0);
    indices.push(1);
    indices.push(2);
    indices.push(2);
    indices.push(3);
    indices.push(0);
    assert(indices@ =~= seq![0u32, 1, 2, 2, 3, 0]);
    indices
}

/// Two frames closer than `MAX_FRAME_LATENCY` apart never share per-frame
/// resources, and frames exactly that far apart do: a fence or semaphore
/// is reused only after the frames in between were started.
pub proof fn lemma_frame_slots_distinct(a: int, b: int)
    requires
        0 <= a < b,
    ensures
        b < a + MAX_FRAME_LATENCY ==> slot_spec(a) != slot_spec(b),
        b == a + MAX_FRAME_LATENCY ==> slot_spec(a) == slot_spec(b),
{
}

/// The setup, texture-upload and per-frame draw command buffers are
/// distinct entries of the allocated command buffers.
pub proof fn lemma_command_buffers_distinct(s: int, t: int)
    requires
        0 <= s < MAX_FRAME_LATENCY,
        0 <= t < MAX_FRAME_LATENCY,
    ensures
        2 + s < COMMAND_BUFFER_COUNT,
        2 + s != SETUP_COMMAND_BUFFER,
        2 + s != APP_SETUP_COMMAND_BUFFER,
        SETUP_COMMAND_BUFFER != APP_SETUP_COMMAND_BUFFER,
        s != t ==> 2 + s != 2 + t,
        COMMAND_BUFFER_COUNT == 2 + MAX_FRAME_LATENCY,
{
}

} // verus!
