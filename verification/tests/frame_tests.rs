use vulkan_training::frame::{
    after_present, draw_command_buffer_index, frame_slot, quad_indices, ExampleBase,
    FrameStep, TextureExample, APP_SETUP_COMMAND_BUFFER, COMMAND_BUFFER_COUNT,
    MAX_FRAME_LATENCY, RESULT_ERROR_OUT_OF_DATE, RESULT_SUBOPTIMAL, SETUP_COMMAND_BUFFER,
};
use vulkan_training::memory::{MemoryProperties, MemoryRequirements, MemoryType};
use vulkan_training::surface::{Extent2D, SurfaceFormat};

fn base() -> ExampleBase {
    let mut memory_types = [MemoryType { property_flags: 0, heap_index: 0 }; 32];
    memory_types[0].property_flags = 0b110;
    memory_types[1].property_flags = 0b001;
    ExampleBase::new(
        0,
        SurfaceFormat { format: 44, color_space: 0 },
        Extent2D { width: 1920, height: 1080 },
        MemoryProperties { memory_type_count: 2, memory_types },
        3,
    )
}

#[test]
fn result_codes_match_vulkan() {
    assert_eq!(RESULT_SUBOPTIMAL, ash::vk::Result::SUBOPTIMAL_KHR.as_raw());
    assert_eq!(RESULT_ERROR_OUT_OF_DATE, ash::vk::Result::ERROR_OUT_OF_DATE_KHR.as_raw());
}

#[test]
fn frames_cycle_through_slots() {
    let mut b = base();
    let mut seen = Vec::new();
    for expected in 0..7usize {
        let f = b.begin_frame();
        assert_eq!(f, expected);
        seen.push(frame_slot(f));
    }
    assert_eq!(seen, vec![0, 1, 2, 0, 1, 2, 0]);
    assert_eq!(b.frame_index, 7);
}

#[test]
fn slots_in_flight_are_distinct() {
    // Law: frames less than MAX_FRAME_LATENCY apart use different slots.
    for a in 0..10usize {
        for b in a + 1..a + MAX_FRAME_LATENCY {
            assert_ne!(frame_slot(a), frame_slot(b));
        }
        assert_eq!(frame_slot(a), frame_slot(a + MAX_FRAME_LATENCY));
    }
}

#[test]
fn command_buffer_layout() {
    assert_eq!(COMMAND_BUFFER_COUNT, 2 + MAX_FRAME_LATENCY);
    let draws: Vec<usize> = (0..MAX_FRAME_LATENCY).map(draw_command_buffer_index).collect();
    assert_eq!(draws, vec![2, 3, 4]);
    assert_ne!(SETUP_COMMAND_BUFFER, APP_SETUP_COMMAND_BUFFER);
}

#[test]
fn memory_types_for_depth_and_upload() {
    let b = base();
    let req = MemoryRequirements { size: 1, alignment: 1, memory_type_bits: 0b11 };
    assert_eq!(b.depth_memory_type(&req), Some(1));
    assert_eq!(b.upload_memory_type(&req), Some(0));
    let only_first = MemoryRequirements { size: 1, alignment: 1, memory_type_bits: 0b01 };
    assert_eq!(b.depth_memory_type(&only_first), None);
}

#[test]
fn render_steps() {
    let mut ex = TextureExample::new(base());
    let r0 = ex.render();
    assert_eq!((r0.frame_index, r0.slot, r0.command_buffer), (0, 0, 2));
    let r1 = ex.render();
    assert_eq!((r1.frame_index, r1.slot, r1.command_buffer), (1, 1, 3));
    assert_eq!(ex.after_acquire(Ok((2, false))), FrameStep::Draw { image_index: 2 });
    assert_eq!(ex.after_acquire(Ok((1, true))), FrameStep::Draw { image_index: 1 });
    assert_eq!(ex.after_acquire(Err(RESULT_ERROR_OUT_OF_DATE)), FrameStep::Skip);
    assert_eq!(ex.after_acquire(Err(-4)), FrameStep::Abort(-4));
}

#[test]
fn present_results() {
    assert_eq!(after_present(Ok(false)), Ok(()));
    assert_eq!(after_present(Ok(true)), Ok(()));
    assert_eq!(after_present(Err(RESULT_ERROR_OUT_OF_DATE)), Ok(()));
    assert_eq!(after_present(Err(RESULT_SUBOPTIMAL)), Ok(()));
    assert_eq!(after_present(Err(-3)), Err(-3));
}

#[test]
fn quad_index_buffer() {
    let idx = quad_indices();
    assert_eq!(idx, vec![0, 1, 2, 2, 3, 0]);
    assert!(idx.iter().all(|&i| i < 4));
}
