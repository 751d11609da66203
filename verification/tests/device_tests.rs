use ash::vk;
use vulkan_training::device::{
    find_graphics_queue, rank_device_type, scan_queue_families, select_graphics_queue,
    select_ranked_device, DeviceCandidate, DeviceSelectionError, FamilyScan, PresentPolicy,
    QueueFamily, RankedChoice, DEVICE_TYPE_CPU, DEVICE_TYPE_DISCRETE_GPU,
    DEVICE_TYPE_INTEGRATED_GPU, DEVICE_TYPE_OTHER, DEVICE_TYPE_VIRTUAL_GPU, QUEUE_GRAPHICS,
};

const COMPUTE: u32 = 0b10;

fn fam(flags: u32, present: Option<bool>) -> QueueFamily {
    QueueFamily { queue_flags: flags, present_support: present }
}

#[test]
fn device_constants_match_vulkan() {
    assert_eq!(QUEUE_GRAPHICS, vk::QueueFlags::GRAPHICS.as_raw());
    assert_eq!(DEVICE_TYPE_OTHER, vk::PhysicalDeviceType::OTHER.as_raw());
    assert_eq!(DEVICE_TYPE_INTEGRATED_GPU, vk::PhysicalDeviceType::INTEGRATED_GPU.as_raw());
    assert_eq!(DEVICE_TYPE_DISCRETE_GPU, vk::PhysicalDeviceType::DISCRETE_GPU.as_raw());
    assert_eq!(DEVICE_TYPE_VIRTUAL_GPU, vk::PhysicalDeviceType::VIRTUAL_GPU.as_raw());
    assert_eq!(DEVICE_TYPE_CPU, vk::PhysicalDeviceType::CPU.as_raw());
}

#[test]
fn scan_policies() {
    let fams = vec![fam(COMPUTE, Some(true)), fam(QUEUE_GRAPHICS, None), fam(QUEUE_GRAPHICS | COMPUTE, Some(true))];
    assert_eq!(scan_queue_families(&fams, PresentPolicy::Ignore), FamilyScan::Found(1));
    assert_eq!(scan_queue_families(&fams, PresentPolicy::SkipOnError), FamilyScan::Found(2));
    assert_eq!(scan_queue_families(&fams, PresentPolicy::FailOnError), FamilyScan::QueryFailed(1));
    assert_eq!(scan_queue_families(&vec![fam(COMPUTE, Some(true))], PresentPolicy::Ignore), FamilyScan::NotFound);
}

#[test]
fn first_device_with_graphics_and_present() {
    let devices = vec![
        vec![fam(QUEUE_GRAPHICS, Some(false))],
        vec![fam(COMPUTE, Some(true)), fam(QUEUE_GRAPHICS, Some(true))],
        vec![fam(QUEUE_GRAPHICS, Some(true))],
    ];
    assert_eq!(find_graphics_queue(&devices, true), Some((1, 1)));
    assert_eq!(find_graphics_queue(&devices, false), Some((0, 0)));
    let none = vec![vec![fam(QUEUE_GRAPHICS, None)], vec![]];
    assert_eq!(find_graphics_queue(&none, true), None);
}

#[test]
fn hello_selection_errors() {
    assert_eq!(select_graphics_queue(&vec![]), Err(DeviceSelectionError::NoPhysicalDevice));
    assert_eq!(
        select_graphics_queue(&vec![vec![fam(COMPUTE, None)]]),
        Err(DeviceSelectionError::NoGraphicsQueue)
    );
    assert_eq!(select_graphics_queue(&vec![vec![fam(COMPUTE, None), fam(QUEUE_GRAPHICS, None)]]), Ok((0, 1)));
}

#[test]
fn device_type_ranks() {
    assert_eq!(rank_device_type(DEVICE_TYPE_DISCRETE_GPU), 0);
    assert_eq!(rank_device_type(DEVICE_TYPE_INTEGRATED_GPU), 1);
    assert_eq!(rank_device_type(DEVICE_TYPE_VIRTUAL_GPU), 2);
    assert_eq!(rank_device_type(DEVICE_TYPE_CPU), 3);
    assert_eq!(rank_device_type(DEVICE_TYPE_OTHER), 4);
    assert_eq!(rank_device_type(1000), 5);
}

fn cand(t: i32, ext: bool, fams: Vec<QueueFamily>) -> DeviceCandidate {
    DeviceCandidate { device_type: t, supports_extensions: ext, queue_families: fams }
}

#[test]
fn ranked_choice_prefers_discrete() {
    let cands = vec![
        cand(DEVICE_TYPE_INTEGRATED_GPU, true, vec![fam(QUEUE_GRAPHICS, Some(true))]),
        cand(DEVICE_TYPE_DISCRETE_GPU, true, vec![fam(COMPUTE, Some(true)), fam(QUEUE_GRAPHICS, Some(true))]),
        cand(DEVICE_TYPE_DISCRETE_GPU, true, vec![fam(QUEUE_GRAPHICS, Some(true))]),
    ];
    assert_eq!(
        select_ranked_device(&cands, true, PresentPolicy::FailOnError),
        RankedChoice::Selected { device: 1, family: 1 }
    );
}

#[test]
fn ranked_choice_filters_extensions() {
    let cands = vec![
        cand(DEVICE_TYPE_DISCRETE_GPU, false, vec![fam(QUEUE_GRAPHICS, Some(true))]),
        cand(DEVICE_TYPE_CPU, true, vec![fam(QUEUE_GRAPHICS, Some(true))]),
    ];
    assert_eq!(select_ranked_device(&cands, true, PresentPolicy::FailOnError), RankedChoice::Selected { device: 1, family: 0 });
    // The self-test neither filters extensions nor asks for presentation.
    assert_eq!(select_ranked_device(&cands, false, PresentPolicy::Ignore), RankedChoice::Selected { device: 0, family: 0 });
}

#[test]
fn ranked_choice_failures() {
    let cands = vec![
        cand(DEVICE_TYPE_DISCRETE_GPU, true, vec![fam(QUEUE_GRAPHICS, Some(true))]),
        cand(DEVICE_TYPE_CPU, true, vec![fam(QUEUE_GRAPHICS, None)]),
    ];
    assert_eq!(select_ranked_device(&cands, true, PresentPolicy::FailOnError), RankedChoice::QueryFailed { device: 1, family: 0 });
    assert_eq!(select_ranked_device(&vec![], true, PresentPolicy::FailOnError), RankedChoice::NoneSuitable);
}

#[test]
fn equal_ranks_choose_first() {
    // Law: with one device type throughout, ranking picks what the plain
    // first-match search picks.
    let fams = vec![
        vec![fam(COMPUTE, None)],
        vec![fam(COMPUTE, None), fam(QUEUE_GRAPHICS, None)],
        vec![fam(QUEUE_GRAPHICS, None)],
    ];
    let cands: Vec<DeviceCandidate> = fams.iter().map(|f| cand(DEVICE_TYPE_CPU, false, f.clone())).collect();
    let plain = find_graphics_queue(&fams, false).unwrap();
    assert_eq!(
        select_ranked_device(&cands, false, PresentPolicy::Ignore),
        RankedChoice::Selected { device: plain.0, family: plain.1 }
    );
}
