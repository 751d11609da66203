use vulkan_training::instance::{
    contains_name, extension_name, hello_instance_plan, probe_instance_support,
    texture_device_extensions, texture_instance_plan, validation_layer_name, Extension,
    InstanceSupport, INSTANCE_CREATE_ENUMERATE_PORTABILITY,
};

fn names(list: &[&str]) -> Vec<String> {
    list.iter().map(|s| s.to_string()).collect()
}

#[test]
fn names_match_ash() {
    let check = |e: Extension, c: &str| {
        assert_eq!(extension_name(e).unwrap(), c);
    };
    check(Extension::DebugUtils, ash::ext::debug_utils::NAME.to_str().unwrap());
    check(Extension::PortabilityEnumeration, ash::khr::portability_enumeration::NAME.to_str().unwrap());
    check(Extension::GetPhysicalDeviceProperties2, ash::khr::get_physical_device_properties2::NAME.to_str().unwrap());
    check(Extension::Swapchain, ash::khr::swapchain::NAME.to_str().unwrap());
    check(Extension::PortabilitySubset, ash::khr::portability_subset::NAME.to_str().unwrap());
    assert_eq!(extension_name(Extension::Required(0)), None);
    assert_eq!(
        INSTANCE_CREATE_ENUMERATE_PORTABILITY,
        ash::vk::InstanceCreateFlags::ENUMERATE_PORTABILITY_KHR.as_raw()
    );
    assert_eq!(validation_layer_name(), "VK_LAYER_KHRONOS_validation");
}

#[test]
fn finds_names() {
    let list = names(&["VK_LAYER_LUNARG_api_dump", "VK_LAYER_KHRONOS_validation"]);
    assert!(contains_name(&list, &"VK_LAYER_KHRONOS_validation".to_string()));
    assert!(!contains_name(&list, &"VK_LAYER_KHRONOS".to_string()));
    assert!(!contains_name(&vec![], &"x".to_string()));
}

#[test]
fn texture_instance_on_apple() {
    let plan = texture_instance_plan(&names(&["VK_LAYER_KHRONOS_validation"]), 2, true);
    assert!(plan.enable_validation);
    assert_eq!(
        plan.extensions,
        vec![
            Extension::Required(0),
            Extension::Required(1),
            Extension::DebugUtils,
            Extension::PortabilityEnumeration,
            Extension::GetPhysicalDeviceProperties2,
        ]
    );
    assert_eq!(plan.flags, INSTANCE_CREATE_ENUMERATE_PORTABILITY);
}

#[test]
fn texture_instance_elsewhere() {
    let plan = texture_instance_plan(&names(&["VK_LAYER_MESA_overlay"]), 1, false);
    assert!(!plan.enable_validation);
    assert_eq!(plan.extensions, vec![Extension::Required(0), Extension::DebugUtils]);
    assert_eq!(plan.flags, 0);
}

#[test]
fn hello_instance_macos() {
    // The hello program on MoltenVK found everything available.
    let support = probe_instance_support(
        &names(&["VK_LAYER_KHRONOS_validation"]),
        &names(&[
            "VK_KHR_surface",
            "VK_EXT_debug_utils",
            "VK_KHR_portability_enumeration",
            "VK_KHR_get_physical_device_properties2",
        ]),
    );
    assert_eq!(
        support,
        InstanceSupport {
            validation: true,
            debug_utils: true,
            portability_enumeration: true,
            get_physical_device_properties2: true
        }
    );
    let plan = hello_instance_plan(support);
    assert!(plan.enable_validation);
    assert_eq!(
        plan.extensions,
        vec![
            Extension::DebugUtils,
            Extension::PortabilityEnumeration,
            Extension::GetPhysicalDeviceProperties2
        ]
    );
    assert_eq!(plan.flags, INSTANCE_CREATE_ENUMERATE_PORTABILITY);
}

#[test]
fn hello_instance_debug_utils_needs_validation() {
    let support = InstanceSupport {
        validation: false,
        debug_utils: true,
        portability_enumeration: false,
        get_physical_device_properties2: true,
    };
    let plan = hello_instance_plan(support);
    assert!(!plan.enable_validation);
    assert!(plan.extensions.is_empty());
    assert_eq!(plan.flags, 0);
}

#[test]
fn device_extensions() {
    assert_eq!(texture_device_extensions(false), vec![Extension::Swapchain]);
    assert_eq!(
        texture_device_extensions(true),
        vec![Extension::Swapchain, Extension::PortabilitySubset]
    );
}
