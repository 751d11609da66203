//! Which layers and extensions a Vulkan instance (and device) is created
//! with.

use vstd::prelude::*;

verus! {

/// `VK_INSTANCE_CREATE_ENUMERATE_PORTABILITY_BIT_KHR`: also enumerate
/// portability drivers such as MoltenVK.
pub const INSTANCE_CREATE_ENUMERATE_PORTABILITY: u32 = 0x1;

/// An extension to enable.
#[derive(Clone, Copy, Debug, PartialEq, Eq)]
pub enum Extension {
    /// Entry `i` of the extensions that the window system requires.
    Required(usize),
    /// `VK_EXT_debug_utils`.
    DebugUtils,
    /// `VK_KHR_portability_enumeration`.
    PortabilityEnumeration,
    /// `VK_KHR_get_physical_device_properties2`.
    GetPhysicalDeviceProperties2,
    /// `VK_KHR_swapchain`.
    Swapchain,
    /// `VK_KHR_portability_subset`.
    PortabilitySubset,
}

/// The registered name of a known extension (empty for a window-system
/// extension).
pub open spec fn extension_name_spec(extension: Extension) -> Seq<char> {
    match extension {
        Extension::Required(_) => Seq::empty(),
        Extension::DebugUtils => "VK_EXT_debug_utils"@,
        Extension::PortabilityEnumeration => "VK_KHR_portability_enumeration"@,
        Extension::GetPhysicalDeviceProperties2 => "VK_KHR_get_physical_device_properties2"@,
        Extension::Swapchain => "VK_KHR_swapchain"@,
        Extension::PortabilitySubset => "VK_KHR_portability_subset"@,
    }
}

/// The name of a known extension; `None` for a window-system extension,
/// whose name the window system supplies.
pub fn extension_name(extension: Extension) -> (name: Option<String>)
    ensures
        name is None <==> extension is Required,
        name matches Some(n) ==> n@ == extension_name_spec(extension),
{
    match extension {
        Extension::Required(_) => None,
        Extension::DebugUtils => Some("VK_EXT_debug_utils".to_owned()),
        Extension::PortabilityEnumeration => Some("VK_KHR_portability_enumeration".to_owned()),
        Extension::GetPhysicalDeviceProperties2 => Some(
            "VK_KHR_get_physical_device_properties2".to_owned(),
        ),
        Extension::Swapchain => Some("VK_KHR_swapchain".to_owned()),
        Extension::PortabilitySubset => Some("VK_KHR_portability_subset".to_owned()),
    }
}

/// The name of the Khronos validation layer.
pub fn validation_layer_name() -> (name: String)
    ensures
        name@ == "VK_LAYER_KHRONOS_validation"@,
{
    "VK_LAYER_KHRONOS_validation".to_owned()
}

/// `wanted` is among `names`.
pub open spec fn has_name(names: Seq<String>, wanted: Seq<char>) -> bool {
    exists|i: int| 0 <= i < names.len() && #[trigger] names[i]@ == wanted
}

/// Whether `wanted` is one of `names` (layer or extension names reported by
/// the loader).
pub fn contains_name(names: &Vec<String>, wanted: &String) -> (found: bool)
    ensures
        found == has_name(names@, wanted@),
{
    let mut i: usize = 0;
    while i < names.len()
        invariant
            i <= names@.len(),
            forall|k: int| 0 <= k < i ==> #[trigger] names@[k]@ != wanted@,
        decreases names@.len() - i,
    {
        if names[i] == *wanted {
            assert(names@[i as int]@ == wanted@);
            return true;
        }
        i = i + 1;
    }
    false
}

/// The layers, extensions and creation flags of an instance.
#[derive(Debug)]
pub struct InstancePlan {
    pub enable_validation: bool,
    pub extensions: Vec<Extension>,
    pub flags: u32,
}

/// The window-system extensions `0..count`, in order.
pub open spec fn required_extensions(count: nat) -> Seq<Extension> {
    Seq::new(count, |i: int| Extension::Required(i as usize))
}

/// The extensions that the platform adds: portability enumeration and
/// physical-device-properties-2 on Apple platforms (MoltenVK), none elsewhere.
pub open spec fn apple_instance_extensions(apple: bool) -> Seq<Extension> {
    if apple {
        seq![Extension::PortabilityEnumeration, Extension::GetPhysicalDeviceProperties2]
    } else {
        seq![]
    }
}

/// Which instance extensions the texture example asks for: every
/// window-system extension (each once, in the order given), then debug
/// utils, always; the two portability extensions exactly on Apple
/// platforms; nothing else and nothing twice.
pub proof fn lemma_texture_extensions(count: nat, apple: bool)
    requires
        count <= usize::MAX,
    ensures
        ({
            let e = required_extensions(count).push(Extension::DebugUtils)
                + apple_instance_extensions(apple);
            &&& e.contains(Extension::DebugUtils)
            &&& e.contains(Extension::PortabilityEnumeration) <==> apple
            &&& e.contains(Extension::GetPhysicalDeviceProperties2) <==> apple
            &&& forall|i: usize| #[trigger] e.contains(Extension::Required(i)) <==> i < count
            &&& forall|i: int| 0 <= i < count ==> #[trigger] e[i] == Extension::Required(i as usize)
            &&& e.no_duplicates()
        }),
{
    let r = required_extensions(count);
    let e = r.push(Extension::DebugUtils) + apple_instance_extensions(apple);
    assert(e[count as int] == Extension::DebugUtils);
    if apple {
        assert(e[count + 1int] == Extension::PortabilityEnumeration);
        assert(e[count + 2int] == Extension::GetPhysicalDeviceProperties2);
    }
    assert forall|i: usize| #[trigger] e.contains(Extension::Required(i)) <==> i < count by {
        if i < count {
            assert(e[i as int] == Extension::Required(i));
        }
    }
    assert forall|a: int, b: int| 0 <= a < e.len() && 0 <= b < e.len() && a != b implies e[a]
        != e[b] by {
        if a < count && b < count {
            assert(e[a] == Extension::Required(a as usize));
            assert(e[b] == Extension::Required(b as usize));
        } else if a < count {
            assert(e[a] == Extension::Required(a as usize));
        } else if b < count {
            assert(e[b] == Extension::Required(b as usize));
        }
    }
}

/// The instance of the texture example: validation when the layer is
/// available; the window-system extensions, then debug utils, then (on
/// Apple platforms) the portability extensions with the portability
/// enumeration flag.
pub fn texture_instance_plan(
    available_layers: &Vec<String>,
    required_extension_count: usize,
    apple: bool,
) -> (plan: InstancePlan)
    ensures
        plan.enable_validation == has_name(available_layers@, "VK_LAYER_KHRONOS_validation"@),
        plan.extensions@ == required_extensions(required_extension_count as nat).push(
            Extension::DebugUtils,
        ) + apple_instance_extensions(apple),
        plan.flags == (if apple {
            INSTANCE_CREATE_ENUMERATE_PORTABILITY
        } else {
            0
        }),
        plan.extensions@.contains(Extension::DebugUtils),
        plan.extensions@.contains(Extension::PortabilityEnumeration) <==> apple,
        plan.extensions@.contains(Extension::GetPhysicalDeviceProperties2) <==> apple,
        forall|i: usize|
            #[trigger] plan.extensions@.contains(Extension::Required(i)) <==> i
                < required_extension_count,
        (plan.flags != 0) <==> plan.extensions@.contains(Extension::PortabilityEnumeration),
{
    proof {
        lemma_texture_extensions(required_extension_count as nat, apple);
    }
    let layer = validation_layer_name();
    let enable_validation = contains_name(available_layers, &layer);
    let mut extensions: Vec<Extension> = Vec::new();
    let mut i: usize = 0;
    while i < required_extension_count
        invariant
            i <= required_extension_count,
            extensions@ == required_extensions(i as nat),
        decreases required_extension_count - i,
    {
        extensions.push(Extension::Required(i));
        assert(extensions@ =~= required_extensions((i + 1) as nat));
        i = i + 1;
    }
    extensions.push(Extension::DebugUtils);
    let ghost base = extensions@;
    if apple {
        extensions.push(Extension::PortabilityEnumeration);
        extensions.push(Extension::GetPhysicalDeviceProperties2);
    }
    assert(extensions@ =~= base + apple_instance_extensions(apple));
    let flags = if apple {
        INSTANCE_CREATE_ENUMERATE_PORTABILITY
    } else {
        0
    };
    InstancePlan { enable_validation, extensions, flags }
}

/// What the hello-Vulkan program found available before creating its
/// instance.
#[derive(Clone, Copy, Debug, PartialEq, Eq)]
pub struct InstanceSupport {
    pub validation: bool,
    pub debug_utils: bool,
    pub portability_enumeration: bool,
    pub get_physical_device_properties2: bool,
}

/// Looks up, in the names that the loader reports, the validation layer and
/// the three instance extensions that the hello-Vulkan program cares about.
pub fn probe_instance_support(available_layers: &Vec<String>, available_extensions: &Vec<String>) -> (support: InstanceSupport)
    ensures
        support.validation == has_name(available_layers@, "VK_LAYER_KHRONOS_validation"@),
        support.debug_utils == has_name(available_extensions@, "VK_EXT_debug_utils"@),
        support.portability_enumeration == has_name(
            available_extensions@,
            "VK_KHR_portability_enumeration"@,
        ),
        support.get_physical_device_properties2 == has_name(
            available_extensions@,
            "VK_KHR_get_physical_device_properties2"@,
        ),
{
    let validation = contains_name(available_layers, &validation_layer_name());
    let debug_utils = contains_name(available_extensions, &"VK_EXT_debug_utils".to_owned());
    let portability_enumeration = contains_name(
        available_extensions,
        &"VK_KHR_portability_enumeration".to_owned(),
    );
    let get_physical_device_properties2 = contains_name(
        available_extensions,
        &"VK_KHR_get_physical_device_properties2".to_owned(),
    );
    InstanceSupport {
        validation,
        debug_utils,
        portability_enumeration,
        get_physical_device_properties2,
    }
}

/// The extensions of the hello-Vulkan instance: debug utils only together
/// with validation; portability enumeration whenever it is available, and
/// then physical-device-properties-2 when available too.
pub open spec fn hello_extensions_spec(s: InstanceSupport) -> Seq<Extension> {
    let debug = if s.validation && s.debug_utils {
        seq![Extension::DebugUtils]
    } else {
        seq![]
    };
    let portability = if s.portability_enumeration {
        if s.get_physical_device_properties2 {
            seq![Extension::PortabilityEnumeration, Extension::GetPhysicalDeviceProperties2]
        } else {
            seq![Extension::PortabilityEnumeration]
        }
    } else {
        seq![]
    };
    debug + portability
}

/// Which extensions the hello-Vulkan instance asks for, in terms of what is
/// available: debug utils exactly when both the validation layer and the
/// debug-utils extension are available (whatever the portability support);
/// portability enumeration exactly when it is available; physical device
/// properties 2 exactly when it is available together with portability
/// enumeration. Nothing else is asked for, nothing twice, and debug utils,
/// when asked for, comes first.
pub proof fn lemma_hello_extensions(s: InstanceSupport)
    ensures
        hello_extensions_spec(s).contains(Extension::DebugUtils) <==> (s.validation
            && s.debug_utils),
        hello_extensions_spec(s).contains(Extension::PortabilityEnumeration)
            <==> s.portability_enumeration,
        hello_extensions_spec(s).contains(Extension::GetPhysicalDeviceProperties2) <==> (
        s.portability_enumeration && s.get_physical_device_properties2),
        forall|e: Extension|
            #[trigger] hello_extensions_spec(s).contains(e) ==> e == Extension::DebugUtils || e
                == Extension::PortabilityEnumeration || e
                == Extension::GetPhysicalDeviceProperties2,
        hello_extensions_spec(s).no_duplicates(),
        hello_extensions_spec(s).contains(Extension::DebugUtils) ==> hello_extensions_spec(s)[0]
            == Extension::DebugUtils,
{
    let e = hello_extensions_spec(s);
    if s.validation && s.debug_utils {
        assert(e[0] == Extension::DebugUtils);
    }
    if s.portability_enumeration {
        let k: int = if s.validation && s.debug_utils { 1 } else { 0 };
        assert(e[k] == Extension::PortabilityEnumeration);
        if s.get_physical_device_properties2 {
            assert(e[k + 1] == Extension::GetPhysicalDeviceProperties2);
        }
    }
}

/// The instance of the hello-Vulkan program, from what is available:
/// validation when the layer exists; the portability enumeration flag
/// whenever that extension is enabled.
pub fn hello_instance_plan(support: InstanceSupport) -> (plan: InstancePlan)
    ensures
        plan.enable_validation == support.validation,
        plan.extensions@ == hello_extensions_spec(support),
        plan.flags == (if support.portability_enumeration {
            INSTANCE_CREATE_ENUMERATE_PORTABILITY
        } else {
            0
        }),
        plan.extensions@.contains(Extension::DebugUtils) <==> (support.validation
            && support.debug_utils),
        plan.extensions@.contains(Extension::PortabilityEnumeration)
            <==> support.portability_enumeration,
        plan.extensions@.contains(Extension::GetPhysicalDeviceProperties2) <==> (
        support.portability_enumeration && support.get_physical_device_properties2),
        (plan.flags != 0) <==> plan.extensions@.contains(Extension::PortabilityEnumeration),
{
    proof {
        lemma_hello_extensions(support);
    }
    let mut extensions: Vec<Extension> = Vec::new();
    if support.validation && support.debug_utils {
        extensions.push(Extension::DebugUtils);
    }
    let use_portability = support.portability_enumeration;
    if use_portability {
        extensions.push(Extension::PortabilityEnumeration);
        if support.get_physical_device_properties2 {
            extensions.push(Extension::GetPhysicalDeviceProperties2);
        }
    }
    assert(extensions@ =~= hello_extensions_spec(support));
    let mut flags: u32 = 0;
    if use_portability {
        flags = flags | INSTANCE_CREATE_ENUMERATE_PORTABILITY;
    }
    assert(0u32 | 1u32 == 1u32) by (bit_vector);
    InstancePlan { enable_validation: support.validation, extensions, flags }
}

/// The device extensions of the texture example: the swapchain, and the
/// portability subset on Apple platforms.
pub fn texture_device_extensions(apple: bool) -> (extensions: Vec<Extension>)
    ensures
        extensions@ == (if apple {
            seq![Extension::Swapchain, Extension::PortabilitySubset]
        } else {
            seq![Extension::Swapchain]
        }),
{
    let mut extensions: Vec<Extension> = Vec::new();
    extensions.push(Extension::Swapchain);
    if apple {
        extensions.push(Extension::PortabilitySubset);
    }
    assert(extensions@ =~= (if apple {
        seq![Extension::Swapchain, Extension::PortabilitySubset]
    } else {
        seq![Extension::Swapchain]
    }));
    extensions
}

} // verus!
