use vulkan_training::api_version::{
    api_version_1_0, api_version_1_1, api_version_1_3, decode_api_version, make_api_version,
    supports_api_version, ApiVersion,
};

#[test]
fn constants_match_ash() {
    assert_eq!(api_version_1_0(), ash::vk::API_VERSION_1_0);
    assert_eq!(api_version_1_1(), ash::vk::API_VERSION_1_1);
    assert_eq!(api_version_1_3(), ash::vk::API_VERSION_1_3);
}

#[test]
fn packs_parts() {
    assert_eq!(make_api_version(0, 1, 0, 0), 1 << 22);
    assert_eq!(make_api_version(0, 1, 3, 281), (1 << 22) | (3 << 12) | 281);
    assert_eq!(make_api_version(1, 0, 0, 0), 1 << 29);
}

#[test]
fn decodes_device_version() {
    // The hello program prints `major.minor.patch` of the device version;
    // MoltenVK reported 1.0.357 there.
    let v = decode_api_version(make_api_version(0, 1, 0, 357));
    assert_eq!(v, ApiVersion { variant: 0, major: 1, minor: 0, patch: 357 });
    let w = decode_api_version(0xFFFF_FFFF);
    assert_eq!(w, ApiVersion { variant: 7, major: 127, minor: 1023, patch: 4095 });
}

#[test]
fn round_trip() {
    // Law: decoding what was packed gives the parts back (parts in range),
    // and packing what was decoded gives the word back.
    for (a, b, c, d) in [(0, 1, 2, 3), (7, 127, 1023, 4095), (0, 0, 0, 0), (3, 64, 512, 2048)] {
        let v = decode_api_version(make_api_version(a, b, c, d));
        assert_eq!((v.variant, v.major, v.minor, v.patch), (a, b, c, d));
    }
    for w in [0u32, 1, 0x0040_3119, 0xDEAD_BEEF, u32::MAX] {
        let v = decode_api_version(w);
        assert_eq!(make_api_version(v.variant, v.major, v.minor, v.patch), w);
    }
}

#[test]
fn ordering_follows_parts() {
    // Law: packed versions compare like their parts.
    let v1_1 = api_version_1_1();
    assert!(supports_api_version(make_api_version(0, 1, 1, 0), v1_1));
    assert!(supports_api_version(make_api_version(0, 1, 2, 0), v1_1));
    assert!(supports_api_version(make_api_version(0, 2, 0, 0), v1_1));
    assert!(!supports_api_version(make_api_version(0, 1, 0, 4095), v1_1));
    assert!(!supports_api_version(api_version_1_0(), v1_1));
}
