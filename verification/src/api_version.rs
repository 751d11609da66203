//! Packed Vulkan API version numbers (`variant.major.minor.patch` in one `u32`).

use vstd::prelude::*;

verus! {

/// Packs the four parts into one word: `ash::vk::make_api_version` shifts
/// `variant` by 29, `major` by 22 and `minor` by 12 bits and ORs them with
/// `patch`; the contract states exactly that expression.
#[verifier::external_body]
fn vk_make_api_version(variant: u32, major: u32, minor: u32, patch: u32) -> (r: u32)
    ensures
        r == ((variant << 29u32) | (major << 22u32) | (minor << 12u32) | patch),
{
    ash::vk::make_api_version(variant, major, minor, patch)
}

/// `ash::vk::api_version_variant`: the top three bits.
#[verifier::external_body]
fn vk_api_version_variant(version: u32) -> (r: u32)
    ensures
        r == version >> 29u32,
{
    ash::vk::api_version_variant(version)
}

/// `ash::vk::api_version_major`: seven bits above bit 22.
#[verifier::external_body]
fn vk_api_version_major(version: u32) -> (r: u32)
    ensures
        r == (version >> 22u32) & 0x7fu32,
{
    ash::vk::api_version_major(version)
}

/// `ash::vk::api_version_minor`: ten bits above bit 12.
#[verifier::external_body]
fn vk_api_version_minor(version: u32) -> (r: u32)
    ensures
        r == (version >> 12u32) & 0x3ffu32,
{
    ash::vk::api_version_minor(version)
}

/// `ash::vk::api_version_patch`: the low twelve bits.
#[verifier::external_body]
fn vk_api_version_patch(version: u32) -> (r: u32)
    ensures
        r == version & 0xfffu32,
{
    ash::vk::api_version_patch(version)
}

/// The four parts of an API version.
#[derive(Clone, Copy, Debug, PartialEq, Eq)]
pub struct ApiVersion {
    pub variant: u32,
    pub major: u32,
    pub minor: u32,
    pub patch: u32,
}

impl ApiVersion {
    /// Every part fits in its field of the packed word.
    pub open spec fn in_range(self) -> bool {
        &&& self.variant < 8
        &&& self.major < 128
        &&& self.minor < 1024
        &&& self.patch < 4096
    }

    /// The packed word of these parts (bits that do not fit are dropped).
    pub open spec fn packed(self) -> u32 {
        (self.variant << 29u32) | (self.major << 22u32) | (self.minor << 12u32) | self.patch
    }

    /// `(variant, major, minor, patch)` of `self` is lexicographically
    /// smaller than that of `other`.
    pub open spec fn lex_lt(self, other: ApiVersion) -> bool {
        ||| self.variant < other.variant
        ||| self.variant == other.variant && self.major < other.major
        ||| self.variant == other.variant && self.major == other.major && self.minor
            < other.minor
        ||| self.variant == other.variant && self.major == other.major && self.minor
            == other.minor && self.patch < other.patch
    }
}

/// The parts read back from a packed word.
pub open spec fn unpacked(version: u32) -> ApiVersion {
    ApiVersion {
        variant: version >> 29u32,
        major: (version >> 22u32) & 0x7fu32,
        minor: (version >> 12u32) & 0x3ffu32,
        patch: version & 0xfffu32,
    }
}

/// Packs `variant.major.minor.patch` into the word that Vulkan expects
/// (`VK_MAKE_API_VERSION`).
pub fn make_api_version(variant: u32, major: u32, minor: u32, patch: u32) -> (r: u32)
    ensures
        r == (ApiVersion { variant, major, minor, patch }).packed(),
{
    vk_make_api_version(variant, major, minor, patch)
}

/// Splits a packed API version into its four parts.
pub fn decode_api_version(version: u32) -> (r: ApiVersion)
    ensures
        r == unpacked(version),
        r.in_range(),
{
    let r = ApiVersion {
        variant: vk_api_version_variant(version),
        major: vk_api_version_major(version),
        minor: vk_api_version_minor(version),
        patch: vk_api_version_patch(version),
    };
    proof {
        lemma_unpacked_in_range(version);
    }
    r
}

/// Vulkan 1.0 (`VK_API_VERSION_1_0`).
pub fn api_version_1_0() -> (r: u32)
    ensures
        r == (ApiVersion { variant: 0, major: 1, minor: 0, patch: 0 }).packed(),
{
    make_api_version(0, 1, 0, 0)
}

/// Vulkan 1.1 (`VK_API_VERSION_1_1`).
pub fn api_version_1_1() -> (r: u32)
    ensures
        r == (ApiVersion { variant: 0, major: 1, minor: 1, patch: 0 }).packed(),
{
    make_api_version(0, 1, 1, 0)
}

/// Vulkan 1.3 (`VK_API_VERSION_1_3`).
pub fn api_version_1_3() -> (r: u32)
    ensures
        r == (ApiVersion { variant: 0, major: 1, minor: 3, patch: 0 }).packed(),
{
    make_api_version(0, 1, 3, 0)
}

/// A device that reports `device_version` provides at least `required`.
pub fn supports_api_version(device_version: u32, required: u32) -> (r: bool)
    ensures
        r == (device_version >= required),
        r == !unpacked(device_version).lex_lt(unpacked(required)),
{
    proof {
        lemma_unpacked_in_range(device_version);
        lemma_unpacked_in_range(required);
        lemma_packed_order(unpacked(device_version), unpacked(required));
        lemma_pack_unpack(device_version);
        lemma_pack_unpack(required);
    }
    device_version >= required
}

/// Every part read from a packed word fits in its field.
pub proof fn lemma_unpacked_in_range(version: u32)
    ensures
        unpacked(version).in_range(),
{
    assert(version >> 29u32 < 8) by (bit_vector);
    assert((version >> 22u32) & 0x7fu32 < 128) by (bit_vector);
    assert((version >> 12u32) & 0x3ffu32 < 1024) by (bit_vector);
    assert(version & 0xfffu32 < 4096) by (bit_vector);
}

/// Reading the parts back from a packed version gives the parts that were
/// packed, whenever each part fits in its field.
pub proof fn lemma_unpack_pack(v: ApiVersion)
    requires
        v.in_range(),
    ensures
        unpacked(v.packed()) == v,
{
    let (a, b, c, d) = (v.variant, v.major, v.minor, v.patch);
    assert(((a << 29u32) | (b << 22u32) | (c << 12u32) | d) >> 29u32 == a) by (bit_vector)
        requires
            a < 8,
            b < 128,
            c < 1024,
            d < 4096,
    ;
    assert((((a << 29u32) | (b << 22u32) | (c << 12u32) | d) >> 22u32) & 0x7fu32 == b)
        by (bit_vector)
        requires
            a < 8,
            b < 128,
            c < 1024,
            d < 4096,
    ;
    assert((((a << 29u32) | (b << 22u32) | (c << 12u32) | d) >> 12u32) & 0x3ffu32 == c)
        by (bit_vector)
        requires
            a < 8,
            b < 128,
            c < 1024,
            d < 4096,
    ;
    assert(((a << 29u32) | (b << 22u32) | (c << 12u32) | d) & 0xfffu32 == d) by (bit_vector)
        requires
            a < 8,
            b < 128,
            c < 1024,
            d < 4096,
    ;
}

/// Packing the parts read from any word gives back that word: the four
/// fields cover all 32 bits.
pub proof fn lemma_pack_unpack(version: u32)
    ensures
        unpacked(version).packed() == version,
{
    assert(((version >> 29u32) << 29u32) | (((version >> 22u32) & 0x7fu32) << 22u32) | ((
    (version >> 12u32) & 0x3ffu32) << 12u32) | (version & 0xfffu32) == version) by (bit_vector);
}

/// Packed versions compare as their parts do, lexicographically, whenever
/// each part fits in its field.
pub proof fn lemma_packed_order(x: ApiVersion, y: ApiVersion)
    requires
        x.in_range(),
        y.in_range(),
    ensures
        (x.packed() < y.packed()) == x.lex_lt(y),
        (x.packed() == y.packed()) == (x == y),
{
    let (a, b, c, d) = (x.variant, x.major, x.minor, x.patch);
    let (e, f, g, h) = (y.variant, y.major, y.minor, y.patch);
    assert(((a << 29u32) | (b << 22u32) | (c << 12u32) | d) < ((e << 29u32) | (f << 22u32) | (g
        << 12u32) | h) <==> (a < e || (a == e && b < f) || (a == e && b == f && c < g) || (a
        == e && b == f && c == g && d < h))) by (bit_vector)
        requires
            a < 8,
            b < 128,
            c < 1024,
            d < 4096,
            e < 8,
            f < 128,
            g < 1024,
            h < 4096,
    ;
    lemma_unpack_pack(x);
    lemma_unpack_pack(y);
}

} // verus!
