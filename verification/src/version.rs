//! Graphics API version arithmetic and the compositor's version gate.
//!
//! The GPU backend packs a version into one 32-bit word
//! (variant, major, minor, patch); the compositor speaks in a 64-bit packing
//! of (major, minor, patch). The library keeps versions as plain structs and
//! proves that its field-wise ordering agrees with the packed ordering both
//! subsystems use.

use vstd::prelude::*;

verus! {

/// A compositor-style semantic version: 16-bit major and minor, 32-bit
/// patch.
#[derive(Clone, Copy, Debug, PartialEq, Eq, Structural)]
pub struct XrVersion {
    pub major: u16,
    pub minor: u16,
    pub patch: u32,
}

/// The compositor's 64-bit packing of a version:
/// major in the top 16 bits, minor in the next 16, patch in the low 32.
pub open spec fn xr_version_packed(v: XrVersion) -> int {
    v.major * 0x1_0000_0000_0000 + v.minor * 0x1_0000_0000 + v.patch
}

/// Field-wise (lexicographic) ordering on versions.
pub open spec fn xr_version_lt(a: XrVersion, b: XrVersion) -> bool {
    ||| a.major < b.major
    ||| (a.major == b.major && a.minor < b.minor)
    ||| (a.major == b.major && a.minor == b.minor && a.patch < b.patch)
}

impl XrVersion {
    /// Whether this version is strictly below `other`, field-wise.
    pub fn lt(&self, other: &XrVersion) -> (r: bool)
        ensures
            r == xr_version_lt(*self, *other),
    {
        if self.major != other.major {
            self.major < other.major
        } else if self.minor != other.minor {
            self.minor < other.minor
        } else {
            self.patch < other.patch
        }
    }
}

/// Law: the field-wise ordering and the compositor's packed 64-bit ordering
/// agree, so comparing version structs decides exactly what comparing the
/// packed words would.
pub proof fn lemma_version_order_matches_packed(a: XrVersion, b: XrVersion)
    ensures
        xr_version_lt(a, b) <==> xr_version_packed(a) < xr_version_packed(b),
{
}

/// Major version field of a GPU-backend 32-bit packed version.
pub open spec fn vk_major_spec(v: u32) -> u32 {
    (v >> 22) & 0x7f
}

/// Minor version field of a GPU-backend 32-bit packed version.
pub open spec fn vk_minor_spec(v: u32) -> u32 {
    (v >> 12) & 0x3ff
}

/// Patch version field of a GPU-backend 32-bit packed version.
pub open spec fn vk_patch_spec(v: u32) -> u32 {
    v & 0xfff
}

/// Major version field of a GPU-backend packed version.
pub fn vk_version_major(v: u32) -> (r: u32)
    ensures
        r == vk_major_spec(v),
{
    (v >> 22) & 0x7f
}

/// Minor version field of a GPU-backend packed version.
pub fn vk_version_minor(v: u32) -> (r: u32)
    ensures
        r == vk_minor_spec(v),
{
    (v >> 12) & 0x3ff
}

/// Patch version field of a GPU-backend packed version.
pub fn vk_version_patch(v: u32) -> (r: u32)
    ensures
        r == vk_patch_spec(v),
{
    v & 0xfff
}

/// Packs a GPU-backend version word from its fields.
pub fn vk_make_api_version(variant: u32, major: u32, minor: u32, patch: u32) -> (r: u32)
    ensures
        r == (variant << 29) | (major << 22) | (minor << 12) | patch,
{
    (variant << 29) | (major << 22) | (minor << 12) | patch
}

/// Law: packing in-range fields and extracting them again returns the
/// fields.
pub proof fn lemma_vk_version_roundtrip(variant: u32, major: u32, minor: u32, patch: u32)
    requires
        variant < 8,
        major < 0x80,
        minor < 0x400,
        patch < 0x1000,
    ensures
        vk_major_spec((variant << 29) | (major << 22) | (minor << 12) | patch) == major,
        vk_minor_spec((variant << 29) | (major << 22) | (minor << 12) | patch) == minor,
        vk_patch_spec((variant << 29) | (major << 22) | (minor << 12) | patch) == patch,
{
    assert((((variant << 29) | (major << 22) | (minor << 12) | patch) >> 22) & 0x7f == major
        && (((variant << 29) | (major << 22) | (minor << 12) | patch) >> 12) & 0x3ff == minor
        && (((variant << 29) | (major << 22) | (minor << 12) | patch)) & 0xfff == patch) by (bit_vector)
        requires
            variant < 8,
            major < 0x80,
            minor < 0x400,
            patch < 0x1000,
    ;
}

/// The compositor-style version naming the same release as a GPU-backend
/// packed version word (the variant field is dropped).
pub fn xr_version_of_vk(v: u32) -> (r: XrVersion)
    ensures
        r.major == vk_major_spec(v) as u16,
        r.minor == vk_minor_spec(v) as u16,
        r.patch == vk_patch_spec(v),
{
    proof {
        assert((v >> 22) & 0x7f < 0x1_0000 && (v >> 12) & 0x3ff < 0x1_0000) by (bit_vector);
    }
    XrVersion {
        major: vk_version_major(v) as u16,
        minor: vk_version_minor(v) as u16,
        patch: vk_version_patch(v),
    }
}

/// Applies the compositor's version gate: the target version must not lie
/// below the compositor's floor, and its major version must not exceed the
/// compositor's advertised ceiling major.
pub fn check_graphics_requirements(
    target: XrVersion,
    min_supported: XrVersion,
    max_supported: XrVersion,
) -> (ok: bool)
    ensures
        ok <==> (!xr_version_lt(target, min_supported) && target.major <= max_supported.major),
{
    !target.lt(&min_supported) && target.major <= max_supported.major
}

} // verus!
