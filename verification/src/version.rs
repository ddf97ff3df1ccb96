//! Vulkan packed version numbers.

use vstd::prelude::*;

verus! {

/// A Vulkan API version, unpacked from its 32-bit encoding.
///
/// The packed layout places the major number in bits 22 and above,
/// the minor number in bits 12 through 21, and the patch number in
/// the low 12 bits.
pub struct VkVersion {
    pub major: u32,
    pub minor: u32,
    pub patch: u32,
}

impl VkVersion {
    /// Unpack a 32-bit encoded version into its three components.
    pub fn parse(value: u32) -> (version: VkVersion)
        ensures
            version.major == value >> 22,
            version.minor == (value >> 12) & 0x3ff,
            version.patch == value & 0xfff,
    {
        let major = value >> 22;
        let minor = (value >> 12) & 0x3ff;
        let patch = value & 0xfff;
        VkVersion { major, minor, patch }
    }
}

} // verus!
