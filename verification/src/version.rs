//! Packed Vulkan version numbers and what an application tells the driver
//! about itself.

use vstd::prelude::*;

verus! {

/// The packed form of a Vulkan version: variant in the top three bits, then
/// seven bits of major, ten of minor and twelve of patch.
pub open spec fn packed_version(variant: u32, major: u32, minor: u32, patch: u32) -> u32 {
    (variant << 29) | (major << 22) | (minor << 12) | patch
}

/// `ash::vk::make_api_version` shifts each component to its place and ors
/// them together; nothing is masked, so an oversized component spills into
/// its neighbour exactly as `packed_version` says.
pub assume_specification[ ash::vk::make_api_version ](
    variant: u32,
    major: u32,
    minor: u32,
    patch: u32,
) -> (version: u32)
    ensures
        version == packed_version(variant, major, minor, patch),
;

/// The packed forms of the versions the engine names.
pub proof fn lemma_packed_versions()
    ensures
        packed_version(0, 1, 0, 0) == 0x0040_0000,
        packed_version(0, 1, 1, 0) == 0x0040_1000,
        packed_version(0, 1, 2, 0) == 0x0040_2000,
        packed_version(0, 1, 3, 0) == 0x0040_3000,
{
    assert((0u32 << 29) | (1u32 << 22) | (0u32 << 12) | 0u32 == 0x0040_0000u32) by (bit_vector);
    assert((0u32 << 29) | (1u32 << 22) | (1u32 << 12) | 0u32 == 0x0040_1000u32) by (bit_vector);
    assert((0u32 << 29) | (1u32 << 22) | (2u32 << 12) | 0u32 == 0x0040_2000u32) by (bit_vector);
    assert((0u32 << 29) | (1u32 << 22) | (3u32 << 12) | 0u32 == 0x0040_3000u32) by (bit_vector);
}

/// Components that fit their fields can be read back from the packed form.
pub proof fn lemma_packed_version_fields(variant: u32, major: u32, minor: u32, patch: u32)
    requires
        variant < 8,
        major < 128,
        minor < 1024,
        patch < 4096,
    ensures
        packed_version(variant, major, minor, patch) >> 29 == variant,
        (packed_version(variant, major, minor, patch) >> 22) & 0x7f == major,
        (packed_version(variant, major, minor, patch) >> 12) & 0x3ff == minor,
        packed_version(variant, major, minor, patch) & 0xfff == patch,
{
    assert(((variant << 29) | (major << 22) | (minor << 12) | patch) >> 29 == variant
        && ((((variant << 29) | (major << 22) | (minor << 12) | patch) >> 22) & 0x7f) == major
        && ((((variant << 29) | (major << 22) | (minor << 12) | patch) >> 12) & 0x3ff) == minor
        && (((variant << 29) | (major << 22) | (minor << 12) | patch) & 0xfff) == patch)
        by (bit_vector)
        requires
            variant < 8,
            major < 128,
            minor < 1024,
            patch < 4096,
    ;
}

/// What an application tells the driver about itself.
#[derive(Debug)]
pub struct ApplicationInfo {
    pub name: String,
    pub version: u32,
    pub engine_name: String,
    pub engine_version: u32,
    pub api_version: u32,
}

impl ApplicationInfo {
    /// An application by the given names and versions, for the given
    /// version of Vulkan.
    pub fn new(
        name: &str,
        version: u32,
        engine_name: &str,
        engine_version: u32,
        api_version: u32,
    ) -> (info: Self)
        ensures
            info.name@ == name@,
            info.version == version,
            info.engine_name@ == engine_name@,
            info.engine_version == engine_version,
            info.api_version == api_version,
    {
        Self {
            name: name.to_owned(),
            version,
            engine_name: engine_name.to_owned(),
            engine_version,
            api_version,
        }
    }

    /// An application for Vulkan 1.0.
    pub fn with_api_version_1_0(
        name: &str,
        version: u32,
        engine_name: &str,
        engine_version: u32,
    ) -> (info: Self)
        ensures
            info.name@ == name@,
            info.version == version,
            info.engine_name@ == engine_name@,
            info.engine_version == engine_version,
            info.api_version == packed_version(0, 1, 0, 0),
    {
        Self::new(
            name,
            version,
            engine_name,
            engine_version,
            ash::vk::make_api_version(0, 1, 0, 0),
        )
    }

    /// An application for Vulkan 1.1.
    pub fn with_api_version_1_1(
        name: &str,
        version: u32,
        engine_name: &str,
        engine_version: u32,
    ) -> (info: Self)
        ensures
            info.name@ == name@,
            info.version == version,
            info.engine_name@ == engine_name@,
            info.engine_version == engine_version,
            info.api_version == packed_version(0, 1, 1, 0),
    {
        Self::new(
            name,
            version,
            engine_name,
            engine_version,
            ash::vk::make_api_version(0, 1, 1, 0),
        )
    }

    /// An application for Vulkan 1.2.
    pub fn with_api_version_1_2(
        name: &str,
        version: u32,
        engine_name: &str,
        engine_version: u32,
    ) -> (info: Self)
        ensures
            info.name@ == name@,
            info.version == version,
            info.engine_name@ == engine_name@,
            info.engine_version == engine_version,
            info.api_version == packed_version(0, 1, 2, 0),
    {
        Self::new(
            name,
            version,
            engine_name,
            engine_version,
            ash::vk::make_api_version(0, 1, 2, 0),
        )
    }

    /// An application for Vulkan 1.3.
    pub fn with_api_version_1_3(
        name: &str,
        version: u32,
        engine_name: &str,
        engine_version: u32,
    ) -> (info: Self)
        ensures
            info.name@ == name@,
            info.version == version,
            info.engine_name@ == engine_name@,
            info.engine_version == engine_version,
            info.api_version == packed_version(0, 1, 3, 0),
    {
        Self::new(
            name,
            version,
            engine_name,
            engine_version,
            ash::vk::make_api_version(0, 1, 3, 0),
        )
    }
}

impl Default for ApplicationInfo {
    /// Version 1.0.0 of "Vulkan Engine" on no engine, for Vulkan 1.3.
    fn default() -> (info: Self)
        ensures
            info.name@ == "Vulkan Engine"@,
            info.version == packed_version(0, 1, 0, 0),
            info.engine_name@ == "No Engine"@,
            info.engine_version == packed_version(0, 1, 0, 0),
            info.api_version == packed_version(0, 1, 3, 0),
    {
        Self::with_api_version_1_3(
            "Vulkan Engine",
            ash::vk::make_api_version(0, 1, 0, 0),
            "No Engine",
            ash::vk::make_api_version(0, 1, 0, 0),
        )
    }
}

} // verus!
