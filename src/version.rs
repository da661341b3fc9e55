use vstd::prelude::*;

verus! {

/// The packed form of a version number: 3 bits of variant, 7 of major,
/// 10 of minor and 12 of patch.
pub open spec fn packed_version(variant: u32, major: u32, minor: u32, patch: u32) -> int {
    variant * 0x2000_0000 + major * 0x40_0000 + minor * 0x1000 + patch
}

/// Relies on ash::vk::make_api_version, which shifts each part into place and
/// ors them together.
#[verifier::external_body]
fn make_api_version(variant: u32, major: u32, minor: u32, patch: u32) -> (r: u32)
    requires
        variant < 8,
        major < 0x80,
        minor < 0x400,
        patch < 0x1000,
    ensures
        r == packed_version(variant, major, minor, patch),
{
    ash::vk::make_api_version(variant, major, minor, patch)
}

/// Version reported for the application and engine identity.
pub fn engine_version() -> (r: u32)
    ensures
        r == packed_version(0, 0, 1, 0),
{
    make_api_version(0, 0, 1, 0)
}

/// The API version requested for the instance: the one the loader reports,
/// else version 1.0.
pub fn instance_api_version(reported: Option<u32>) -> (r: u32)
    ensures
        r == match reported {
            Some(v) => v as int,
            None => packed_version(0, 1, 0, 0),
        },
{
    match reported {
        Some(v) => v,
        None => make_api_version(0, 1, 0, 0),
    }
}

} // verus!
