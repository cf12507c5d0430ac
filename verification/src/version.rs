use vstd::prelude::*;

verus! {

/// A packed API version word, as the graphics runtime lays it out: the
/// variant in the top three bits, then seven bits of major version, ten bits
/// of minor version, and twelve bits of patch level.
pub open spec fn spec_api_version(variant: u32, major: u32, minor: u32, patch: u32) -> u32 {
    (variant << 29u32) | (major << 22u32) | (minor << 12u32) | patch
}

/// The packed version word for API version 1.3.
pub const API_VERSION_1_3: u32 = (1u32 << 22u32) | (3u32 << 12u32);

/// Pack version numbers into one word.
pub fn make_api_version(variant: u32, major: u32, minor: u32, patch: u32) -> (v: u32)
    ensures
        v == spec_api_version(variant, major, minor, patch),
{
    (variant << 29u32) | (major << 22u32) | (minor << 12u32) | patch
}

} // verus!
