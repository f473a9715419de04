//! Vulkan version numbers: the triple, its packed form and its order.

use vstd::prelude::*;

verus! {

/// The packed form of a version number: ten bits of major version above ten
/// bits of minor version above twelve bits of patch version. Parts that do not
/// fit in their bits spill over or are cut off, as the shifts dictate.
pub open spec fn packed_version(major: u32, minor: u32, patch: u32) -> u32 {
    (major << 22u32) | (minor << 12u32) | patch
}

/// `vulkanalia::vk::make_version` packs a version triple into one word by
/// shifting the major version left by 22 bits, the minor version by 12 bits,
/// and or-ing both with the patch version. It cannot fail.
pub assume_specification[ vulkanalia::vk::make_version ](
    major: u32,
    minor: u32,
    patch: u32,
) -> (word: u32)
    ensures
        word == packed_version(major, minor, patch),
;

/// `vulkanalia::Version` derives its order, so two versions compare by major
/// version first, then by minor version, then by patch version. The wrapper
/// rebuilds both sides with `vulkanalia::Version::new`, which stores its three
/// arguments unchanged, and compares them with that order.
#[verifier::external_body]
fn version_not_below(left: Version, right: Version) -> (holds: bool)
    ensures
        holds == left.spec_at_least(right),
{
    vulkanalia::Version::new(left.major, left.minor, left.patch) >= vulkanalia::Version::new(
        right.major,
        right.minor,
        right.patch,
    )
}

/// A Vulkan version `major.minor.patch`.
#[derive(Clone, Copy, Debug, PartialEq, Eq, Structural)]
pub struct Version {
    pub major: u32,
    pub minor: u32,
    pub patch: u32,
}

impl Version {
    /// The version `major.minor.patch`.
    pub fn new(major: u32, minor: u32, patch: u32) -> (version: Version)
        ensures
            version == (Version { major, minor, patch }),
    {
        Version { major, minor, patch }
    }

    /// Whether this version is `other` or a later one.
    pub open spec fn spec_at_least(self, other: Version) -> bool {
        ||| self.major > other.major
        ||| self.major == other.major && self.minor > other.minor
        ||| self.major == other.major && self.minor == other.minor && self.patch >= other.patch
    }

    /// Whether this version is `other` or a later one.
    #[verifier::when_used_as_spec(spec_at_least)]
    pub fn at_least(self, other: Version) -> (holds: bool)
        ensures
            holds == self.spec_at_least(other),
    {
        version_not_below(self, other)
    }

    /// The version as one word, as the driver expects it.
    pub fn packed(self) -> (word: u32)
        ensures
            word == packed_version(self.major, self.minor, self.patch),
    {
        vulkanalia::vk::make_version(self.major, self.minor, self.patch)
    }
}

/// The first loader version that can enumerate portability devices.
pub open spec fn portability_threshold() -> Version {
    Version { major: 1, minor: 3, patch: 216 }
}

} // verus!
