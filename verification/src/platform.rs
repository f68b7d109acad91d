//! What the platforms have in common.

use vstd::prelude::*;

verus! {

/// The kinds of platform.
#[non_exhaustive]
#[derive(Clone, Copy, Debug, PartialEq, Eq, Structural)]
pub enum PlatformType {
    XRT,
    OPAE,
}

impl PlatformType {
    /// The name of the platform, in lower case.
    pub fn name(&self) -> (name: &'static str)
        ensures
            name@ == (match self {
                PlatformType::XRT => "xrt"@,
                PlatformType::OPAE => "opae"@,
            }),
    {
        match self {
            PlatformType::XRT => "xrt",
            PlatformType::OPAE => "opae",
        }
    }
}

/// A platform that can be made from a configuration of its own.
pub trait Platform: Sized {
    /// What is needed to make this platform.
    type Configuration;

    /// How this platform fails.
    type Error;

    /// The kind of this platform, which tells, for one thing, which bit
    /// streams fit it.
    fn platform(&self) -> PlatformType;

    /// Makes the platform that `configuration` describes.
    fn from_configuration(configuration: Self::Configuration) -> Result<Self, Self::Error>;
}

/// A platform with memory-mapped registers.
pub trait MMIO: Platform {
    /// Reads `len` bytes at `offset`.
    fn read_mmio<const N: usize>(&self, offset: usize, len: usize) -> Result<[u8; N], Self::Error>;

    /// Writes `data` at `offset`.
    fn write_mmio<T>(&mut self, offset: usize, data: T) -> Result<(), Self::Error> where
        T: AsRef<[u8]>,
    ;
}

/// A platform that can be programmed.
pub trait Program: Platform {
    /// What the platform is programmed with.
    type Source;

    /// What programming yields.
    type Output;

    /// Programs the platform with `source`.
    fn program(&mut self, source: Self::Source) -> Result<Self::Output, Self::Error>;
}

/// Picks the platform to use from those that could be made: XRT where it
/// is there, else OPAE, else none.
pub fn discover(xrt: bool, opae: bool) -> (platform: Option<PlatformType>)
    ensures
        platform == (if xrt {
            Some(PlatformType::XRT)
        } else if opae {
            Some(PlatformType::OPAE)
        } else {
            None
        }),
{
    if xrt {
        Some(PlatformType::XRT)
    } else if opae {
        Some(PlatformType::OPAE)
    } else {
        None
    }
}

} // verus!
