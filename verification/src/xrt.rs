//! The XRT platform: how a device is named, and what the runtime reports of
//! it.

use vstd::prelude::*;
use crate::xrt::info::Thermal;

pub mod info;

verus! {

/// How to name the device to open.
#[derive(Clone, Debug, PartialEq, Eq)]
pub enum Configuration {
    /// By its place among the devices of the system.
    DeviceIndex(usize),
    /// By its PCI address, written as bus, device and function.
    Bdf(String),
}

impl Configuration {
    /// The index that the runtime is asked to open for this configuration.
    /// The runtime counts devices in 32 bits, and an index is cut to that
    /// width. A configuration by PCI address has no index and is left out.
    pub fn device_index(&self) -> (index: u32)
        requires
            self is DeviceIndex,
        ensures
            index == (self->DeviceIndex_0 as int) % 0x1_0000_0000,
    {
        match self {
            Configuration::DeviceIndex(index) => {
                let wide: u64 = *index as u64;
                (wide % 0x1_0000_0000) as u32
            },
            Configuration::Bdf(_) => 0,
        }
    }
}

/// The first of `thermals` at or after place `from` that sits at
/// `location`, if there is one.
pub open spec fn spec_find_location(
    thermals: Seq<Thermal>,
    location: Seq<char>,
    from: int,
) -> Option<Thermal>
    decreases thermals.len() - from,
{
    if from < 0 || from >= thermals.len() {
        None
    } else if thermals[from].location_id@ == location {
        Some(thermals[from])
    } else {
        spec_find_location(thermals, location, from + 1)
    }
}

/// The temperature of the device in degrees Celsius: that of the first
/// sensor that sits at `fpga0`, and zero where no sensor does.
pub fn temperature(thermals: &Vec<Thermal>) -> (degrees: u8)
    ensures
        degrees == (match spec_find_location(thermals@, "fpga0"@, 0) {
            Some(thermal) => thermal.temp_c,
            None => 0,
        }),
{
    let location = "fpga0";
    let mut place: usize = 0;
    while place < thermals.len()
        invariant
            place <= thermals.len(),
            location@ == "fpga0"@,
            spec_find_location(thermals@, "fpga0"@, place as int) == spec_find_location(
                thermals@,
                "fpga0"@,
                0,
            ),
        decreases thermals.len() - place,
    {
        if same_text(thermals[place].location_id.as_str(), location) {
            return thermals[place].temp_c;
        }
        place += 1;
    }
    0
}

/// Whether two texts are the same.
pub fn same_text(left: &str, right: &str) -> (same: bool)
    ensures
        same == (left@ == right@),
{
    let left = left.to_owned();
    let right = right.to_owned();
    left == right
}

} // verus!
