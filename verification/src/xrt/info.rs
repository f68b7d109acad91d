//! What the XRT runtime reports of a device.
//!
//! The runtime writes its reports as text, numbers and truth values
//! included. The types here hold the reports with every field read, and the
//! functions say how a number or a truth value is read from its text.

use vstd::prelude::*;
use vstd::string::StringSliceAdditionalSpecFns;
use crate::attribute::Guid;

verus! {

/// The temperature sensors of a device.
#[derive(Clone, Debug, PartialEq, Eq)]
pub struct Thermals {
    pub thermals: Vec<Thermal>,
}

/// One temperature sensor.
#[derive(Clone, Debug, PartialEq, Eq)]
pub struct Thermal {
    pub location_id: String,
    pub description: String,
    pub temp_c: u8,
    pub is_present: bool,
}

/// The moving parts of a device.
#[derive(Clone, Debug, PartialEq, Eq)]
pub struct Mechanical {
    pub fans: Vec<Fan>,
}

/// One fan.
#[derive(Clone, Debug, PartialEq, Eq)]
pub struct Fan {
    pub location_id: String,
    pub description: String,
    pub speed_rpm: u16,
    pub critical_trigger_temp_c: u8,
    pub is_present: bool,
}

/// The memory of a device, or why it could not be told.
#[derive(Clone, Debug, PartialEq, Eq)]
pub struct Memory {
    pub board: Option<Board>,
    pub error_msg: Option<String>,
}

/// The memory on the board.
#[derive(Clone, Debug, PartialEq, Eq)]
pub struct Board {
    pub direct_memory_accesses: DirectMemoryAccesses,
    pub memory: InnerMemory,
}

/// The channels for direct memory access.
#[derive(Clone, Debug, PartialEq, Eq)]
pub struct DirectMemoryAccesses {
    pub metrics: Vec<Metric>,
    pub ty: String,
}

/// The traffic of one channel.
#[derive(Clone, Debug, PartialEq, Eq)]
pub struct Metric {
    pub channel_id: u8,
    pub card_to_host_bytes: String,
    pub host_to_card_bytes: String,
}

/// The memories and data streams of a board.
#[derive(Clone, Debug, PartialEq, Eq)]
pub struct InnerMemory {
    pub data_streams: Vec<DataStream>,
    pub memories: Vec<Mem>,
}

/// One memory.
#[derive(Clone, Debug, PartialEq, Eq)]
pub struct Mem {
    pub base_address: String,
    pub enabled: bool,
    pub error_msg: Option<String>,
    pub extended_info: ExtendedInfo,
    pub range_bytes: String,
    pub tag: String,
    pub ty: String,
}

/// More about a memory.
#[derive(Clone, Debug, PartialEq, Eq)]
pub struct ExtendedInfo {
    pub usage: Usage,
}

/// How much of a memory is in use.
#[derive(Clone, Debug, PartialEq, Eq)]
pub struct Usage {
    pub allocated_bytes: u64,
    pub buffer_objects_count: u64,
}

/// One data stream.
#[derive(Clone, Debug, PartialEq, Eq)]
pub struct DataStream {
    pub tag: String,
}

/// What a device is built of.
#[derive(Clone, Debug, PartialEq, Eq)]
pub struct Platform {
    pub controller: Controller,
    pub macs: Vec<Mac>,
    pub off_chip_board_info: OffChipBoardInfo,
    pub static_region: StaticRegion,
    pub status: Status,
}

/// The controllers of a device.
#[derive(Clone, Debug, PartialEq, Eq)]
pub struct Controller {
    pub card_mgmt_controller: CardMgmtController,
    pub satellite_controller: SatelliteController,
}

/// The card management controller.
#[derive(Clone, Debug, PartialEq, Eq)]
pub struct CardMgmtController {
    pub oem_id: String,
    pub serial_number: String,
    pub version: String,
}

/// The satellite controller.
#[derive(Clone, Debug, PartialEq, Eq)]
pub struct SatelliteController {
    pub expected_version: String,
    pub version: String,
}

/// One network address.
#[derive(Clone, Debug, PartialEq, Eq)]
pub struct Mac {
    pub address: String,
}

/// The memory beside the chip.
#[derive(Clone, Debug, PartialEq, Eq)]
pub struct OffChipBoardInfo {
    pub ddr_count: u8,
    pub ddr_size_bytes: u64,
}

/// The part of the chip that stays as it is.
#[derive(Clone, Debug, PartialEq, Eq)]
pub struct StaticRegion {
    pub fpga_name: String,
    pub interface_uuid: String,
    pub jtag_idcode: String,
    pub vbnv: String,
}

/// The state of a device.
#[derive(Clone, Debug, PartialEq, Eq)]
pub struct Status {
    pub mig_calibrated: bool,
    pub p2p_status: String,
}

/// How a device sits on the PCI bus.
#[derive(Clone, Debug, PartialEq, Eq)]
pub struct PCIeInfo {
    pub cpu_affinity: String,
    pub device: String,
    pub dma_thread_count: u8,
    pub express_lane_width_count: u8,
    pub link_speed_gbit_sec: u16,
    pub max_shared_host_mem_aperture_bytes: u64,
    pub sub_device: String,
    pub sub_vendor: String,
    pub vendor: String,
}

/// The software on the host.
#[derive(Clone, Debug, PartialEq, Eq)]
pub struct Host {
    pub branch: String,
    pub build_date: String,
    pub hash: String,
    pub version: String,
}

/// The part of the chip that is loaded.
#[derive(Clone, Debug, PartialEq, Eq)]
pub struct DynamicRegions {
    pub xclbin_uuid: Guid,
}

/// Whether `byte` is a decimal digit.
pub open spec fn is_digit(byte: u8) -> bool {
    48 <= byte <= 57
}

/// Whether `digits` holds decimal digits only.
pub open spec fn all_digits(digits: Seq<u8>) -> bool {
    forall|place: int| 0 <= place < digits.len() ==> is_digit(#[trigger] digits[place])
}

/// The number that the decimal digits `digits` write.
pub open spec fn digits_value(digits: Seq<u8>) -> nat
    decreases digits.len(),
{
    if digits.len() == 0 {
        0
    } else {
        digits_value(digits.drop_last()) * 10 + (digits.last() - 48) as nat
    }
}

/// The number that `text` writes, if it writes one that is at most `max`:
/// an optional plus sign, then one decimal digit or more, and nothing else.
pub open spec fn spec_parse_unsigned(text: Seq<u8>, max: nat) -> Option<nat> {
    let digits = if text.len() > 0 && text[0] == 43 {
        text.drop_first()
    } else {
        text
    };
    if digits.len() > 0 && all_digits(digits) && digits_value(digits) <= max {
        Some(digits_value(digits))
    } else {
        None
    }
}

/// The truth value that `text` writes, if it writes one: `true` or `false`
/// to the letter.
pub open spec fn spec_parse_bool(text: Seq<u8>) -> Option<bool> {
    if text == seq![116u8, 114u8, 117u8, 101u8] {
        Some(true)
    } else if text == seq![102u8, 97u8, 108u8, 115u8, 101u8] {
        Some(false)
    } else {
        None
    }
}

/// A number is no smaller than what its leading digits write.
pub proof fn lemma_digits_grow(digits: Seq<u8>, len: int)
    requires
        0 <= len <= digits.len(),
        all_digits(digits),
    ensures
        digits_value(digits.take(len)) <= digits_value(digits),
    decreases digits.len() - len,
{
    if len == digits.len() {
        assert(digits.take(len) =~= digits);
    } else {
        lemma_digits_grow(digits, len + 1);
        let longer = digits.take(len + 1);
        assert(longer.drop_last() =~= digits.take(len));
        assert(is_digit(digits[len]));
        assert(longer.last() == digits[len]);
    }
}

/// Reads a number of at most `max` from `text`.
pub fn parse_unsigned(text: &str, max: u64) -> (number: Option<u64>)
    ensures
        number is Some <==> spec_parse_unsigned(text.spec_bytes(), max as nat) is Some,
        number matches Some(value) ==> spec_parse_unsigned(text.spec_bytes(), max as nat)
            == Some(value as nat),
{
    let bytes = text.as_bytes();
    let start: usize = if bytes.len() > 0 && bytes[0] == 43 {
        1
    } else {
        0
    };
    let ghost digits = if start == 1 {
        bytes@.drop_first()
    } else {
        bytes@
    };
    if start == bytes.len() {
        return None;
    }
    let mut value: u64 = 0;
    let mut place: usize = start;
    while place < bytes.len()
        invariant
            start <= place <= bytes.len(),
            bytes@ == text.spec_bytes(),
            digits == (if bytes@.len() > 0 && bytes@[0] == 43 {
                bytes@.drop_first()
            } else {
                bytes@
            }),
            digits.len() > 0,
            digits.len() == bytes.len() - start,
            forall|k: int| 0 <= k < digits.len() ==> digits[k] == bytes@[k + start],
            all_digits(digits.take(place - start)),
            value == digits_value(digits.take(place - start)),
            value <= max,
        decreases bytes.len() - place,
    {
        let byte = bytes[place];
        if byte < 48 || byte > 57 {
            proof {
                assert(digits[place - start] == byte);
                assert(!is_digit(digits[place - start]));
            }
            return None;
        }
        let ghost longer = digits.take(place - start + 1);
        proof {
            assert(longer.drop_last() =~= digits.take(place - start));
            assert(longer.last() == byte);
            assert forall|k: int| 0 <= k < longer.len() implies is_digit(#[trigger] longer[k]) by {
                if k < place - start {
                    assert(longer[k] == digits.take(place - start)[k]);
                }
            }
        }
        let next: u128 = value as u128 * 10 + (byte - 48) as u128;
        if next > max as u128 {
            proof {
                if all_digits(digits) {
                    lemma_digits_grow(digits, place - start + 1);
                }
            }
            return None;
        }
        value = next as u64;
        place += 1;
    }
    proof {
        assert(digits.take(place - start) =~= digits);
    }
    Some(value)
}

/// Reads a number that fits eight bits.
pub fn parse_u8(text: &str) -> (number: Option<u8>)
    ensures
        number is Some <==> spec_parse_unsigned(text.spec_bytes(), 0xff) is Some,
        number matches Some(value) ==> spec_parse_unsigned(text.spec_bytes(), 0xff) == Some(
            value as nat,
        ),
{
    match parse_unsigned(text, 0xff) {
        Some(value) => Some(value as u8),
        None => None,
    }
}

/// Reads a number that fits sixteen bits.
pub fn parse_u16(text: &str) -> (number: Option<u16>)
    ensures
        number is Some <==> spec_parse_unsigned(text.spec_bytes(), 0xffff) is Some,
        number matches Some(value) ==> spec_parse_unsigned(text.spec_bytes(), 0xffff) == Some(
            value as nat,
        ),
{
    match parse_unsigned(text, 0xffff) {
        Some(value) => Some(value as u16),
        None => None,
    }
}

/// Reads a number that fits sixty-four bits.
pub fn parse_u64(text: &str) -> (number: Option<u64>)
    ensures
        number is Some <==> spec_parse_unsigned(text.spec_bytes(), 0xffff_ffff_ffff_ffff) is Some,
        number matches Some(value) ==> spec_parse_unsigned(
            text.spec_bytes(),
            0xffff_ffff_ffff_ffff,
        ) == Some(value as nat),
{
    parse_unsigned(text, 0xffff_ffff_ffff_ffff)
}

/// Reads a truth value.
pub fn parse_bool(text: &str) -> (truth: Option<bool>)
    ensures
        truth == spec_parse_bool(text.spec_bytes()),
{
    let bytes = text.as_bytes();
    if bytes.len() == 4 && bytes[0] == 116 && bytes[1] == 114 && bytes[2] == 117 && bytes[3]
        == 101 {
        assert(bytes@ =~= seq![116u8, 114u8, 117u8, 101u8]);
        Some(true)
    } else if bytes.len() == 5 && bytes[0] == 102 && bytes[1] == 97 && bytes[2] == 108
        && bytes[3] == 115 && bytes[4] == 101 {
        assert(bytes@ =~= seq![102u8, 97u8, 108u8, 115u8, 101u8]);
        Some(false)
    } else {
        proof {
            let yes = seq![116u8, 114u8, 117u8, 101u8];
            let no = seq![102u8, 97u8, 108u8, 115u8, 101u8];
            if bytes@ == yes {
                assert(yes.len() == 4 && yes[0] == 116 && yes[1] == 114 && yes[2] == 117 && yes[3]
                    == 101);
            }
            if bytes@ == no {
                assert(no.len() == 5 && no[0] == 102 && no[1] == 97 && no[2] == 108 && no[3]
                    == 115 && no[4] == 101);
            }
        }
        None
    }
}


} // verus!
