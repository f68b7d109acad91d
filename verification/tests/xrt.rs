use fpga::xrt::info::{parse_bool, parse_u16, parse_u64, parse_u8, parse_unsigned, Thermal};
use fpga::xrt::{same_text, temperature, Configuration};

fn thermal(location: &str, degrees: u8) -> Thermal {
    Thermal {
        location_id: String::from(location),
        description: String::from("sensor"),
        temp_c: degrees,
        is_present: true,
    }
}

#[test]
fn numbers_are_read_from_decimal_text() {
    assert_eq!(parse_u8("0"), Some(0));
    assert_eq!(parse_u8("255"), Some(255));
    assert_eq!(parse_u8("256"), None);
    assert_eq!(parse_u8("+7"), Some(7));
    assert_eq!(parse_u8("007"), Some(7));
    assert_eq!(parse_u16("65535"), Some(65535));
    assert_eq!(parse_u16("65536"), None);
    assert_eq!(parse_u64("18446744073709551615"), Some(u64::MAX));
    assert_eq!(parse_u64("18446744073709551616"), None);
    assert_eq!(parse_u64("99999999999999999999999"), None);
    assert_eq!(parse_unsigned("1000", 999), None);
    assert_eq!(parse_unsigned("999", 999), Some(999));
}

#[test]
fn what_is_no_number_is_refused() {
    for text in ["", "+", "-1", "-0", "1 ", " 1", "1_0", "0x10", "1.5", "12a", "++1", "\u{663}"] {
        assert_eq!(parse_u64(text), None, "{:?}", text);
        assert_eq!(parse_u64(text), text.parse::<u64>().ok(), "{:?}", text);
    }
}

#[test]
fn numbers_are_read_as_the_standard_library_reads_them() {
    for text in ["0", "+0", "00", "42", "255", "256", "+255", "65535", "65536", "4294967296"] {
        assert_eq!(parse_u8(text), text.parse::<u8>().ok(), "{:?}", text);
        assert_eq!(parse_u16(text), text.parse::<u16>().ok(), "{:?}", text);
        assert_eq!(parse_u64(text), text.parse::<u64>().ok(), "{:?}", text);
    }
}

#[test]
fn truth_values_are_read_to_the_letter() {
    assert_eq!(parse_bool("true"), Some(true));
    assert_eq!(parse_bool("false"), Some(false));
    for text in ["", "True", "TRUE", "1", "0", "yes", "true ", "falsey", "tru"] {
        assert_eq!(parse_bool(text), None, "{:?}", text);
        assert_eq!(parse_bool(text), text.parse::<bool>().ok(), "{:?}", text);
    }
}

#[test]
fn temperature_is_that_of_the_first_fpga_sensor() {
    let thermals = vec![thermal("pcb", 30), thermal("fpga0", 55), thermal("fpga0", 70)];
    assert_eq!(temperature(&thermals), 55);
    assert_eq!(temperature(&vec![thermal("pcb", 30), thermal("fpga1", 40)]), 0);
    assert_eq!(temperature(&Vec::new()), 0);
}

#[test]
fn texts_are_compared_whole() {
    assert!(same_text("fpga0", "fpga0"));
    assert!(!same_text("fpga0", "fpga"));
    assert!(!same_text("fpga0", "FPGA0"));
    assert!(same_text("", ""));
}

#[test]
fn device_index_is_cut_to_32_bits() {
    assert_eq!(Configuration::DeviceIndex(0).device_index(), 0);
    assert_eq!(Configuration::DeviceIndex(2).device_index(), 2);
    assert_eq!(Configuration::DeviceIndex(0xffff_ffff).device_index(), 0xffff_ffff);
    assert_eq!(Configuration::DeviceIndex(0x1_0000_0003).device_index(), 3);
}
