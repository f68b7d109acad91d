use fpga::errors::{Error, Status};
use fpga::platform::{discover, PlatformType};

const ALL: [Status; 11] = [
    Status::Success,
    Status::InvalidParam,
    Status::Busy,
    Status::Exception,
    Status::NotFound,
    Status::NoMemory,
    Status::NotSupported,
    Status::NoDriver,
    Status::NoDaemon,
    Status::NoAccess,
    Status::ReconfError,
];

#[test]
fn codes_are_those_of_the_runtime() {
    for (code, status) in ALL.iter().enumerate() {
        assert_eq!(status.code(), code as u32);
        assert_eq!(Status::from_code(code as u32), Some(*status));
    }
    assert_eq!(Status::from_code(11), None);
    assert_eq!(Status::from_code(u32::MAX), None);
}

#[test]
fn only_success_is_ok() {
    for status in ALL {
        assert_eq!(status.is_ok(), status == Status::Success);
        let checked = Error::check(status);
        if status == Status::Success {
            assert_eq!(checked, Ok(()));
        } else {
            assert_eq!(checked, Err(Error { status }));
        }
    }
}

#[test]
fn error_keeps_its_status() {
    let error = Error::new(Status::NoDriver);
    assert_eq!(error.status(), Status::NoDriver);
    assert_eq!(Error::from(Status::Busy), Error { status: Status::Busy });
    assert!(Error::new(Status::NotFound).is_not_found());
    assert!(!Error::new(Status::NotFound).is_invalid_parameter());
    assert!(Error::new(Status::InvalidParam).is_invalid_parameter());
    assert!(!Error::new(Status::Exception).is_not_found());
}

#[test]
fn platform_names() {
    assert_eq!(PlatformType::XRT.name(), "xrt");
    assert_eq!(PlatformType::OPAE.name(), "opae");
}

#[test]
fn discover_prefers_xrt() {
    assert_eq!(discover(true, true), Some(PlatformType::XRT));
    assert_eq!(discover(true, false), Some(PlatformType::XRT));
    assert_eq!(discover(false, true), Some(PlatformType::OPAE));
    assert_eq!(discover(false, false), None);
}
