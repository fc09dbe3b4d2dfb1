use serial::errno;
use serial::error::{ErrorKind, IoKind};
use serial::tty::validate_device_path;
use serial::windows_error;

// Codes that say the device path is unusable map to NoDevice.
#[test]
fn unix_device_codes_map_to_no_device() {
    for code in [
        errno::EBUSY,
        errno::EISDIR,
        errno::ELOOP,
        errno::ENOTDIR,
        errno::ENOENT,
        errno::ENODEV,
        errno::ENXIO,
        errno::EACCES,
    ] {
        assert_eq!(errno::from_raw_os_error(code).kind(), ErrorKind::NoDevice);
    }
}

// A nonexistent device path fails to open with ENOENT, which the mapper
// classifies as NoDevice.
#[test]
fn missing_device_code_is_no_device() {
    assert_eq!(errno::from_raw_os_error(errno::ENOENT).kind(), ErrorKind::NoDevice);
}

// Malformed-argument codes map to InvalidInput.
#[test]
fn unix_argument_codes_map_to_invalid_input() {
    assert_eq!(errno::from_raw_os_error(errno::EINVAL).kind(), ErrorKind::InvalidInput);
    assert_eq!(
        errno::from_raw_os_error(errno::ENAMETOOLONG).kind(),
        ErrorKind::InvalidInput
    );
}

// Interrupted and would-block keep their identity; everything else is
// Io(Other).
#[test]
fn unix_io_codes_keep_their_subkind() {
    assert_eq!(
        errno::from_raw_os_error(errno::EINTR).kind(),
        ErrorKind::Io(IoKind::Interrupted)
    );
    assert_eq!(
        errno::from_raw_os_error(errno::EWOULDBLOCK).kind(),
        ErrorKind::Io(IoKind::WouldBlock)
    );
    assert_eq!(errno::from_raw_os_error(1).kind(), ErrorKind::Io(IoKind::Other));
    assert_eq!(errno::from_raw_os_error(9999).kind(), ErrorKind::Io(IoKind::Other));
}

// The message comes from the platform's error-to-string facility: it is
// never empty for a real code.
#[test]
fn unix_error_carries_platform_message() {
    let e = errno::from_raw_os_error(errno::ENOENT);
    assert!(!e.description().is_empty());
}

// Reading the last-error slot always yields a classifiable error.
#[test]
fn last_os_error_returns_classified_error() {
    let e = errno::last_os_error();
    match e.kind() {
        ErrorKind::NoDevice | ErrorKind::InvalidInput | ErrorKind::Io(_) => {}
    }
}

// A device identifier with an embedded NUL byte is invalid input.
#[test]
fn embedded_nul_in_path_is_invalid_input() {
    let r = validate_device_path(b"/dev/tty\0USB0");
    assert_eq!(r.unwrap_err().kind(), ErrorKind::InvalidInput);
}

#[test]
fn well_formed_path_is_accepted() {
    assert!(validate_device_path(b"/dev/ttyUSB0").is_ok());
}

// The COM-port backend's coarser policy: open-failure codes map to
// NoDevice, everything else to Io(Other).
#[test]
fn windows_codes_classify_to_same_taxonomy() {
    for code in [
        windows_error::ERROR_FILE_NOT_FOUND,
        windows_error::ERROR_PATH_NOT_FOUND,
        windows_error::ERROR_ACCESS_DENIED,
    ] {
        assert_eq!(windows_error::from_raw_os_error(code).kind(), ErrorKind::NoDevice);
    }
    assert_eq!(
        windows_error::from_raw_os_error(87).kind(),
        ErrorKind::Io(IoKind::Other)
    );
    let e = windows_error::last_os_error();
    match e.kind() {
        ErrorKind::NoDevice | ErrorKind::Io(_) | ErrorKind::InvalidInput => {}
    }
}

// The trimmed message of the COM-port policy carries no trailing newline.
#[test]
fn windows_message_is_trimmed() {
    let e = windows_error::from_raw_os_error(2);
    let d = e.description().to_string();
    assert_eq!(d.trim(), d);
}
