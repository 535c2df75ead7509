use amd_hypervisor::connector::IoctlConnector;
use amd_hypervisor::ctl_code::{
    ctl_code, ctl_code_fn, device_ioctl, ioctl_request, IoctlRequest, FILE_DEVICE_UNKNOWN, FILE_READ_ACCESS, FILE_WRITE_ACCESS,
    IOCTL_INSTALL, IOCTL_UNLOAD, IOCTL_UNUSED, METHOD_BUFFERED, METHOD_NEITHER,
};

#[test]
fn test_ctl_code() {
    assert_eq!(
        ctl_code_fn(
            FILE_DEVICE_UNKNOWN,
            0x800,
            METHOD_BUFFERED,
            FILE_READ_ACCESS | FILE_WRITE_ACCESS
        ),
        0x22e000
    );
    assert_eq!(
        ctl_code_fn(
            FILE_DEVICE_UNKNOWN,
            0x801,
            METHOD_BUFFERED,
            FILE_READ_ACCESS | FILE_WRITE_ACCESS
        ),
        0x22e004
    );
    assert_eq!(
        ctl_code_fn(
            FILE_DEVICE_UNKNOWN,
            0x802,
            METHOD_BUFFERED,
            FILE_READ_ACCESS | FILE_WRITE_ACCESS
        ),
        0x22e008
    );
}

#[test]
fn ctl_code_places_each_part() {
    assert_eq!(ctl_code(0x22, 0x800, METHOD_NEITHER, 0), 0x22_2003);
    assert_eq!(ctl_code(1, 0, 0, 0), 0x1_0000);
    assert_eq!(ctl_code(0, 0, 0, 1), 0x4000);
    assert_eq!(ctl_code(0, 1, 0, 0), 4);
    // The device type's high bits are shifted out of the 32 bits.
    assert_eq!(ctl_code(0x1_0001, 0, 0, 0), 0x1_0000);
}

#[test]
fn device_ioctl_gives_the_driver_codes() {
    assert_eq!(device_ioctl(0x800), IOCTL_INSTALL);
    assert_eq!(device_ioctl(0x801), IOCTL_UNLOAD);
    assert_eq!(device_ioctl(0x802), IOCTL_UNUSED);
}

#[test]
fn connector_opens_only_on_success() {
    assert_eq!(IoctlConnector::connect(0, 0x1234), Some(0x1234));
    assert_eq!(IoctlConnector::connect(5, 7), None);
    assert_eq!(IoctlConnector::connect(-1073741823, 7), None);
    assert_eq!(IoctlConnector::connect(0, 0x1_0000_0002), Some(2));
    assert!(IoctlConnector::new(None, 1).is_none());
    let c = IoctlConnector::new(Some(5), 42).unwrap();
    assert_eq!(c.pid, 42);
    assert_eq!(c.handle, 5);
    assert_eq!(c.call(0), None);
    assert_eq!(c.call(1), Some(()));
}

#[test]
fn ioctl_requests_by_code() {
    assert_eq!(ioctl_request(0x22e000), IoctlRequest::Install);
    assert_eq!(ioctl_request(0x22e004), IoctlRequest::Unload);
    assert_eq!(ioctl_request(0x22e008), IoctlRequest::Unused);
    assert_eq!(ioctl_request(0x22e00c), IoctlRequest::Other);
}
