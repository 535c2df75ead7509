//! Helper functions for working with ctl codes.
use vstd::prelude::*;

verus! {

pub const METHOD_BUFFERED: u32 = 0;
pub const METHOD_IN_DIRECT: u32 = 1;
pub const METHOD_OUT_DIRECT: u32 = 2;
pub const METHOD_NEITHER: u32 = 3;

pub const FILE_ANY_ACCESS: u32 = 0;
pub const FILE_SPECIAL_ACCESS: u32 = 0;
pub const FILE_READ_ACCESS: u32 = 0x0001;
pub const FILE_WRITE_ACCESS: u32 = 0x0002;

pub const FILE_DEVICE_UNKNOWN: u32 = 0x00000022;

pub const IOCTL_INSTALL: u32 = 0x22e000;
pub const IOCTL_UNLOAD: u32 = 0x22e004;
pub const IOCTL_UNUSED: u32 = 0x22e008;

/// The value of a ctl code: device type in bits 16 and up, required access in
/// bits 14-15, function in bits 2-13 and transfer method in bits 0-1, each
/// shifted with 32-bit wrap-around and the parts or-ed together.
pub open spec fn ctl_code_spec(device_type: u32, function: u32, method: u32, access: u32) -> u32 {
    (device_type << 16u32) | (access << 14u32) | (function << 2u32) | method
}

/// Creates a new ctl code from the parameters.
pub fn ctl_code_fn(device_type: u32, function: u32, method: u32, access: u32) -> (r: u32)
    ensures
        r == ctl_code_spec(device_type, function, method, access),
{
    device_type << 16 | access << 14 | function << 2 | method
}

/// Creates a new ctl code from the parameters.
pub fn ctl_code(device_type: u32, function: u32, method: u32, access: u32) -> (r: u32)
    ensures
        r == ctl_code_spec(device_type, function, method, access),
{
    device_type << 16 | access << 14 | function << 2 | method
}

/// The ioctl code of an unknown device with buffered transfer and read/write
/// access for the given function number.
pub open spec fn device_ioctl_spec(function: u32) -> u32 {
    ctl_code_spec(FILE_DEVICE_UNKNOWN, function, METHOD_BUFFERED, FILE_READ_ACCESS | FILE_WRITE_ACCESS)
}

/// Creates a new ioctl code for the specified function of an unknown device.
pub fn device_ioctl(function: u32) -> (r: u32)
    ensures
        r == device_ioctl_spec(function),
{
    ctl_code_fn(FILE_DEVICE_UNKNOWN, function, METHOD_BUFFERED, FILE_READ_ACCESS | FILE_WRITE_ACCESS)
}

/// Each part of a ctl code stands in its own bits: a transfer method below 4
/// is the code's low two bits whatever the other parts are, and parts that
/// fit their fields (device type below 0x10000, access below 4, function
/// below 0x1000) are read back from bits 16 to 31, 14 to 15 and 2 to 13.
pub proof fn lemma_ctl_code_fields(device_type: u32, function: u32, method: u32, access: u32)
    by (bit_vector)
    ensures
        method < 4 ==> ctl_code_spec(device_type, function, method, access) & 3u32 == method,
        method < 4 && access < 4 && function < 0x1000 && device_type < 0x10000 ==> {
            &&& (ctl_code_spec(device_type, function, method, access) >> 2u32) & 0xfffu32 == function
            &&& (ctl_code_spec(device_type, function, method, access) >> 14u32) & 3u32 == access
            &&& ctl_code_spec(device_type, function, method, access) >> 16u32 == device_type
        },
{
}

/// The driver's ioctl codes are those of functions 0x800, 0x801 and 0x802.
pub proof fn lemma_ioctl_codes()
    ensures
        device_ioctl_spec(0x800) == IOCTL_INSTALL,
        device_ioctl_spec(0x801) == IOCTL_UNLOAD,
        device_ioctl_spec(0x802) == IOCTL_UNUSED,
{
    assert(((0x22u32 << 16u32) | (3u32 << 14u32) | (0x800u32 << 2u32) | 0u32) == 0x22e000u32
        && ((0x22u32 << 16u32) | (3u32 << 14u32) | (0x801u32 << 2u32) | 0u32) == 0x22e004u32
        && ((0x22u32 << 16u32) | (3u32 << 14u32) | (0x802u32 << 2u32) | 0u32) == 0x22e008u32
        && FILE_READ_ACCESS | FILE_WRITE_ACCESS == 3u32) by (bit_vector);
}

/// The requests the driver's device answers.
#[derive(Debug, Clone, Copy, PartialEq, Eq, Structural)]
pub enum IoctlRequest {
    Install,
    Unload,
    Unused,
    /// A code the driver does not know.
    Other,
}

/// The request an I/O control code asks for.
pub fn ioctl_request(code: u32) -> (r: IoctlRequest)
    ensures
        r == (if code == IOCTL_INSTALL {
            IoctlRequest::Install
        } else if code == IOCTL_UNLOAD {
            IoctlRequest::Unload
        } else if code == IOCTL_UNUSED {
            IoctlRequest::Unused
        } else {
            IoctlRequest::Other
        }),
{
    if code == IOCTL_INSTALL {
        IoctlRequest::Install
    } else if code == IOCTL_UNLOAD {
        IoctlRequest::Unload
    } else if code == IOCTL_UNUSED {
        IoctlRequest::Unused
    } else {
        IoctlRequest::Other
    }
}

} // verus!
