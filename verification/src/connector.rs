//! The user-mode side of the driver's I/O controls: a handle to the device
//! and the decisions on what the kernel answered.
use vstd::prelude::*;

verus! {

/// The status the kernel answers a successful request with.
pub const STATUS_SUCCESS: i32 = 0;

/// An open handle to the driver's device, for a process.
#[derive(Debug)]
pub struct IoctlConnector {
    pub pid: u32,
    pub handle: i32,
}

impl IoctlConnector {
    /// The connector for process `pid`, when the device could be opened
    /// (`handle` is what `connect` gave).
    pub fn new(handle: Option<i32>, pid: u32) -> (r: Option<Self>)
        ensures
            match handle {
                Some(h) => r matches Some(c) && c.pid == pid && c.handle == h,
                None => r is None,
            },
    {
        match handle {
            Some(handle) => Some(IoctlConnector { pid, handle }),
            None => None,
        }
    }

    /// The handle of an opened device: the kernel opened it with status
    /// `status` and handed back `handle`; the handle, cut to 32 bits, on
    /// success, none otherwise.
    pub fn connect(status: i32, handle: u64) -> (r: Option<i32>)
        ensures
            r == (if status == STATUS_SUCCESS {
                Some(handle as i32)
            } else {
                None
            }),
    {
        if status == STATUS_SUCCESS {
            Some(handle as i32)
        } else {
            None
        }
    }

    /// The outcome of an I/O control sent through this connector, from the
    /// value `DeviceIoControl` returned: nonzero is success.
    pub fn call(&self, status: i32) -> (r: Option<()>)
        ensures
            r == (if status == 0 {
                None
            } else {
                Some(())
            }),
    {
        if status == 0 {
            None
        } else {
            Some(())
        }
    }
}

} // verus!
