//! Helpers of the driver: the return addresses found on a stack and the
//! memory it allocates.
pub mod memory;
pub mod stack;
