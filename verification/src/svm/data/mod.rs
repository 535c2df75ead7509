//! The data of the hypervisor: guest registers, per-processor data, the
//! MSR permission map and the data all processors share.
pub mod guest;
pub mod processor;
pub mod shared_data;
