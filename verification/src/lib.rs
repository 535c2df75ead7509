//! Verified core of an AMD SVM hypervisor: the MSR permission map, nested page
//! tables, event injection, #VMEXIT handling decisions and the small helpers
//! around them.
#![allow(non_snake_case)]
#![allow(non_camel_case_types)]

use vstd::prelude::*;

pub mod connector;
pub mod ctl_code;
pub mod handlers;
pub mod hook;
pub mod nt;
pub mod svm;
pub mod utils;
pub mod vm_test;

verus! {

} // verus!
