//! Secure Virtual Machine support: paging structures, the MSR permission
//! map, event injection, the VMCB and the #VMEXIT handlers.
pub mod data;
pub mod events;
pub mod paging;
pub mod processors;
pub mod nested_page_table;
pub mod msr_bitmap;
pub mod vmcb;
pub mod vmexit;
