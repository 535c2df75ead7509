//! Structures and helpers around the Windows kernel.
pub mod addresses;
pub mod inline_hook;
pub mod memory;
pub mod structs;
pub mod physmem_descriptor;
pub mod processor;
pub mod stack;
