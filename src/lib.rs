//! Virtual-machine control core of a bare-metal hypervisor: the per-core VM
//! lifecycle, the EPT function-hooking engine and the MSR-interception logic,
//! each stated over a mathematical model and proved.

pub mod error;
pub mod paging;
pub mod registers;

pub mod ept;
pub mod memory_manager;
pub mod msr_bitmap;

pub mod hook_manager;
pub mod vm;
pub mod vmerror;

pub mod boot;
pub mod msr;
