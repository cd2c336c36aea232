//! Verified core of the brig dynamic binary translator: bit manipulation
//! helpers, the x86 operand/instruction model, register allocation and the
//! guest-visible architectural helpers.
#![allow(unused_imports)]

pub mod bits;
pub mod width;
pub mod encoder;
pub mod assembly;
pub mod regalloc;
pub mod trampoline;
pub mod sysreg;
pub mod pcie;
pub mod machine;
pub mod irq;
pub mod guest_mmu;
pub mod register_file;
pub mod value;
pub mod nodes;
pub mod emitter;
pub mod lowering_spec;
pub mod lowering;
pub mod page_fault;
pub mod device_access;
pub mod devices;
pub mod fs;
