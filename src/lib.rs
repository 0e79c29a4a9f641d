//! Loader for an ELF hypervisor kernel run from UEFI firmware: header and
//! program-header parsing, the boot decisions taken around the firmware calls,
//! the handoff table given to the kernel, and the one-time loading of the
//! boot-service driver.

pub mod bytes;
pub mod elf;
pub mod uefi;
pub mod info;
pub mod dtb;
pub mod handoff;
pub mod loader;
pub mod bsdriver;
