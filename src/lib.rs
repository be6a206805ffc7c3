//! Boot information for an x86_64 kernel: one view of the framebuffer,
//! memory map, ACPI root pointer and command line, whichever of three boot
//! protocols started the kernel.
pub mod boot_info;
pub mod error;
pub mod kernel;
pub mod limine_entry;
pub mod multiboot2;
