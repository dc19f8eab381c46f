//! Verified core of a multistage x86_64 bootloader.

pub mod descriptor;
pub mod serial;
pub mod terminal;
pub mod paging;
pub mod bytes;
pub mod vbe;
pub mod disk;
pub mod load;
pub mod mmap;
pub mod rsdp;
pub mod control;
pub mod tss;
pub mod boot;
pub mod image;
