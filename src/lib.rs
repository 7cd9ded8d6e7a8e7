//! Boot-time memory subsystem of a firmware-booted x86_64 kernel: the
//! firmware memory map, a frame allocator over its usable regions, and the
//! decisions taken while handing the machine over from firmware.

pub mod address_space;
pub mod cpu;
pub mod efi;
pub mod error;
pub mod firmware;
pub mod frame;
pub mod frame_laws;
pub mod keyboard;
pub mod listing;
pub mod memory;

