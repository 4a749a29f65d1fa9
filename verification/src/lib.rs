//! Physical-memory management core of a bare-metal kernel.
//!
//! The crate tracks which 4 KiB physical page frames are free or in use,
//! encodes and decodes the hardware's page-translation table entries, and
//! bootstraps a one-shot arena allocator that exists only long enough to
//! build the frame bitmap.  Hardware access (register reads, the direct-map
//! dereference, the framebuffer console) lives outside this crate; the logic
//! here works on plain values handed in from that boundary.

pub mod bit_utils;
pub mod bitmap;
pub mod bootstrap_allocator;
pub mod control;
pub mod cpuid;
pub mod gdt;
pub mod idt;
pub mod mem;
pub mod memory_map;
pub mod page;
pub mod paging;
pub mod walker;
