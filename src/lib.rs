//! A firmware boot stage and the kernel-side pieces it hands over to.
//!
//! The loader reads an executable image, plans the physical range its
//! segments occupy, places them at the addresses they were linked for, and
//! passes the display surface to the kernel. Each step of that sequence is a
//! phase type in `boot`; the firmware calls themselves stay with the caller,
//! which feeds their outcomes in. The kernel side draws into the frame buffer,
//! keeps a text console, and walks the PCI buses.

pub mod error;
pub mod layout;
pub mod elf;
pub mod image;
pub mod relocate;
pub mod frame_buffer;
pub mod boot;
pub mod graphics;
pub mod pci;
pub mod pci_scan;
