//! Core of a virtio 1.x device back-end: the PCI-attached register model that
//! terminates the virtio transport for the guest, the MSI-X interrupt delivery
//! decisions, the per-device worker state machine, and the PCI capability
//! layout glue, together with a small AArch64 system-register encoder.
//!
//! Everything here is the decision and data logic of the transport: the
//! surrounding process machinery (threads, pollers, file descriptors, the MSI
//! submission primitive) lives outside and hands plain values in and out.

pub mod dev;
pub mod msix;
pub mod pci;
pub mod pci_cap;
pub mod sysreg;
pub mod virtio;
