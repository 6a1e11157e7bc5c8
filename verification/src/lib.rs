//! Core USB 2.0 and PD types, descriptors, setup packets, the mass-storage
//! bulk-only transport engine and the host enumeration sequence.
pub mod codec;
pub mod types;
pub mod setup;
pub mod class;
pub mod descriptor;
pub mod scsi;
pub mod msc_class;
pub mod host;
pub mod pd;
