//! Production-line test and firmware-flash fixture logic for an embedded
//! fan controller ("EC") attached over USB.
//!
//! This crate holds the decision core of the fixture: the device-identity
//! filters, the security-unlock state machine, the bounded retry runners
//! that drive polling loops, mount resolution, firmware-flash cardinality
//! rules, and the post-flash identity and fan verification. Every function
//! here is pure over plain values and verified; the surrounding program
//! performs the actual USB, sysfs, mount-table and file I/O and feeds the
//! observations in.

pub mod blockdev;
pub mod bytes;
pub mod device;
pub mod errors;
pub mod fans;
pub mod fixture;
pub mod firmware;
pub mod mounts;
pub mod security;
