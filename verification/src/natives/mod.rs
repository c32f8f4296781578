//! The native functions, each as a function of plain values: what the
//! virtual machine hands over has been unpacked, what it takes back is yet
//! to be packed.

pub mod aggregator_natives;
pub mod cryptography;
