//! Verified core of a default-audio-device switcher: device-record
//! normalization, include/exclude pattern filtering, and cyclic rotation of
//! the default device through the filtered list.

pub mod device;
pub mod filter;
pub mod patterns;
pub mod rotation;
