//! Verified layout logic for 10-bit 4:2:2 v210 video and the caps,
//! colour and block-configuration rules around it.

pub mod bins;
pub mod blocks;
pub mod caps;
pub mod pack;
pub mod color;
pub mod definitions;
pub mod mxl;
pub mod properties;
pub mod proxy;
pub mod text;
pub mod v210;
