//! A data bridge between Bevy images and Burn tensors.
//!
//! A [`BevyBurnHandle`](handle::BevyBurnHandle) ties one image of a Bevy asset collection to one
//! Burn tensor and says in which direction their contents are to be carried over, and whether in
//! host memory or in device memory. This crate holds the rules of that bridge: which handle takes
//! part in which transfer, how channel values become bytes, how image assets are rewritten, how the
//! rows of a texture lie in a staging buffer, and how much compute work a copy needs.

pub mod cpu;
pub mod device;
pub mod gpu;
pub mod handle;
pub mod images;
pub mod plugin;
pub mod quantize;
pub mod simulation;
pub mod tensor;
