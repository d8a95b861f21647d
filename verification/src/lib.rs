//! An image-resizing proxy core: validates a requested source host against an
//! allow-list, checks the metadata of the upstream response, decodes the body
//! into a raster, resizes it under a "fit" or "fill" policy, and encodes the
//! result as JPEG bytes. The surrounding binary performs the network transfer
//! and hands this library plain values.

pub mod allowlist;
pub mod errors;
pub mod fetch;
pub mod geometry;
pub mod pipeline;
pub mod raster;
pub mod urlhost;
