//! Recording and validation of GPU command streams.
//!
//! A [`registry::Registry`] hands out generation-checked handles for buffers,
//! textures, bind groups and pipelines. A [`encoder::CommandEncoder`] records
//! copies and passes against it, a pass recorder collects the draws or
//! dispatches of one pass, and finishing an encoder yields an immutable
//! [`buffer::CommandBuffer`].
pub mod error;
pub mod geometry;
pub mod native;
pub mod registry;
pub mod command;
pub mod validate;
pub mod encoder;
pub mod buffer;
pub mod pass;
pub mod compute;
pub mod render;
pub mod laws;
