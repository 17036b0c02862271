//! Verified core of a muxing/demuxing toolkit: media descriptors, timestamp
//! rescaling, the single-file writer's header/trailer discipline, the
//! segmenting writer's rotation policy and the reader's frame pump.
//!
//! The container engine itself is driven by the caller: every type here holds
//! the plain values the decisions read, and every decision is returned as a
//! value for the caller to carry out.

pub mod codec;
pub mod mp4_writer;
pub mod naming;
pub mod options;
pub mod owned;
pub mod reader;
pub mod rescale;
pub mod split;
pub mod writer;
