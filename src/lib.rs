//! A low-overhead logging pipeline: records are batched per thread, handed
//! to a single writer over an unbounded channel, and rendered to text lines
//! on the writer's side.

pub mod buffer;
pub mod channel;
pub mod config;
pub mod record;
pub mod text;
pub mod writer;
