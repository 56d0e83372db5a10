//! Read access to live telemetry published by racing simulators through
//! named shared-memory regions.
//!
//! The crate models one telemetry client per simulator variant. A client
//! opens up to three named regions (physics, graphics, static session info)
//! through a pluggable shared-memory backend, and decodes the raw region
//! bytes into fixed-layout snapshot records. Floating-point telemetry values
//! are carried as their raw little-endian bit patterns (`u32`), so that the
//! byte layout of every record is an explicit, verified contract.

pub mod ac;
pub mod acc;
pub mod ace;
pub mod utils;
