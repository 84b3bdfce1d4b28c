//! Sliding-window, time-weighted averages over a regularly sampled series.
//!
//! Instants are whole seconds since the Unix epoch. The library decides, for
//! every alignment of a fixed-length window against the series, which samples
//! take part, where the window's exact boundaries fall and how the boundary
//! values are obtained (interpolated between two neighbours, or the last stored
//! sample). Sample values are carried through unchanged, whatever their type.

pub mod instant;
pub mod forecast;
pub mod laws;
