//! Granular time-stretching and pitch-shifting: the verified core.
//!
//! The sample type is a parameter throughout, so the arithmetic on samples
//! stays with the caller while the buffer discipline, the grain scheduling and
//! the onset latch are proved here.
pub mod engine;
pub mod grain;
pub mod modes;
pub mod onset;
pub mod ring;
