//! Verified control core for a pair of laptop hardware daemons: a fan
//! controller driving an embedded-controller register file, and a CPU
//! performance controller driving per-CPU frequency-scaling files.
//!
//! The library holds everything that can be decided without touching the
//! machine: profile name parsing, the hardware identity gate, the ordered
//! write plans each profile expands to, and the service state machines,
//! exercised here against simulated hardware surfaces that record every
//! write. The binaries replay the same plans against the real files.

pub mod boreas;
pub mod cpu;
pub mod ec;
pub mod errors;
pub mod fan;
pub mod identity;
pub mod power;
pub mod prometheus;
pub mod text;
