//! Cycle-accurate model of a classic 8-bit microprocessor core.
//!
//! The crate models the chip's pin interface (address, data and control
//! lines), its register file, and the per-cycle micro-step dispatcher that
//! an external bus simulator drives one clock tick at a time.

pub mod cpu;
