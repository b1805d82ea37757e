//! A disassembly-listing library: it decodes whitespace-tolerant hex input
//! into bytes, selects an engine configuration for a chosen instruction set,
//! drives an external disassembly engine one instruction at a time with
//! single-byte resynchronization, and renders each decoded unit as a
//! fixed-width address/bytes/mnemonic/operands line.

pub mod config;
pub mod engine;
pub mod hexparse;
pub mod listing;
pub mod render;
