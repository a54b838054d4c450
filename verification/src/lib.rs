//! Driver core for a general-purpose analog-to-digital converter (GPADC)
//! peripheral, together with a verified model of its register block.
//!
//! The driver exposes the peripheral's operating sequence — reset, configure,
//! enable, start a conversion, wait for it, read the result — and every
//! operation carries a contract describing exactly how it changes the
//! register block and how many cycles it busy-waits.

pub mod config;
pub mod gpadc;
pub mod regs;
