//! Start-up core of a Cortex-M image: static-memory initialisation, the
//! exception and interrupt vector tables, and the hard-fault path, written as
//! verified logic over an explicit model of memory and registers.

pub mod memory;
pub mod reset;
pub mod vectors;
pub mod fault;
pub mod diag;
