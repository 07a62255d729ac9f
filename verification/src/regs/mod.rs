//! Value models of exception-related system registers.

pub mod esr_el1;
