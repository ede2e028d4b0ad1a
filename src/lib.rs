//! Virtual unwinding of a halted ARM Cortex-M core's call stack.
pub mod cfi;
pub mod cortexm;
pub mod laws;
pub mod registers;
pub mod stacked;
pub mod unwind;
