//! Decisions of a host that runs WebAssembly components driving GPIO pins:
//! which runtime world to use, how the engine is configured, how many guest
//! instances are started and under which numbers, what each GPIO import does
//! on each world, and the measurement lines that host and guest report.
//!
//! Everything here is plain data; the program around it performs the I/O.

pub mod text;
pub mod options;
pub mod decimal;
pub mod engine;
pub mod commands;
pub mod report;
pub mod gpio;
pub mod guest;
pub mod cli;
