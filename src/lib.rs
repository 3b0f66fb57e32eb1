//! Driver logic for the i.MX RT10xx true random number generator.
//!
//! The library decides which register accesses the driver makes and in what
//! order; the code that owns the memory-mapped block performs them.
pub mod registers;
pub mod controller;
pub mod cursor;
pub mod regfile;
