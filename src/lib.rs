//! The Fibonacci numbers, computed by their defining recurrence and
//! proved equal to the mathematical sequence.

pub mod fib;

pub use fib::{fibonacci, MAX_FIB_INDEX};
