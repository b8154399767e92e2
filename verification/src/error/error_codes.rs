//! Error code constants for common error types
use vstd::prelude::*;

verus! {

/// Success
pub const SUCCESS: i32 = 0;

/// Generic error
pub const ERROR: i32 = -1;

/// Invalid argument
pub const INVALID_ARGUMENT: i32 = -2;

/// Out of memory
pub const OUT_OF_MEMORY: i32 = -3;

/// Not implemented
pub const NOT_IMPLEMENTED: i32 = -4;

/// Device error
pub const DEVICE_ERROR: i32 = -5;

/// Kernel compilation error
pub const KERNEL_COMPILATION: i32 = -6;

/// Synchronization error
pub const SYNCHRONIZATION_ERROR: i32 = -7;

/// Timeout
pub const TIMEOUT: i32 = -8;

/// I/O error
pub const IO_ERROR: i32 = -9;

/// Parse error
pub const PARSE_ERROR: i32 = -10;

} // verus!
