//! Verified core of the ROCm bindings: status codes and their mapping to
//! results, shape arithmetic for device arrays, launch geometry and the
//! conversions between library enums and raw runtime values.
pub mod error;
pub mod hip;
pub mod miopen;
pub mod rocarray;
pub mod rocblas;
pub mod text;
