//! rocBLAS status codes, their names and descriptions, and the error type
//! that carries them.
use vstd::prelude::*;
use crate::text::{decimal, decimal_string};

verus! {
/// `rocblas_status_success`
pub const ROCBLAS_STATUS_SUCCESS: u32 = 0;
/// `rocblas_status_invalid_handle`
pub const ROCBLAS_STATUS_INVALID_HANDLE: u32 = 1;
/// `rocblas_status_not_implemented`
pub const ROCBLAS_STATUS_NOT_IMPLEMENTED: u32 = 2;
/// `rocblas_status_invalid_pointer`
pub const ROCBLAS_STATUS_INVALID_POINTER: u32 = 3;
/// `rocblas_status_invalid_size`
pub const ROCBLAS_STATUS_INVALID_SIZE: u32 = 4;
/// `rocblas_status_memory_error`
pub const ROCBLAS_STATUS_MEMORY_ERROR: u32 = 5;
/// `rocblas_status_internal_error`
pub const ROCBLAS_STATUS_INTERNAL_ERROR: u32 = 6;
/// `rocblas_status_perf_degraded`
pub const ROCBLAS_STATUS_PERF_DEGRADED: u32 = 7;
/// `rocblas_status_size_query_mismatch`
pub const ROCBLAS_STATUS_SIZE_QUERY_MISMATCH: u32 = 8;
/// `rocblas_status_size_increased`
pub const ROCBLAS_STATUS_SIZE_INCREASED: u32 = 9;
/// `rocblas_status_size_unchanged`
pub const ROCBLAS_STATUS_SIZE_UNCHANGED: u32 = 10;
/// `rocblas_status_invalid_value`
pub const ROCBLAS_STATUS_INVALID_VALUE: u32 = 11;
/// `rocblas_status_continue`
pub const ROCBLAS_STATUS_CONTINUE: u32 = 12;
/// `rocblas_status_check_numerics_fail`
pub const ROCBLAS_STATUS_CHECK_NUMERICS_FAIL: u32 = 13;
/// `rocblas_status_excluded_from_build`
pub const ROCBLAS_STATUS_EXCLUDED_FROM_BUILD: u32 = 14;
/// `rocblas_status_arch_mismatch`
pub const ROCBLAS_STATUS_ARCH_MISMATCH: u32 = 15;

/// Name of a rocBLAS status code.
pub open spec fn status_name(code: u32) -> Seq<char> {
    if code == ROCBLAS_STATUS_SUCCESS {
        "rocblas_status_success"@
    } else if code == ROCBLAS_STATUS_INVALID_HANDLE {
        "rocblas_status_invalid_handle"@
    } else if code == ROCBLAS_STATUS_NOT_IMPLEMENTED {
        "rocblas_status_not_implemented"@
    } else if code == ROCBLAS_STATUS_INVALID_POINTER {
        "rocblas_status_invalid_pointer"@
    } else if code == ROCBLAS_STATUS_INVALID_SIZE {
        "rocblas_status_invalid_size"@
    } else if code == ROCBLAS_STATUS_MEMORY_ERROR {
        "rocblas_status_memory_error"@
    } else if code == ROCBLAS_STATUS_INTERNAL_ERROR {
        "rocblas_status_internal_error"@
    } else if code == ROCBLAS_STATUS_PERF_DEGRADED {
        "rocblas_status_perf_degraded"@
    } else if code == ROCBLAS_STATUS_SIZE_QUERY_MISMATCH {
        "rocblas_status_size_query_mismatch"@
    } else if code == ROCBLAS_STATUS_SIZE_INCREASED {
        "rocblas_status_size_increased"@
    } else if code == ROCBLAS_STATUS_SIZE_UNCHANGED {
        "rocblas_status_size_unchanged"@
    } else if code == ROCBLAS_STATUS_INVALID_VALUE {
        "rocblas_status_invalid_value"@
    } else if code == ROCBLAS_STATUS_CONTINUE {
        "rocblas_status_continue"@
    } else if code == ROCBLAS_STATUS_CHECK_NUMERICS_FAIL {
        "rocblas_status_check_numerics_fail"@
    } else if code == ROCBLAS_STATUS_EXCLUDED_FROM_BUILD {
        "rocblas_status_excluded_from_build"@
    } else if code == ROCBLAS_STATUS_ARCH_MISMATCH {
        "rocblas_status_arch_mismatch"@
    } else {
        "Unknown rocblas_status code"@
    }
}

/// Description of a rocBLAS status code.
pub open spec fn status_description(code: u32) -> Seq<char> {
    if code == ROCBLAS_STATUS_SUCCESS {
        "Success"@
    } else if code == ROCBLAS_STATUS_INVALID_HANDLE {
        "Handle not initialized, invalid, or null"@
    } else if code == ROCBLAS_STATUS_NOT_IMPLEMENTED {
        "Function is not implemented"@
    } else if code == ROCBLAS_STATUS_INVALID_POINTER {
        "Invalid pointer argument"@
    } else if code == ROCBLAS_STATUS_INVALID_SIZE {
        "Invalid size argument"@
    } else if code == ROCBLAS_STATUS_MEMORY_ERROR {
        "Failed internal memory allocation, copy, or dealloc"@
    } else if code == ROCBLAS_STATUS_INTERNAL_ERROR {
        "Other internal library failure"@
    } else if code == ROCBLAS_STATUS_PERF_DEGRADED {
        "Performance degraded due to low device memory"@
    } else if code == ROCBLAS_STATUS_SIZE_QUERY_MISMATCH {
        "Unmatched start/stop size query"@
    } else if code == ROCBLAS_STATUS_SIZE_INCREASED {
        "Queried device memory size increased"@
    } else if code == ROCBLAS_STATUS_SIZE_UNCHANGED {
        "Queried device memory size unchanged"@
    } else if code == ROCBLAS_STATUS_INVALID_VALUE {
        "Passed argument not valid"@
    } else if code == ROCBLAS_STATUS_CONTINUE {
        "Nothing preventing function to proceed"@
    } else if code == ROCBLAS_STATUS_CHECK_NUMERICS_FAIL {
        "Check numerics failure"@
    } else if code == ROCBLAS_STATUS_EXCLUDED_FROM_BUILD {
        "Feature excluded from build"@
    } else if code == ROCBLAS_STATUS_ARCH_MISMATCH {
        "Architecture mismatch"@
    } else {
        "Unknown error"@
    }
}

/// Text of a rocBLAS error: `RocBLAS error <code>: <name> - <description>`.
pub open spec fn rocblas_error_text(code: u32) -> Seq<char> {
    "RocBLAS error "@ + decimal(code as nat) + ": "@ + status_name(code) + " - "@
        + status_description(code)
}

/// Error type for RocBLAS operations
#[derive(Debug, Clone, Copy, PartialEq, Eq, Structural)]
pub struct Error {
    code: u32,
}

/// Result type for RocBLAS operations
pub type Result<T> = core::result::Result<T, Error>;

impl View for Error {
    type V = u32;

    /// The raw status code.
    closed spec fn view(&self) -> u32 {
        self.code
    }
}

impl Error {
    /// Create a new error from a RocBLAS error code
    pub fn new(code: u32) -> (r: Self)
        ensures
            r@ == code,
    {
        Self { code }
    }

    /// Convert a RocBLAS error code to a Result
    pub fn from_rocblas_error<T: Default>(error: u32) -> (r: Result<T>)
        ensures
            r is Ok <==> error == ROCBLAS_STATUS_SUCCESS,
            r matches Ok(v) ==> call_ensures(T::default, (), v),
            r matches Err(e) ==> e@ == error,
    {
        if error == ROCBLAS_STATUS_SUCCESS {
            Ok(T::default())
        } else {
            Err(Error::new(error))
        }
    }

    /// Convert a RocBLAS error code to a Result with a specific value
    pub fn from_rocblas_error_with_value<T>(error: u32, value: T) -> (r: Result<T>)
        ensures
            r is Ok <==> error == ROCBLAS_STATUS_SUCCESS,
            r matches Ok(v) ==> v == value,
            r matches Err(e) ==> e@ == error,
    {
        if error == ROCBLAS_STATUS_SUCCESS {
            Ok(value)
        } else {
            Err(Error::new(error))
        }
    }

    /// Returns true if the error code represents success
    pub fn is_success(&self) -> (r: bool)
        ensures
            r == (self@ == ROCBLAS_STATUS_SUCCESS),
    {
        self.code == ROCBLAS_STATUS_SUCCESS
    }

    /// Get the raw error code
    pub fn code(&self) -> (r: u32)
        ensures
            r == self@,
    {
        self.code
    }

    /// Get the name of the error code
    pub fn name(&self) -> (r: &'static str)
        ensures
            r@ == status_name(self@),
    {
        if self.code == ROCBLAS_STATUS_SUCCESS {
            "rocblas_status_success"
        } else if self.code == ROCBLAS_STATUS_INVALID_HANDLE {
            "rocblas_status_invalid_handle"
        } else if self.code == ROCBLAS_STATUS_NOT_IMPLEMENTED {
            "rocblas_status_not_implemented"
        } else if self.code == ROCBLAS_STATUS_INVALID_POINTER {
            "rocblas_status_invalid_pointer"
        } else if self.code == ROCBLAS_STATUS_INVALID_SIZE {
            "rocblas_status_invalid_size"
        } else if self.code == ROCBLAS_STATUS_MEMORY_ERROR {
            "rocblas_status_memory_error"
        } else if self.code == ROCBLAS_STATUS_INTERNAL_ERROR {
            "rocblas_status_internal_error"
        } else if self.code == ROCBLAS_STATUS_PERF_DEGRADED {
            "rocblas_status_perf_degraded"
        } else if self.code == ROCBLAS_STATUS_SIZE_QUERY_MISMATCH {
            "rocblas_status_size_query_mismatch"
        } else if self.code == ROCBLAS_STATUS_SIZE_INCREASED {
            "rocblas_status_size_increased"
        } else if self.code == ROCBLAS_STATUS_SIZE_UNCHANGED {
            "rocblas_status_size_unchanged"
        } else if self.code == ROCBLAS_STATUS_INVALID_VALUE {
            "rocblas_status_invalid_value"
        } else if self.code == ROCBLAS_STATUS_CONTINUE {
            "rocblas_status_continue"
        } else if self.code == ROCBLAS_STATUS_CHECK_NUMERICS_FAIL {
            "rocblas_status_check_numerics_fail"
        } else if self.code == ROCBLAS_STATUS_EXCLUDED_FROM_BUILD {
            "rocblas_status_excluded_from_build"
        } else if self.code == ROCBLAS_STATUS_ARCH_MISMATCH {
            "rocblas_status_arch_mismatch"
        } else {
            "Unknown rocblas_status code"
        }
    }

    /// Get the description of the error code
    pub fn description(&self) -> (r: &'static str)
        ensures
            r@ == status_description(self@),
    {
        if self.code == ROCBLAS_STATUS_SUCCESS {
            "Success"
        } else if self.code == ROCBLAS_STATUS_INVALID_HANDLE {
            "Handle not initialized, invalid, or null"
        } else if self.code == ROCBLAS_STATUS_NOT_IMPLEMENTED {
            "Function is not implemented"
        } else if self.code == ROCBLAS_STATUS_INVALID_POINTER {
            "Invalid pointer argument"
        } else if self.code == ROCBLAS_STATUS_INVALID_SIZE {
            "Invalid size argument"
        } else if self.code == ROCBLAS_STATUS_MEMORY_ERROR {
            "Failed internal memory allocation, copy, or dealloc"
        } else if self.code == ROCBLAS_STATUS_INTERNAL_ERROR {
            "Other internal library failure"
        } else if self.code == ROCBLAS_STATUS_PERF_DEGRADED {
            "Performance degraded due to low device memory"
        } else if self.code == ROCBLAS_STATUS_SIZE_QUERY_MISMATCH {
            "Unmatched start/stop size query"
        } else if self.code == ROCBLAS_STATUS_SIZE_INCREASED {
            "Queried device memory size increased"
        } else if self.code == ROCBLAS_STATUS_SIZE_UNCHANGED {
            "Queried device memory size unchanged"
        } else if self.code == ROCBLAS_STATUS_INVALID_VALUE {
            "Passed argument not valid"
        } else if self.code == ROCBLAS_STATUS_CONTINUE {
            "Nothing preventing function to proceed"
        } else if self.code == ROCBLAS_STATUS_CHECK_NUMERICS_FAIL {
            "Check numerics failure"
        } else if self.code == ROCBLAS_STATUS_EXCLUDED_FROM_BUILD {
            "Feature excluded from build"
        } else if self.code == ROCBLAS_STATUS_ARCH_MISMATCH {
            "Architecture mismatch"
        } else {
            "Unknown error"
        }
    }

    /// Message of the error: `RocBLAS error <code>: <name> - <description>`.
    pub fn to_string(&self) -> (r: String)
        ensures
            r@ == rocblas_error_text(self@),
    {
        proof {
            reveal_strlit("RocBLAS error ");
            reveal_strlit(": ");
            reveal_strlit(" - ");
        }
        let s = String::from_str("RocBLAS error ");
        let code = decimal_string(self.code as u64);
        let s = s.concat(code.as_str());
        let s = s.concat(": ");
        let s = s.concat(self.name());
        let s = s.concat(" - ");
        s.concat(self.description())
    }

    pub fn is_invalid_handle(&self) -> (r: bool)
        ensures
            r == (self@ == ROCBLAS_STATUS_INVALID_HANDLE),
    {
        self.code == ROCBLAS_STATUS_INVALID_HANDLE
    }

    pub fn is_not_implemented(&self) -> (r: bool)
        ensures
            r == (self@ == ROCBLAS_STATUS_NOT_IMPLEMENTED),
    {
        self.code == ROCBLAS_STATUS_NOT_IMPLEMENTED
    }

    pub fn is_invalid_pointer(&self) -> (r: bool)
        ensures
            r == (self@ == ROCBLAS_STATUS_INVALID_POINTER),
    {
        self.code == ROCBLAS_STATUS_INVALID_POINTER
    }

    pub fn is_invalid_size(&self) -> (r: bool)
        ensures
            r == (self@ == ROCBLAS_STATUS_INVALID_SIZE),
    {
        self.code == ROCBLAS_STATUS_INVALID_SIZE
    }

    pub fn is_memory_error(&self) -> (r: bool)
        ensures
            r == (self@ == ROCBLAS_STATUS_MEMORY_ERROR),
    {
        self.code == ROCBLAS_STATUS_MEMORY_ERROR
    }

    pub fn is_internal_error(&self) -> (r: bool)
        ensures
            r == (self@ == ROCBLAS_STATUS_INTERNAL_ERROR),
    {
        self.code == ROCBLAS_STATUS_INTERNAL_ERROR
    }

    pub fn is_invalid_value(&self) -> (r: bool)
        ensures
            r == (self@ == ROCBLAS_STATUS_INVALID_VALUE),
    {
        self.code == ROCBLAS_STATUS_INVALID_VALUE
    }
}

} // verus!
