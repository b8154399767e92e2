//! MIOpen status codes and the error type that carries them.
use vstd::prelude::*;
use crate::text::{decimal, decimal_string};

verus! {
/// `miopenStatusSuccess`
pub const MIOPEN_STATUS_SUCCESS: u32 = 0;
/// `miopenStatusNotInitialized`
pub const MIOPEN_STATUS_NOT_INITIALIZED: u32 = 1;
/// `miopenStatusInvalidValue`
pub const MIOPEN_STATUS_INVALID_VALUE: u32 = 2;
/// `miopenStatusBadParm`
pub const MIOPEN_STATUS_BAD_PARM: u32 = 3;
/// `miopenStatusAllocFailed`
pub const MIOPEN_STATUS_ALLOC_FAILED: u32 = 4;
/// `miopenStatusInternalError`
pub const MIOPEN_STATUS_INTERNAL_ERROR: u32 = 5;
/// `miopenStatusNotImplemented`
pub const MIOPEN_STATUS_NOT_IMPLEMENTED: u32 = 6;
/// `miopenStatusUnknownError`
pub const MIOPEN_STATUS_UNKNOWN_ERROR: u32 = 7;
/// `miopenStatusUnsupportedOp`
pub const MIOPEN_STATUS_UNSUPPORTED_OP: u32 = 8;

/// Error type for MIOpen operations
#[derive(Debug, Clone, Copy, PartialEq, Eq, Structural)]
pub struct Error {
    code: u32,
}

/// Result type for MIOpen operations
pub type Result<T> = core::result::Result<T, Error>;

impl View for Error {
    type V = u32;

    /// The raw status code.
    closed spec fn view(&self) -> u32 {
        self.code
    }
}

impl Error {
    /// The error carrying `code`.
    pub closed spec fn spec_new(code: u32) -> Self {
        Error { code }
    }

    /// Create a new error from a MIOpen status code
    pub fn new(code: u32) -> (r: Self)
        ensures
            r@ == code,
            r == Self::spec_new(code),
    {
        Self { code }
    }

    /// Convert a MIOpen status code to a Result
    pub fn from_miopen_status<T: Default>(status: u32) -> (r: Result<T>)
        ensures
            r is Ok <==> status == MIOPEN_STATUS_SUCCESS,
            r matches Ok(v) ==> call_ensures(T::default, (), v),
            r matches Err(e) ==> e@ == status,
    {
        if status == MIOPEN_STATUS_SUCCESS {
            Ok(T::default())
        } else {
            Err(Error::new(status))
        }
    }

    /// Convert a MIOpen status code to a Result with a specific value
    pub fn from_miopen_status_with_value<T>(status: u32, value: T) -> (r: Result<T>)
        ensures
            r is Ok <==> status == MIOPEN_STATUS_SUCCESS,
            r matches Ok(v) ==> v == value,
            r matches Err(e) ==> e@ == status,
    {
        if status == MIOPEN_STATUS_SUCCESS {
            Ok(value)
        } else {
            Err(Error::new(status))
        }
    }

    /// Returns true if the status code represents success
    pub fn is_success(&self) -> (r: bool)
        ensures
            r == (self@ == MIOPEN_STATUS_SUCCESS),
    {
        self.code == MIOPEN_STATUS_SUCCESS
    }

    /// Get the raw status code
    pub fn code(&self) -> (r: u32)
        ensures
            r == self@,
    {
        self.code
    }

    pub fn is_not_initialized(&self) -> (r: bool)
        ensures
            r == (self@ == MIOPEN_STATUS_NOT_INITIALIZED),
    {
        self.code == MIOPEN_STATUS_NOT_INITIALIZED
    }

    pub fn is_invalid_value(&self) -> (r: bool)
        ensures
            r == (self@ == MIOPEN_STATUS_INVALID_VALUE),
    {
        self.code == MIOPEN_STATUS_INVALID_VALUE
    }

    pub fn is_bad_param(&self) -> (r: bool)
        ensures
            r == (self@ == MIOPEN_STATUS_BAD_PARM),
    {
        self.code == MIOPEN_STATUS_BAD_PARM
    }

    pub fn is_alloc_failed(&self) -> (r: bool)
        ensures
            r == (self@ == MIOPEN_STATUS_ALLOC_FAILED),
    {
        self.code == MIOPEN_STATUS_ALLOC_FAILED
    }

    pub fn is_internal_error(&self) -> (r: bool)
        ensures
            r == (self@ == MIOPEN_STATUS_INTERNAL_ERROR),
    {
        self.code == MIOPEN_STATUS_INTERNAL_ERROR
    }

    pub fn is_not_implemented(&self) -> (r: bool)
        ensures
            r == (self@ == MIOPEN_STATUS_NOT_IMPLEMENTED),
    {
        self.code == MIOPEN_STATUS_NOT_IMPLEMENTED
    }

    pub fn is_unsupported_op(&self) -> (r: bool)
        ensures
            r == (self@ == MIOPEN_STATUS_UNSUPPORTED_OP),
    {
        self.code == MIOPEN_STATUS_UNSUPPORTED_OP
    }

    /// Message of the error, given the description MIOpen reports for its
    /// code: `MIOpen error <code>: <description>`.
    pub fn to_string_with(&self, description: &str) -> (r: String)
        ensures
            r@ == miopen_error_text(self@, description@),
    {
        proof {
            reveal_strlit("MIOpen error ");
            reveal_strlit(": ");
        }
        let s = String::from_str("MIOpen error ");
        let code = decimal_string(self.code as u64);
        let s = s.concat(code.as_str());
        let s = s.concat(": ");
        s.concat(description)
    }
}

/// The error made from a code carries that code.
pub proof fn lemma_spec_new_code(code: u32)
    ensures
        Error::spec_new(code)@ == code,
{
}

/// Text of a MIOpen error with the library's description of its code.
pub open spec fn miopen_error_text(code: u32, description: Seq<char>) -> Seq<char> {
    "MIOpen error "@ + decimal(code as nat) + ": "@ + description
}

} // verus!
