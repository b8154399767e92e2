//! HIP runtime status codes and the error type that carries them.
use vstd::prelude::*;
use crate::text::{decimal, decimal_string};

verus! {

/// `hipSuccess`
pub const HIP_SUCCESS: u32 = 0;
/// `hipErrorInvalidValue`
pub const HIP_ERROR_INVALID_VALUE: u32 = 1;
/// `hipErrorOutOfMemory`
pub const HIP_ERROR_OUT_OF_MEMORY: u32 = 2;
/// `hipErrorMemoryAllocation`, the older name of `hipErrorOutOfMemory`
pub const HIP_ERROR_MEMORY_ALLOCATION: u32 = 2;
/// `hipErrorNotInitialized`
pub const HIP_ERROR_NOT_INITIALIZED: u32 = 3;
/// `hipErrorInvalidDevice`
pub const HIP_ERROR_INVALID_DEVICE: u32 = 101;
/// `hipErrorInvalidContext`
pub const HIP_ERROR_INVALID_CONTEXT: u32 = 201;
/// `hipErrorNotReady`
pub const HIP_ERROR_NOT_READY: u32 = 600;

/// Error type for HIP operations
#[derive(Debug, Clone, Copy, PartialEq, Eq, Structural)]
pub struct Error {
    code: u32,
}

/// Result type for HIP operations
pub type Result<T> = core::result::Result<T, Error>;

impl View for Error {
    type V = u32;

    /// The raw status code.
    closed spec fn view(&self) -> u32 {
        self.code
    }
}

impl Error {
    /// Create a new error from a HIP error code
    pub fn new(code: u32) -> (r: Self)
        ensures
            r@ == code,
    {
        Self { code }
    }

    /// Convert a HIP error code to a Result
    pub fn from_hip_error<T: Default>(error: u32) -> (r: Result<T>)
        ensures
            r is Ok <==> error == HIP_SUCCESS,
            r matches Ok(v) ==> call_ensures(T::default, (), v),
            r matches Err(e) ==> e@ == error,
    {
        if error == HIP_SUCCESS {
            Ok(T::default())
        } else {
            Err(Error::new(error))
        }
    }

    /// Convert a HIP error code to a Result with a specific value
    pub fn from_hip_error_with_value<T>(error: u32, value: T) -> (r: Result<T>)
        ensures
            r is Ok <==> error == HIP_SUCCESS,
            r matches Ok(v) ==> v == value,
            r matches Err(e) ==> e@ == error,
    {
        if error == HIP_SUCCESS {
            Ok(value)
        } else {
            Err(Error::new(error))
        }
    }

    /// Returns true if the error code represents success
    pub fn is_success(&self) -> (r: bool)
        ensures
            r == (self@ == HIP_SUCCESS),
    {
        self.code == HIP_SUCCESS
    }

    /// Get the raw error code
    pub fn code(&self) -> (r: u32)
        ensures
            r == self@,
    {
        self.code
    }

    pub fn is_invalid_value(&self) -> (r: bool)
        ensures
            r == (self@ == HIP_ERROR_INVALID_VALUE),
    {
        self.code == HIP_ERROR_INVALID_VALUE
    }

    pub fn is_out_of_memory(&self) -> (r: bool)
        ensures
            r == (self@ == HIP_ERROR_OUT_OF_MEMORY || self@ == HIP_ERROR_MEMORY_ALLOCATION),
    {
        self.code == HIP_ERROR_OUT_OF_MEMORY || self.code == HIP_ERROR_MEMORY_ALLOCATION
    }

    pub fn is_not_initialized(&self) -> (r: bool)
        ensures
            r == (self@ == HIP_ERROR_NOT_INITIALIZED),
    {
        self.code == HIP_ERROR_NOT_INITIALIZED
    }

    pub fn is_invalid_device(&self) -> (r: bool)
        ensures
            r == (self@ == HIP_ERROR_INVALID_DEVICE),
    {
        self.code == HIP_ERROR_INVALID_DEVICE
    }

    pub fn is_invalid_context(&self) -> (r: bool)
        ensures
            r == (self@ == HIP_ERROR_INVALID_CONTEXT),
    {
        self.code == HIP_ERROR_INVALID_CONTEXT
    }

    pub fn is_not_ready(&self) -> (r: bool)
        ensures
            r == (self@ == HIP_ERROR_NOT_READY),
    {
        self.code == HIP_ERROR_NOT_READY
    }

    /// Message of the error, given the name and description the HIP runtime
    /// reports for its code: `HIP error <code>: <name> - <description>`.
    pub fn to_string_with(&self, name: &str, description: &str) -> (r: String)
        ensures
            r@ == hip_error_text(self@, name@, description@),
    {
        proof {
            reveal_strlit("HIP error ");
            reveal_strlit(": ");
            reveal_strlit(" - ");
        }
        let s = String::from_str("HIP error ");
        let code = decimal_string(self.code as u64);
        let s = s.concat(code.as_str());
        let s = s.concat(": ");
        let s = s.concat(name);
        let s = s.concat(" - ");
        s.concat(description)
    }
}

/// Text of a HIP error with the runtime's name and description for its code.
pub open spec fn hip_error_text(code: u32, name: Seq<char>, description: Seq<char>) -> Seq<char> {
    "HIP error "@ + decimal(code as nat) + ": "@ + name + " - "@ + description
}

} // verus!
