//! Unified error handling for ROCm-related operations
pub mod error_codes;

use vstd::prelude::*;
use crate::rocblas::error::rocblas_error_text;

verus! {

/// An error of the operating system or of I/O, carried as it is.
#[verifier::external_type_specification]
#[verifier::external_body]
pub struct ExIoError(std::io::Error);

/// A unified error type for ROCm operations that can represent
/// errors from different subsystems (HIP, MIOpen, rocBLAS)
#[derive(Debug)]
pub enum Error {
    /// HIP-related error
    Hip(crate::hip::Error),
    /// MIOpen-related error
    MIOpen(crate::miopen::Error),
    /// rocBLAS-related error
    RocBLAS(crate::rocblas::Error),
    /// Custom error with a message
    Custom(String),
    /// Invalid operation error
    InvalidOperation(String),
    /// Memory allocation error
    OutOfMemory(String),
    /// Invalid argument error
    InvalidArgument(String),
    /// Not implemented error
    NotImplemented(String),
    /// I/O related error
    Io(std::io::Error),
    /// Parsing error
    Parse(String),
    /// Timeout error
    Timeout(String),
    /// Device error
    DeviceError(String),
    /// Kernel compilation error
    KernelCompilation(String),
    /// Synchronization error
    SynchronizationError(String),
}

/// Specialized Result type for ROCm operations
pub type Result<T> = core::result::Result<T, Error>;

/// The error's message needs text that only the runtime of the wrapped
/// error can give: the HIP or MIOpen description of a status code, or the
/// operating system's message of an I/O error.
pub open spec fn needs_runtime_text(e: &Error) -> bool {
    e is Hip || e is MIOpen || e is Io
}

/// Message of an error; `inner` is the message of the wrapped HIP, MIOpen
/// or I/O error, and is not used for the other kinds.
pub open spec fn error_text(e: &Error, inner: Seq<char>) -> Seq<char> {
    match e {
        Error::Hip(_) => "HIP error: "@ + inner,
        Error::MIOpen(_) => "MIOpen error: "@ + inner,
        Error::RocBLAS(r) => "rocBLAS error: "@ + rocblas_error_text(r@),
        Error::Custom(msg) => "Error: "@ + msg@,
        Error::InvalidOperation(msg) => "Invalid operation: "@ + msg@,
        Error::OutOfMemory(msg) => "Out of memory: "@ + msg@,
        Error::InvalidArgument(msg) => "Invalid argument: "@ + msg@,
        Error::NotImplemented(msg) => "Not implemented: "@ + msg@,
        Error::Io(_) => "I/O error: "@ + inner,
        Error::Parse(msg) => "Parse error: "@ + msg@,
        Error::Timeout(msg) => "Timeout: "@ + msg@,
        Error::DeviceError(msg) => "Device error: "@ + msg@,
        Error::KernelCompilation(msg) => "Kernel compilation error: "@ + msg@,
        Error::SynchronizationError(msg) => "Synchronization error: "@ + msg@,
    }
}

/// `prefix` followed by `rest`.
fn prefixed(prefix: &str, rest: &str) -> (r: String)
    ensures
        r@ == prefix@ + rest@,
{
    let s = String::from_str(prefix);
    s.concat(rest)
}

/// Message of an error seen in a context: the context, a colon and a
/// space, then the error's own message.
pub fn context_message(context: &str, inner: &str) -> (r: String)
    ensures
        r@ == context@ + ": "@ + inner@,
{
    let s = String::from_str(context);
    let s = s.concat(": ");
    s.concat(inner)
}

impl Error {
    /// The error that results from adding `context` to this one: a custom
    /// error whose message is the context followed by this error's message,
    /// where `inner` is the message of a wrapped HIP, MIOpen or I/O error.
    pub fn with_context(&self, context: &str, inner: &str) -> (r: Error)
        ensures
            r matches Error::Custom(m) && m@ == context@ + ": "@ + error_text(self, inner@),
    {
        let own = self.to_string_with(inner);
        Error::Custom(context_message(context, own.as_str()))
    }

    /// Message of the error, where `inner` is the message of the wrapped
    /// HIP, MIOpen or I/O error.
    pub fn to_string_with(&self, inner: &str) -> (r: String)
        ensures
            r@ == error_text(self, inner@),
    {
        match self {
            Error::Hip(_) => prefixed("HIP error: ", inner),
            Error::MIOpen(_) => prefixed("MIOpen error: ", inner),
            Error::RocBLAS(e) => {
                let text = e.to_string();
                prefixed("rocBLAS error: ", text.as_str())
            },
            Error::Custom(msg) => prefixed("Error: ", msg.as_str()),
            Error::InvalidOperation(msg) => prefixed("Invalid operation: ", msg.as_str()),
            Error::OutOfMemory(msg) => prefixed("Out of memory: ", msg.as_str()),
            Error::InvalidArgument(msg) => prefixed("Invalid argument: ", msg.as_str()),
            Error::NotImplemented(msg) => prefixed("Not implemented: ", msg.as_str()),
            Error::Io(_) => prefixed("I/O error: ", inner),
            Error::Parse(msg) => prefixed("Parse error: ", msg.as_str()),
            Error::Timeout(msg) => prefixed("Timeout: ", msg.as_str()),
            Error::DeviceError(msg) => prefixed("Device error: ", msg.as_str()),
            Error::KernelCompilation(msg) => prefixed("Kernel compilation error: ", msg.as_str()),
            Error::SynchronizationError(msg) => prefixed("Synchronization error: ", msg.as_str()),
        }
    }

    /// Message of an error whose text the library can form by itself.
    pub fn to_string(&self) -> (r: String)
        requires
            !needs_runtime_text(self),
        ensures
            r@ == error_text(self, Seq::empty()),
    {
        proof {
            reveal_strlit("");
        }
        self.to_string_with("")
    }
}

impl From<crate::hip::Error> for Error {
    fn from(error: crate::hip::Error) -> (r: Self) {
        Error::Hip(error)
    }
}

impl vstd::std_specs::convert::FromSpecImpl<crate::hip::Error> for Error {
    open spec fn obeys_from_spec() -> bool {
        true
    }

    open spec fn from_spec(v: crate::hip::Error) -> Self {
        Error::Hip(v)
    }
}

impl From<crate::miopen::Error> for Error {
    fn from(error: crate::miopen::Error) -> (r: Self) {
        Error::MIOpen(error)
    }
}

impl vstd::std_specs::convert::FromSpecImpl<crate::miopen::Error> for Error {
    open spec fn obeys_from_spec() -> bool {
        true
    }

    open spec fn from_spec(v: crate::miopen::Error) -> Self {
        Error::MIOpen(v)
    }
}

impl From<std::io::Error> for Error {
    fn from(error: std::io::Error) -> (r: Self) {
        Error::Io(error)
    }
}

impl vstd::std_specs::convert::FromSpecImpl<std::io::Error> for Error {
    open spec fn obeys_from_spec() -> bool {
        true
    }

    open spec fn from_spec(v: std::io::Error) -> Self {
        Error::Io(v)
    }
}

/// `String::from` on a string slice: the documentation says it converts the
/// slice into a `String`, which holds the same characters.
pub assume_specification<'_0>[ <String as From<&str>>::from ](s: &str) -> (r: String)
    ensures
        r@ == s@,
;

/// The conversion of a value into its own type hands the value back.
pub assume_specification<Val>[ <Val as From<Val>>::from ](t: Val) -> (r: Val)
    ensures
        r == t,
;

/// Helper function to create a custom error
pub fn custom_error<S: Into<String>>(message: S) -> (r: Error)
    ensures
        r matches Error::Custom(m) && call_ensures(S::into, (message,), m),
{
    Error::Custom(message.into())
}

/// Helper function to create an invalid operation error
pub fn invalid_operation<S: Into<String>>(message: S) -> (r: Error)
    ensures
        r matches Error::InvalidOperation(m) && call_ensures(S::into, (message,), m),
{
    Error::InvalidOperation(message.into())
}

/// Helper function to create an out of memory error
pub fn out_of_memory<S: Into<String>>(message: S) -> (r: Error)
    ensures
        r matches Error::OutOfMemory(m) && call_ensures(S::into, (message,), m),
{
    Error::OutOfMemory(message.into())
}

/// Helper function to create an invalid argument error
pub fn invalid_argument<S: Into<String>>(message: S) -> (r: Error)
    ensures
        r matches Error::InvalidArgument(m) && call_ensures(S::into, (message,), m),
{
    Error::InvalidArgument(message.into())
}

/// Helper function to create a not implemented error
pub fn not_implemented<S: Into<String>>(message: S) -> (r: Error)
    ensures
        r matches Error::NotImplemented(m) && call_ensures(S::into, (message,), m),
{
    Error::NotImplemented(message.into())
}

/// Helper function to create a parse error
pub fn parse_error<S: Into<String>>(message: S) -> (r: Error)
    ensures
        r matches Error::Parse(m) && call_ensures(S::into, (message,), m),
{
    Error::Parse(message.into())
}

/// Helper function to create a timeout error
pub fn timeout_error<S: Into<String>>(message: S) -> (r: Error)
    ensures
        r matches Error::Timeout(m) && call_ensures(S::into, (message,), m),
{
    Error::Timeout(message.into())
}

/// Helper function to create a device error
pub fn device_error<S: Into<String>>(message: S) -> (r: Error)
    ensures
        r matches Error::DeviceError(m) && call_ensures(S::into, (message,), m),
{
    Error::DeviceError(message.into())
}

/// Helper function to create a kernel compilation error
pub fn kernel_compilation_error<S: Into<String>>(message: S) -> (r: Error)
    ensures
        r matches Error::KernelCompilation(m) && call_ensures(S::into, (message,), m),
{
    Error::KernelCompilation(message.into())
}

/// Helper function to create a synchronization error
pub fn synchronization_error<S: Into<String>>(message: S) -> (r: Error)
    ensures
        r matches Error::SynchronizationError(m) && call_ensures(S::into, (message,), m),
{
    Error::SynchronizationError(message.into())
}

} // verus!
