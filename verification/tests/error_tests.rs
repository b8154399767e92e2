use rocm_rs::error::error_codes;
use rocm_rs::error::{
    context_message, custom_error, device_error, invalid_argument, invalid_operation, kernel_compilation_error,
    not_implemented, out_of_memory, parse_error, synchronization_error, timeout_error, Error,
};

#[test]
fn test_error_display() {
    let err = custom_error("Test error");
    assert_eq!(err.to_string(), "Error: Test error");

    let err = invalid_operation("Invalid operation test");
    assert_eq!(err.to_string(), "Invalid operation: Invalid operation test");
}

#[test]
fn test_error_macros() {
    let err = Error::InvalidOperation(format!("Test {} error", "formatted"));
    match err {
        Error::InvalidOperation(msg) => assert_eq!(msg, "Test formatted error"),
        _ => panic!("Expected InvalidOperation error"),
    }
}

#[test]
fn helpers_build_their_kind() {
    assert!(matches!(out_of_memory("a"), Error::OutOfMemory(m) if m == "a"));
    assert!(matches!(invalid_argument("b"), Error::InvalidArgument(m) if m == "b"));
    assert!(matches!(not_implemented("c"), Error::NotImplemented(m) if m == "c"));
    assert!(matches!(parse_error("d"), Error::Parse(m) if m == "d"));
    assert!(matches!(timeout_error("e"), Error::Timeout(m) if m == "e"));
    assert!(matches!(device_error("f"), Error::DeviceError(m) if m == "f"));
    assert!(matches!(kernel_compilation_error("g"), Error::KernelCompilation(m) if m == "g"));
    assert!(matches!(synchronization_error(String::from("h")), Error::SynchronizationError(m) if m == "h"));
}

#[test]
fn messages_of_each_kind() {
    assert_eq!(out_of_memory("x").to_string(), "Out of memory: x");
    assert_eq!(invalid_argument("x").to_string(), "Invalid argument: x");
    assert_eq!(not_implemented("x").to_string(), "Not implemented: x");
    assert_eq!(parse_error("x").to_string(), "Parse error: x");
    assert_eq!(timeout_error("x").to_string(), "Timeout: x");
    assert_eq!(device_error("x").to_string(), "Device error: x");
    assert_eq!(kernel_compilation_error("x").to_string(), "Kernel compilation error: x");
    assert_eq!(synchronization_error("x").to_string(), "Synchronization error: x");
}

#[test]
fn wrapped_errors_use_inner_text() {
    let hip = rocm_rs::hip::Error::new(1);
    let e: Error = hip.into();
    assert!(matches!(e, Error::Hip(_)));
    assert_eq!(e.to_string_with("boom"), "HIP error: boom");

    let m: Error = rocm_rs::miopen::Error::new(3).into();
    assert_eq!(m.to_string_with("bad"), "MIOpen error: bad");

    let io: Error = std::io::Error::new(std::io::ErrorKind::Other, "disk").into();
    assert!(matches!(io, Error::Io(_)));
    assert_eq!(io.to_string_with("disk"), "I/O error: disk");

    let b = Error::RocBLAS(rocm_rs::rocblas::Error::new(3));
    assert_eq!(
        b.to_string(),
        "rocBLAS error: RocBLAS error 3: rocblas_status_invalid_pointer - Invalid pointer argument"
    );
}

#[test]
fn error_codes_values() {
    assert_eq!(error_codes::SUCCESS, 0);
    assert_eq!(error_codes::ERROR, -1);
    assert_eq!(error_codes::PARSE_ERROR, -10);
}

#[test]
fn context_is_put_before_the_message() {
    assert_eq!(context_message("loading module", "file missing"), "loading module: file missing");
    let err = invalid_argument("bad shape").with_context("reshape", "");
    match err {
        Error::Custom(m) => assert_eq!(m, "reshape: Invalid argument: bad shape"),
        _ => panic!("Expected Custom error"),
    }
}
