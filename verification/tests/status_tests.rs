use rocm_rs::hip;
use rocm_rs::miopen;
use rocm_rs::rocblas;

#[test]
fn hip_status_to_result() {
    let ok: hip::Result<i32> = hip::Error::from_hip_error(0);
    assert_eq!(ok, Ok(0));
    let err: hip::Result<i32> = hip::Error::from_hip_error(2);
    assert_eq!(err.unwrap_err().code(), 2);
    assert_eq!(hip::Error::from_hip_error_with_value(0, 7u8), Ok(7u8));
    assert!(hip::Error::from_hip_error_with_value(101, 7u8).unwrap_err().is_invalid_device());
}

#[test]
fn hip_predicates() {
    assert!(hip::Error::new(0).is_success());
    assert!(hip::Error::new(1).is_invalid_value());
    assert!(hip::Error::new(2).is_out_of_memory());
    assert!(hip::Error::new(3).is_not_initialized());
    assert!(hip::Error::new(101).is_invalid_device());
    assert!(hip::Error::new(201).is_invalid_context());
    assert!(hip::Error::new(600).is_not_ready());
    assert!(!hip::Error::new(600).is_success());
    assert_eq!(
        hip::Error::new(1).to_string_with("hipErrorInvalidValue", "invalid argument"),
        "HIP error 1: hipErrorInvalidValue - invalid argument"
    );
}

#[test]
fn miopen_status_to_result() {
    let ok: miopen::Result<u64> = miopen::Error::from_miopen_status(0);
    assert_eq!(ok, Ok(0));
    let err = miopen::Error::from_miopen_status_with_value(3, ()).unwrap_err();
    assert!(err.is_bad_param());
    assert_eq!(err.code(), 3);
    assert!(miopen::Error::new(1).is_not_initialized());
    assert!(miopen::Error::new(2).is_invalid_value());
    assert!(miopen::Error::new(4).is_alloc_failed());
    assert!(miopen::Error::new(5).is_internal_error());
    assert!(miopen::Error::new(6).is_not_implemented());
    assert!(miopen::Error::new(8).is_unsupported_op());
    assert!(miopen::Error::new(0).is_success());
    assert_eq!(miopen::Error::new(7).to_string_with("unknown"), "MIOpen error 7: unknown");
}

#[test]
fn rocblas_names_and_descriptions() {
    let e = rocblas::Error::new(0);
    assert!(e.is_success());
    assert_eq!(e.name(), "rocblas_status_success");
    assert_eq!(e.description(), "Success");
    let e = rocblas::Error::new(15);
    assert_eq!(e.name(), "rocblas_status_arch_mismatch");
    assert_eq!(e.description(), "Architecture mismatch");
    let e = rocblas::Error::new(99);
    assert_eq!(e.name(), "Unknown rocblas_status code");
    assert_eq!(e.description(), "Unknown error");
    assert_eq!(e.to_string(), "RocBLAS error 99: Unknown rocblas_status code - Unknown error");
    assert!(rocblas::Error::new(1).is_invalid_handle());
    assert!(rocblas::Error::new(2).is_not_implemented());
    assert!(rocblas::Error::new(3).is_invalid_pointer());
    assert!(rocblas::Error::new(4).is_invalid_size());
    assert!(rocblas::Error::new(5).is_memory_error());
    assert!(rocblas::Error::new(6).is_internal_error());
    assert!(rocblas::Error::new(11).is_invalid_value());
    let r: rocblas::Result<i32> = rocblas::Error::from_rocblas_error(5);
    assert_eq!(r.unwrap_err().name(), "rocblas_status_memory_error");
    assert_eq!(rocblas::Error::from_rocblas_error_with_value(0, 3), Ok(3));
}
