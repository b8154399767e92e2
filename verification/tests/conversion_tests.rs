use rocm_rs::miopen::{ActivationMode, DataType};
use rocm_rs::rocblas::types::{Diagonal, Fill, Operation, Side};
use rocm_rs::rocblas::utils::{
    get_atomics_mode, get_math_mode, get_performance_metric, get_pointer_mode, AtomicsMode,
    GemmAlgo, GemmFlags, LayerMode, MathMode, PerformanceMetric, PointerMode,
};
use rocm_rs::rocblas;

#[test]
fn rocblas_selectors_round_trip() {
    for op in [Operation::NoTranspose, Operation::Transpose, Operation::ConjugateTranspose] {
        assert_eq!(Operation::from(u32::from(op)), op);
    }
    assert_eq!(u32::from(Operation::Transpose), 112);
    assert_eq!(Operation::from(7u32), Operation::NoTranspose);
    assert_eq!(u32::from(Fill::Lower), 122);
    assert_eq!(Fill::from(0u32), Fill::Full);
    assert_eq!(u32::from(Diagonal::Unit), 132);
    assert_eq!(Diagonal::from(0u32), Diagonal::NonUnit);
    assert_eq!(u32::from(Side::Both), 143);
    assert_eq!(Side::from(0u32), Side::Left);
    assert_eq!(u32::from(rocblas::types::DataType::BF8Real), 171);
    assert_eq!(rocblas::types::DataType::from(160u32), rocblas::types::DataType::I8Real);
    assert_eq!(rocblas::types::DataType::from(1u32), rocblas::types::DataType::F32Real);
}

#[test]
fn rocblas_modes() {
    assert_eq!(u32::from(PointerMode::Device), 1);
    assert_eq!(PointerMode::from(5u32), PointerMode::Host);
    assert_eq!(AtomicsMode::from(9u32), AtomicsMode::Allowed);
    assert_eq!(u32::from(AtomicsMode::NotAllowed), 0);
    assert_eq!(PerformanceMetric::from(2u32), PerformanceMetric::CUEfficiency);
    assert_eq!(u32::from(LayerMode::LogProfile), 4);
    assert_eq!(u32::from(LayerMode::NoLogging), 0);
    assert_eq!(GemmAlgo::from(1u32), GemmAlgo::SolutionIndex);
    assert_eq!(u32::from(GemmFlags::StochasticRounding), 32);
    assert_eq!(u32::from(GemmFlags::NoFlags), 0);
    assert_eq!(MathMode::from(1u32), MathMode::XF32XDLMathOp);
    assert_eq!(get_pointer_mode(Ok(1)), Ok(PointerMode::Device));
    assert_eq!(get_atomics_mode(Ok(0)), Ok(AtomicsMode::NotAllowed));
    assert_eq!(get_performance_metric(Ok(1)), Ok(PerformanceMetric::DeviceEfficiency));
    let failed = rocblas::Error::new(1);
    assert_eq!(get_math_mode(Err(failed)), Err(failed));
}

#[test]
fn miopen_modes() {
    assert!(matches!(ActivationMode::try_from(3u32), Ok(ActivationMode::MiopenActivationRELU)));
    assert!(matches!(ActivationMode::try_from(9u32), Ok(ActivationMode::MiopenActivationELU)));
    let e = ActivationMode::try_from(10u32).err().unwrap();
    assert_eq!(e.code(), 7);
    assert_eq!(u32::from(ActivationMode::MiopenActivationTANH), 2);
    assert!(matches!(DataType::try_from(9u32), Ok(DataType::MiopenInt64)));
    assert!(matches!(DataType::try_from(5u32), Ok(DataType::MiopenBFloat16)));
    assert!(DataType::try_from(4u32).is_err());
    assert_eq!(u32::from(DataType::MiopenDouble), 6);
}

#[test]
fn descriptor_queries() {
    assert!(matches!(DataType::from_query(0, 1), Ok(DataType::MiopenFloat)));
    assert_eq!(DataType::from_query(3, 1).err().unwrap().code(), 3);
    assert_eq!(DataType::from_query(0, 42).err().unwrap().code(), 7);
    assert!(matches!(
        ActivationMode::from_query(0, 8),
        Ok(ActivationMode::MiopenActivationLEAKYRELU)
    ));
    assert_eq!(ActivationMode::from_query(5, 8).err().unwrap().code(), 5);
}
