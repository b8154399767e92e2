//! Handle-level modes of rocBLAS (pointer, atomics, performance metric,
//! layer, GEMM algorithm and flags, math) and their raw values.
use vstd::prelude::*;
use vstd::std_specs::convert::FromSpecImpl;
use crate::rocblas::error::Result;

verus! {

/// `rocblas_pointer_mode_host`
pub const ROCBLAS_POINTER_MODE_HOST: u32 = 0;
/// `rocblas_pointer_mode_device`
pub const ROCBLAS_POINTER_MODE_DEVICE: u32 = 1;

/// Enum for RocBLAS pointer mode
#[derive(Debug, Clone, Copy, PartialEq, Eq, Structural)]
pub enum PointerMode {
    /// Scalar values are on the host
    Host,
    /// Scalar values are on the device
    Device,
}

/// Raw value of a PointerMode.
pub open spec fn pointer_mode_to_raw(v: PointerMode) -> u32 {
    match v {
        PointerMode::Host => ROCBLAS_POINTER_MODE_HOST,
        PointerMode::Device => ROCBLAS_POINTER_MODE_DEVICE,
    }
}

impl From<PointerMode> for u32 {
    fn from(v: PointerMode) -> (r: u32) {
        match v {
            PointerMode::Host => ROCBLAS_POINTER_MODE_HOST,
            PointerMode::Device => ROCBLAS_POINTER_MODE_DEVICE,
        }
    }
}

impl FromSpecImpl<PointerMode> for u32 {
    open spec fn obeys_from_spec() -> bool {
        true
    }

    open spec fn from_spec(v: PointerMode) -> u32 {
        pointer_mode_to_raw(v)
    }
}

/// PointerMode of a raw value; unknown values give `PointerMode::Host`.
pub open spec fn pointer_mode_from_raw(raw: u32) -> PointerMode {
    if raw == ROCBLAS_POINTER_MODE_HOST {
        PointerMode::Host
    } else if raw == ROCBLAS_POINTER_MODE_DEVICE {
        PointerMode::Device
    } else {
        PointerMode::Host
    }
}

impl From<u32> for PointerMode {
    fn from(raw: u32) -> (r: Self) {
        if raw == ROCBLAS_POINTER_MODE_HOST {
            PointerMode::Host
        } else if raw == ROCBLAS_POINTER_MODE_DEVICE {
            PointerMode::Device
        } else {
            PointerMode::Host
        }
    }
}

impl FromSpecImpl<u32> for PointerMode {
    open spec fn obeys_from_spec() -> bool {
        true
    }

    open spec fn from_spec(raw: u32) -> Self {
        pointer_mode_from_raw(raw)
    }
}

/// Converting a PointerMode to its raw value and back gives it back, and a
/// known raw value survives the trip the other way.
pub proof fn lemma_pointer_mode_round_trip(v: PointerMode, raw: u32)
    ensures
        pointer_mode_from_raw(pointer_mode_to_raw(v)) == v,
        pointer_mode_to_raw(pointer_mode_from_raw(raw)) == raw || pointer_mode_from_raw(raw) == PointerMode::Host,
{
}

/// Each PointerMode has the raw value of the rocBLAS constant of its own name, each
/// such value converts back to it, and any other value converts to
/// `PointerMode::Host`.
pub proof fn lemma_pointer_mode_values(raw: u32)
    ensures
        raw != 0 && raw != 1 ==> pointer_mode_from_raw(raw) == PointerMode::Host,
        pointer_mode_to_raw(PointerMode::Host) == 0,
        pointer_mode_to_raw(PointerMode::Device) == 1,
        pointer_mode_from_raw(0) == PointerMode::Host,
        pointer_mode_from_raw(1) == PointerMode::Device,
{
}

/// `rocblas_atomics_not_allowed`
pub const ROCBLAS_ATOMICS_NOT_ALLOWED: u32 = 0;
/// `rocblas_atomics_allowed`
pub const ROCBLAS_ATOMICS_ALLOWED: u32 = 1;

/// Enum for RocBLAS atomics mode
#[derive(Debug, Clone, Copy, PartialEq, Eq, Structural)]
pub enum AtomicsMode {
    /// Algorithms will refrain from atomics where applicable
    NotAllowed,
    /// Algorithms will take advantage of atomics where applicable
    Allowed,
}

/// Raw value of a AtomicsMode.
pub open spec fn atomics_mode_to_raw(v: AtomicsMode) -> u32 {
    match v {
        AtomicsMode::NotAllowed => ROCBLAS_ATOMICS_NOT_ALLOWED,
        AtomicsMode::Allowed => ROCBLAS_ATOMICS_ALLOWED,
    }
}

impl From<AtomicsMode> for u32 {
    fn from(v: AtomicsMode) -> (r: u32) {
        match v {
            AtomicsMode::NotAllowed => ROCBLAS_ATOMICS_NOT_ALLOWED,
            AtomicsMode::Allowed => ROCBLAS_ATOMICS_ALLOWED,
        }
    }
}

impl FromSpecImpl<AtomicsMode> for u32 {
    open spec fn obeys_from_spec() -> bool {
        true
    }

    open spec fn from_spec(v: AtomicsMode) -> u32 {
        atomics_mode_to_raw(v)
    }
}

/// AtomicsMode of a raw value; unknown values give `AtomicsMode::Allowed`.
pub open spec fn atomics_mode_from_raw(raw: u32) -> AtomicsMode {
    if raw == ROCBLAS_ATOMICS_NOT_ALLOWED {
        AtomicsMode::NotAllowed
    } else if raw == ROCBLAS_ATOMICS_ALLOWED {
        AtomicsMode::Allowed
    } else {
        AtomicsMode::Allowed
    }
}

impl From<u32> for AtomicsMode {
    fn from(raw: u32) -> (r: Self) {
        if raw == ROCBLAS_ATOMICS_NOT_ALLOWED {
            AtomicsMode::NotAllowed
        } else if raw == ROCBLAS_ATOMICS_ALLOWED {
            AtomicsMode::Allowed
        } else {
            AtomicsMode::Allowed
        }
    }
}

impl FromSpecImpl<u32> for AtomicsMode {
    open spec fn obeys_from_spec() -> bool {
        true
    }

    open spec fn from_spec(raw: u32) -> Self {
        atomics_mode_from_raw(raw)
    }
}

/// Converting a AtomicsMode to its raw value and back gives it back, and a
/// known raw value survives the trip the other way.
pub proof fn lemma_atomics_mode_round_trip(v: AtomicsMode, raw: u32)
    ensures
        atomics_mode_from_raw(atomics_mode_to_raw(v)) == v,
        atomics_mode_to_raw(atomics_mode_from_raw(raw)) == raw || atomics_mode_from_raw(raw) == AtomicsMode::Allowed,
{
}

/// Each AtomicsMode has the raw value of the rocBLAS constant of its own name, each
/// such value converts back to it, and any other value converts to
/// `AtomicsMode::Allowed`.
pub proof fn lemma_atomics_mode_values(raw: u32)
    ensures
        raw != 0 && raw != 1 ==> atomics_mode_from_raw(raw) == AtomicsMode::Allowed,
        atomics_mode_to_raw(AtomicsMode::NotAllowed) == 0,
        atomics_mode_to_raw(AtomicsMode::Allowed) == 1,
        atomics_mode_from_raw(0) == AtomicsMode::NotAllowed,
        atomics_mode_from_raw(1) == AtomicsMode::Allowed,
{
}

/// `rocblas_default_performance_metric`
pub const ROCBLAS_DEFAULT_PERFORMANCE_METRIC: u32 = 0;
/// `rocblas_device_efficiency_performance_metric`
pub const ROCBLAS_DEVICE_EFFICIENCY_PERFORMANCE_METRIC: u32 = 1;
/// `rocblas_cu_efficiency_performance_metric`
pub const ROCBLAS_CU_EFFICIENCY_PERFORMANCE_METRIC: u32 = 2;

/// Enum for RocBLAS performance metric
#[derive(Debug, Clone, Copy, PartialEq, Eq, Structural)]
pub enum PerformanceMetric {
    /// Use Tensile's default performance metric
    Default,
    /// Select solution with highest GFlops across all compute units
    DeviceEfficiency,
    /// Select solution with highest GFlops per compute unit
    CUEfficiency,
}

/// Raw value of a PerformanceMetric.
pub open spec fn performance_metric_to_raw(v: PerformanceMetric) -> u32 {
    match v {
        PerformanceMetric::Default => ROCBLAS_DEFAULT_PERFORMANCE_METRIC,
        PerformanceMetric::DeviceEfficiency => ROCBLAS_DEVICE_EFFICIENCY_PERFORMANCE_METRIC,
        PerformanceMetric::CUEfficiency => ROCBLAS_CU_EFFICIENCY_PERFORMANCE_METRIC,
    }
}

impl From<PerformanceMetric> for u32 {
    fn from(v: PerformanceMetric) -> (r: u32) {
        match v {
            PerformanceMetric::Default => ROCBLAS_DEFAULT_PERFORMANCE_METRIC,
            PerformanceMetric::DeviceEfficiency => ROCBLAS_DEVICE_EFFICIENCY_PERFORMANCE_METRIC,
            PerformanceMetric::CUEfficiency => ROCBLAS_CU_EFFICIENCY_PERFORMANCE_METRIC,
        }
    }
}

impl FromSpecImpl<PerformanceMetric> for u32 {
    open spec fn obeys_from_spec() -> bool {
        true
    }

    open spec fn from_spec(v: PerformanceMetric) -> u32 {
        performance_metric_to_raw(v)
    }
}

/// PerformanceMetric of a raw value; unknown values give `PerformanceMetric::Default`.
pub open spec fn performance_metric_from_raw(raw: u32) -> PerformanceMetric {
    if raw == ROCBLAS_DEFAULT_PERFORMANCE_METRIC {
        PerformanceMetric::Default
    } else if raw == ROCBLAS_DEVICE_EFFICIENCY_PERFORMANCE_METRIC {
        PerformanceMetric::DeviceEfficiency
    } else if raw == ROCBLAS_CU_EFFICIENCY_PERFORMANCE_METRIC {
        PerformanceMetric::CUEfficiency
    } else {
        PerformanceMetric::Default
    }
}

impl From<u32> for PerformanceMetric {
    fn from(raw: u32) -> (r: Self) {
        if raw == ROCBLAS_DEFAULT_PERFORMANCE_METRIC {
            PerformanceMetric::Default
        } else if raw == ROCBLAS_DEVICE_EFFICIENCY_PERFORMANCE_METRIC {
            PerformanceMetric::DeviceEfficiency
        } else if raw == ROCBLAS_CU_EFFICIENCY_PERFORMANCE_METRIC {
            PerformanceMetric::CUEfficiency
        } else {
            PerformanceMetric::Default
        }
    }
}

impl FromSpecImpl<u32> for PerformanceMetric {
    open spec fn obeys_from_spec() -> bool {
        true
    }

    open spec fn from_spec(raw: u32) -> Self {
        performance_metric_from_raw(raw)
    }
}

/// Converting a PerformanceMetric to its raw value and back gives it back, and a
/// known raw value survives the trip the other way.
pub proof fn lemma_performance_metric_round_trip(v: PerformanceMetric, raw: u32)
    ensures
        performance_metric_from_raw(performance_metric_to_raw(v)) == v,
        performance_metric_to_raw(performance_metric_from_raw(raw)) == raw || performance_metric_from_raw(raw) == PerformanceMetric::Default,
{
}

/// Each PerformanceMetric has the raw value of the rocBLAS constant of its own name, each
/// such value converts back to it, and any other value converts to
/// `PerformanceMetric::Default`.
pub proof fn lemma_performance_metric_values(raw: u32)
    ensures
        raw != 0 && raw != 1 && raw != 2 ==> performance_metric_from_raw(raw) == PerformanceMetric::Default,
        performance_metric_to_raw(PerformanceMetric::Default) == 0,
        performance_metric_to_raw(PerformanceMetric::DeviceEfficiency) == 1,
        performance_metric_to_raw(PerformanceMetric::CUEfficiency) == 2,
        performance_metric_from_raw(0) == PerformanceMetric::Default,
        performance_metric_from_raw(1) == PerformanceMetric::DeviceEfficiency,
        performance_metric_from_raw(2) == PerformanceMetric::CUEfficiency,
{
}

/// `rocblas_layer_mode_none`
pub const ROCBLAS_LAYER_MODE_NONE: u32 = 0;
/// `rocblas_layer_mode_log_trace`
pub const ROCBLAS_LAYER_MODE_LOG_TRACE: u32 = 1;
/// `rocblas_layer_mode_log_bench`
pub const ROCBLAS_LAYER_MODE_LOG_BENCH: u32 = 2;
/// `rocblas_layer_mode_log_profile`
pub const ROCBLAS_LAYER_MODE_LOG_PROFILE: u32 = 4;

/// Enum for RocBLAS layer mode
#[derive(Debug, Clone, Copy, PartialEq, Eq, Structural)]
pub enum LayerMode {
    /// No logging
    NoLogging,
    /// Log a trace of function calls
    LogTrace,
    /// Log a line for benchmarking
    LogBench,
    /// Log a YAML description
    LogProfile,
}

/// Raw value of a LayerMode.
pub open spec fn layer_mode_to_raw(v: LayerMode) -> u32 {
    match v {
        LayerMode::NoLogging => ROCBLAS_LAYER_MODE_NONE,
        LayerMode::LogTrace => ROCBLAS_LAYER_MODE_LOG_TRACE,
        LayerMode::LogBench => ROCBLAS_LAYER_MODE_LOG_BENCH,
        LayerMode::LogProfile => ROCBLAS_LAYER_MODE_LOG_PROFILE,
    }
}

impl From<LayerMode> for u32 {
    fn from(v: LayerMode) -> (r: u32) {
        match v {
            LayerMode::NoLogging => ROCBLAS_LAYER_MODE_NONE,
            LayerMode::LogTrace => ROCBLAS_LAYER_MODE_LOG_TRACE,
            LayerMode::LogBench => ROCBLAS_LAYER_MODE_LOG_BENCH,
            LayerMode::LogProfile => ROCBLAS_LAYER_MODE_LOG_PROFILE,
        }
    }
}

impl FromSpecImpl<LayerMode> for u32 {
    open spec fn obeys_from_spec() -> bool {
        true
    }

    open spec fn from_spec(v: LayerMode) -> u32 {
        layer_mode_to_raw(v)
    }
}

/// Each LayerMode has the raw value of the rocBLAS constant of its own name.
pub proof fn lemma_layer_mode_values()
    ensures
        layer_mode_to_raw(LayerMode::NoLogging) == 0,
        layer_mode_to_raw(LayerMode::LogTrace) == 1,
        layer_mode_to_raw(LayerMode::LogBench) == 2,
        layer_mode_to_raw(LayerMode::LogProfile) == 4,
{
}

/// `rocblas_gemm_algo_standard`
pub const ROCBLAS_GEMM_ALGO_STANDARD: u32 = 0;
/// `rocblas_gemm_algo_solution_index`
pub const ROCBLAS_GEMM_ALGO_SOLUTION_INDEX: u32 = 1;

/// Enum for RocBLAS GEMM algorithm
#[derive(Debug, Clone, Copy, PartialEq, Eq, Structural)]
pub enum GemmAlgo {
    /// Standard algorithm
    Standard,
    /// Algorithm using solution index
    SolutionIndex,
}

/// Raw value of a GemmAlgo.
pub open spec fn gemm_algo_to_raw(v: GemmAlgo) -> u32 {
    match v {
        GemmAlgo::Standard => ROCBLAS_GEMM_ALGO_STANDARD,
        GemmAlgo::SolutionIndex => ROCBLAS_GEMM_ALGO_SOLUTION_INDEX,
    }
}

impl From<GemmAlgo> for u32 {
    fn from(v: GemmAlgo) -> (r: u32) {
        match v {
            GemmAlgo::Standard => ROCBLAS_GEMM_ALGO_STANDARD,
            GemmAlgo::SolutionIndex => ROCBLAS_GEMM_ALGO_SOLUTION_INDEX,
        }
    }
}

impl FromSpecImpl<GemmAlgo> for u32 {
    open spec fn obeys_from_spec() -> bool {
        true
    }

    open spec fn from_spec(v: GemmAlgo) -> u32 {
        gemm_algo_to_raw(v)
    }
}

/// GemmAlgo of a raw value; unknown values give `GemmAlgo::Standard`.
pub open spec fn gemm_algo_from_raw(raw: u32) -> GemmAlgo {
    if raw == ROCBLAS_GEMM_ALGO_STANDARD {
        GemmAlgo::Standard
    } else if raw == ROCBLAS_GEMM_ALGO_SOLUTION_INDEX {
        GemmAlgo::SolutionIndex
    } else {
        GemmAlgo::Standard
    }
}

impl From<u32> for GemmAlgo {
    fn from(raw: u32) -> (r: Self) {
        if raw == ROCBLAS_GEMM_ALGO_STANDARD {
            GemmAlgo::Standard
        } else if raw == ROCBLAS_GEMM_ALGO_SOLUTION_INDEX {
            GemmAlgo::SolutionIndex
        } else {
            GemmAlgo::Standard
        }
    }
}

impl FromSpecImpl<u32> for GemmAlgo {
    open spec fn obeys_from_spec() -> bool {
        true
    }

    open spec fn from_spec(raw: u32) -> Self {
        gemm_algo_from_raw(raw)
    }
}

/// Converting a GemmAlgo to its raw value and back gives it back, and a
/// known raw value survives the trip the other way.
pub proof fn lemma_gemm_algo_round_trip(v: GemmAlgo, raw: u32)
    ensures
        gemm_algo_from_raw(gemm_algo_to_raw(v)) == v,
        gemm_algo_to_raw(gemm_algo_from_raw(raw)) == raw || gemm_algo_from_raw(raw) == GemmAlgo::Standard,
{
}

/// Each GemmAlgo has the raw value of the rocBLAS constant of its own name, each
/// such value converts back to it, and any other value converts to
/// `GemmAlgo::Standard`.
pub proof fn lemma_gemm_algo_values(raw: u32)
    ensures
        raw != 0 && raw != 1 ==> gemm_algo_from_raw(raw) == GemmAlgo::Standard,
        gemm_algo_to_raw(GemmAlgo::Standard) == 0,
        gemm_algo_to_raw(GemmAlgo::SolutionIndex) == 1,
        gemm_algo_from_raw(0) == GemmAlgo::Standard,
        gemm_algo_from_raw(1) == GemmAlgo::SolutionIndex,
{
}

/// `rocblas_gemm_flags_none`
pub const ROCBLAS_GEMM_FLAGS_NONE: u32 = 0;
/// `rocblas_gemm_flags_use_cu_efficiency`
pub const ROCBLAS_GEMM_FLAGS_USE_CU_EFFICIENCY: u32 = 2;
/// `rocblas_gemm_flags_fp16_alt_impl`
pub const ROCBLAS_GEMM_FLAGS_FP16_ALT_IMPL: u32 = 4;
/// `rocblas_gemm_flags_check_solution_index`
pub const ROCBLAS_GEMM_FLAGS_CHECK_SOLUTION_INDEX: u32 = 8;
/// `rocblas_gemm_flags_fp16_alt_impl_rnz`
pub const ROCBLAS_GEMM_FLAGS_FP16_ALT_IMPL_RNZ: u32 = 16;
/// `rocblas_gemm_flags_stochastic_rounding`
pub const ROCBLAS_GEMM_FLAGS_STOCHASTIC_ROUNDING: u32 = 32;

/// Enum for RocBLAS GEMM flags
#[derive(Debug, Clone, Copy, PartialEq, Eq, Structural)]
pub enum GemmFlags {
    /// Default empty flags
    NoFlags,
    /// Use CU efficiency
    UseCUEfficiency,
    /// FP16 alternate implementation
    FP16AltImpl,
    /// Check solution index
    CheckSolutionIndex,
    /// FP16 alternate implementation with round-to-nearest-zero
    FP16AltImplRNZ,
    /// Stochastic rounding
    StochasticRounding,
}

/// Raw value of a GemmFlags.
pub open spec fn gemm_flags_to_raw(v: GemmFlags) -> u32 {
    match v {
        GemmFlags::NoFlags => ROCBLAS_GEMM_FLAGS_NONE,
        GemmFlags::UseCUEfficiency => ROCBLAS_GEMM_FLAGS_USE_CU_EFFICIENCY,
        GemmFlags::FP16AltImpl => ROCBLAS_GEMM_FLAGS_FP16_ALT_IMPL,
        GemmFlags::CheckSolutionIndex => ROCBLAS_GEMM_FLAGS_CHECK_SOLUTION_INDEX,
        GemmFlags::FP16AltImplRNZ => ROCBLAS_GEMM_FLAGS_FP16_ALT_IMPL_RNZ,
        GemmFlags::StochasticRounding => ROCBLAS_GEMM_FLAGS_STOCHASTIC_ROUNDING,
    }
}

impl From<GemmFlags> for u32 {
    fn from(v: GemmFlags) -> (r: u32) {
        match v {
            GemmFlags::NoFlags => ROCBLAS_GEMM_FLAGS_NONE,
            GemmFlags::UseCUEfficiency => ROCBLAS_GEMM_FLAGS_USE_CU_EFFICIENCY,
            GemmFlags::FP16AltImpl => ROCBLAS_GEMM_FLAGS_FP16_ALT_IMPL,
            GemmFlags::CheckSolutionIndex => ROCBLAS_GEMM_FLAGS_CHECK_SOLUTION_INDEX,
            GemmFlags::FP16AltImplRNZ => ROCBLAS_GEMM_FLAGS_FP16_ALT_IMPL_RNZ,
            GemmFlags::StochasticRounding => ROCBLAS_GEMM_FLAGS_STOCHASTIC_ROUNDING,
        }
    }
}

impl FromSpecImpl<GemmFlags> for u32 {
    open spec fn obeys_from_spec() -> bool {
        true
    }

    open spec fn from_spec(v: GemmFlags) -> u32 {
        gemm_flags_to_raw(v)
    }
}

/// Each GemmFlags has the raw value of the rocBLAS constant of its own name.
pub proof fn lemma_gemm_flags_values()
    ensures
        gemm_flags_to_raw(GemmFlags::NoFlags) == 0,
        gemm_flags_to_raw(GemmFlags::UseCUEfficiency) == 2,
        gemm_flags_to_raw(GemmFlags::FP16AltImpl) == 4,
        gemm_flags_to_raw(GemmFlags::CheckSolutionIndex) == 8,
        gemm_flags_to_raw(GemmFlags::FP16AltImplRNZ) == 16,
        gemm_flags_to_raw(GemmFlags::StochasticRounding) == 32,
{
}

/// `rocblas_default_math`
pub const ROCBLAS_DEFAULT_MATH: u32 = 0;
/// `rocblas_xf32_xdl_math_op`
pub const ROCBLAS_XF32_XDL_MATH_OP: u32 = 1;

/// Enum for RocBLAS math mode
#[derive(Debug, Clone, Copy, PartialEq, Eq, Structural)]
pub enum MathMode {
    /// Default math mode
    Default,
    /// XF32 XDL math operation
    XF32XDLMathOp,
}

/// Raw value of a MathMode.
pub open spec fn math_mode_to_raw(v: MathMode) -> u32 {
    match v {
        MathMode::Default => ROCBLAS_DEFAULT_MATH,
        MathMode::XF32XDLMathOp => ROCBLAS_XF32_XDL_MATH_OP,
    }
}

impl From<MathMode> for u32 {
    fn from(v: MathMode) -> (r: u32) {
        match v {
            MathMode::Default => ROCBLAS_DEFAULT_MATH,
            MathMode::XF32XDLMathOp => ROCBLAS_XF32_XDL_MATH_OP,
        }
    }
}

impl FromSpecImpl<MathMode> for u32 {
    open spec fn obeys_from_spec() -> bool {
        true
    }

    open spec fn from_spec(v: MathMode) -> u32 {
        math_mode_to_raw(v)
    }
}

/// MathMode of a raw value; unknown values give `MathMode::Default`.
pub open spec fn math_mode_from_raw(raw: u32) -> MathMode {
    if raw == ROCBLAS_DEFAULT_MATH {
        MathMode::Default
    } else if raw == ROCBLAS_XF32_XDL_MATH_OP {
        MathMode::XF32XDLMathOp
    } else {
        MathMode::Default
    }
}

impl From<u32> for MathMode {
    fn from(raw: u32) -> (r: Self) {
        if raw == ROCBLAS_DEFAULT_MATH {
            MathMode::Default
        } else if raw == ROCBLAS_XF32_XDL_MATH_OP {
            MathMode::XF32XDLMathOp
        } else {
            MathMode::Default
        }
    }
}

impl FromSpecImpl<u32> for MathMode {
    open spec fn obeys_from_spec() -> bool {
        true
    }

    open spec fn from_spec(raw: u32) -> Self {
        math_mode_from_raw(raw)
    }
}

/// Converting a MathMode to its raw value and back gives it back, and a
/// known raw value survives the trip the other way.
pub proof fn lemma_math_mode_round_trip(v: MathMode, raw: u32)
    ensures
        math_mode_from_raw(math_mode_to_raw(v)) == v,
        math_mode_to_raw(math_mode_from_raw(raw)) == raw || math_mode_from_raw(raw) == MathMode::Default,
{
}

/// Each MathMode has the raw value of the rocBLAS constant of its own name, each
/// such value converts back to it, and any other value converts to
/// `MathMode::Default`.
pub proof fn lemma_math_mode_values(raw: u32)
    ensures
        raw != 0 && raw != 1 ==> math_mode_from_raw(raw) == MathMode::Default,
        math_mode_to_raw(MathMode::Default) == 0,
        math_mode_to_raw(MathMode::XF32XDLMathOp) == 1,
        math_mode_from_raw(0) == MathMode::Default,
        math_mode_from_raw(1) == MathMode::XF32XDLMathOp,
{
}


/// The pointer mode of a rocBLAS handle, from the raw value the handle reports.
pub fn get_pointer_mode(reported: Result<u32>) -> (r: Result<PointerMode>)
    ensures
        r is Ok <==> reported is Ok,
        r matches Ok(m) ==> m == pointer_mode_from_raw(reported->Ok_0),
        r matches Err(e) ==> reported == Err::<u32, crate::rocblas::Error>(e),
{
    match reported {
        Ok(raw) => Ok(PointerMode::from(raw)),
        Err(e) => Err(e),
    }
}

/// The atomics mode of a rocBLAS handle, from the raw value the handle reports.
pub fn get_atomics_mode(reported: Result<u32>) -> (r: Result<AtomicsMode>)
    ensures
        r is Ok <==> reported is Ok,
        r matches Ok(m) ==> m == atomics_mode_from_raw(reported->Ok_0),
        r matches Err(e) ==> reported == Err::<u32, crate::rocblas::Error>(e),
{
    match reported {
        Ok(raw) => Ok(AtomicsMode::from(raw)),
        Err(e) => Err(e),
    }
}

/// The performance metric of a rocBLAS handle, from the raw value the handle reports.
pub fn get_performance_metric(reported: Result<u32>) -> (r: Result<PerformanceMetric>)
    ensures
        r is Ok <==> reported is Ok,
        r matches Ok(m) ==> m == performance_metric_from_raw(reported->Ok_0),
        r matches Err(e) ==> reported == Err::<u32, crate::rocblas::Error>(e),
{
    match reported {
        Ok(raw) => Ok(PerformanceMetric::from(raw)),
        Err(e) => Err(e),
    }
}

/// The math mode of a rocBLAS handle, from the raw value the handle reports.
pub fn get_math_mode(reported: Result<u32>) -> (r: Result<MathMode>)
    ensures
        r is Ok <==> reported is Ok,
        r matches Ok(m) ==> m == math_mode_from_raw(reported->Ok_0),
        r matches Err(e) ==> reported == Err::<u32, crate::rocblas::Error>(e),
{
    match reported {
        Ok(raw) => Ok(MathMode::from(raw)),
        Err(e) => Err(e),
    }
}

} // verus!
