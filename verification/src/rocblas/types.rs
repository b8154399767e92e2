//! Matrix operation, fill, diagonal, side and data type selectors of
//! rocBLAS, and their raw values.
use vstd::prelude::*;
use vstd::std_specs::convert::FromSpecImpl;

verus! {

/// `rocblas_operation_none`
pub const ROCBLAS_OPERATION_NONE: u32 = 111;
/// `rocblas_operation_transpose`
pub const ROCBLAS_OPERATION_TRANSPOSE: u32 = 112;
/// `rocblas_operation_conjugate_transpose`
pub const ROCBLAS_OPERATION_CONJUGATE_TRANSPOSE: u32 = 113;

/// Enum for matrix operation types
#[derive(Debug, Clone, Copy, PartialEq, Eq, Structural)]
pub enum Operation {
    /// Operate with the matrix
    NoTranspose,
    /// Operate with the transpose of the matrix
    Transpose,
    /// Operate with the conjugate transpose of the matrix
    ConjugateTranspose,
}

/// Raw value of a Operation.
pub open spec fn operation_to_raw(v: Operation) -> u32 {
    match v {
        Operation::NoTranspose => ROCBLAS_OPERATION_NONE,
        Operation::Transpose => ROCBLAS_OPERATION_TRANSPOSE,
        Operation::ConjugateTranspose => ROCBLAS_OPERATION_CONJUGATE_TRANSPOSE,
    }
}

impl From<Operation> for u32 {
    fn from(v: Operation) -> (r: u32) {
        match v {
            Operation::NoTranspose => ROCBLAS_OPERATION_NONE,
            Operation::Transpose => ROCBLAS_OPERATION_TRANSPOSE,
            Operation::ConjugateTranspose => ROCBLAS_OPERATION_CONJUGATE_TRANSPOSE,
        }
    }
}

impl FromSpecImpl<Operation> for u32 {
    open spec fn obeys_from_spec() -> bool {
        true
    }

    open spec fn from_spec(v: Operation) -> u32 {
        operation_to_raw(v)
    }
}

/// Operation of a raw value; unknown values give `Operation::NoTranspose`.
pub open spec fn operation_from_raw(raw: u32) -> Operation {
    if raw == ROCBLAS_OPERATION_NONE {
        Operation::NoTranspose
    } else if raw == ROCBLAS_OPERATION_TRANSPOSE {
        Operation::Transpose
    } else if raw == ROCBLAS_OPERATION_CONJUGATE_TRANSPOSE {
        Operation::ConjugateTranspose
    } else {
        Operation::NoTranspose
    }
}

impl From<u32> for Operation {
    fn from(raw: u32) -> (r: Self) {
        if raw == ROCBLAS_OPERATION_NONE {
            Operation::NoTranspose
        } else if raw == ROCBLAS_OPERATION_TRANSPOSE {
            Operation::Transpose
        } else if raw == ROCBLAS_OPERATION_CONJUGATE_TRANSPOSE {
            Operation::ConjugateTranspose
        } else {
            Operation::NoTranspose
        }
    }
}

impl FromSpecImpl<u32> for Operation {
    open spec fn obeys_from_spec() -> bool {
        true
    }

    open spec fn from_spec(raw: u32) -> Self {
        operation_from_raw(raw)
    }
}

/// Converting a Operation to its raw value and back gives it back, and a
/// known raw value survives the trip the other way.
pub proof fn lemma_operation_round_trip(v: Operation, raw: u32)
    ensures
        operation_from_raw(operation_to_raw(v)) == v,
        operation_to_raw(operation_from_raw(raw)) == raw || operation_from_raw(raw) == Operation::NoTranspose,
{
}

/// Each Operation has the raw value of the rocBLAS constant of its own name, each
/// such value converts back to it, and any other value converts to
/// `Operation::NoTranspose`.
pub proof fn lemma_operation_values(raw: u32)
    ensures
        raw != 111 && raw != 112 && raw != 113 ==> operation_from_raw(raw) == Operation::NoTranspose,
        operation_to_raw(Operation::NoTranspose) == 111,
        operation_to_raw(Operation::Transpose) == 112,
        operation_to_raw(Operation::ConjugateTranspose) == 113,
        operation_from_raw(111) == Operation::NoTranspose,
        operation_from_raw(112) == Operation::Transpose,
        operation_from_raw(113) == Operation::ConjugateTranspose,
{
}

/// `rocblas_fill_upper`
pub const ROCBLAS_FILL_UPPER: u32 = 121;
/// `rocblas_fill_lower`
pub const ROCBLAS_FILL_LOWER: u32 = 122;
/// `rocblas_fill_full`
pub const ROCBLAS_FILL_FULL: u32 = 123;

/// Enum for matrix fill modes
#[derive(Debug, Clone, Copy, PartialEq, Eq, Structural)]
pub enum Fill {
    /// Upper triangle
    Upper,
    /// Lower triangle
    Lower,
    /// Full matrix
    Full,
}

/// Raw value of a Fill.
pub open spec fn fill_to_raw(v: Fill) -> u32 {
    match v {
        Fill::Upper => ROCBLAS_FILL_UPPER,
        Fill::Lower => ROCBLAS_FILL_LOWER,
        Fill::Full => ROCBLAS_FILL_FULL,
    }
}

impl From<Fill> for u32 {
    fn from(v: Fill) -> (r: u32) {
        match v {
            Fill::Upper => ROCBLAS_FILL_UPPER,
            Fill::Lower => ROCBLAS_FILL_LOWER,
            Fill::Full => ROCBLAS_FILL_FULL,
        }
    }
}

impl FromSpecImpl<Fill> for u32 {
    open spec fn obeys_from_spec() -> bool {
        true
    }

    open spec fn from_spec(v: Fill) -> u32 {
        fill_to_raw(v)
    }
}

/// Fill of a raw value; unknown values give `Fill::Full`.
pub open spec fn fill_from_raw(raw: u32) -> Fill {
    if raw == ROCBLAS_FILL_UPPER {
        Fill::Upper
    } else if raw == ROCBLAS_FILL_LOWER {
        Fill::Lower
    } else if raw == ROCBLAS_FILL_FULL {
        Fill::Full
    } else {
        Fill::Full
    }
}

impl From<u32> for Fill {
    fn from(raw: u32) -> (r: Self) {
        if raw == ROCBLAS_FILL_UPPER {
            Fill::Upper
        } else if raw == ROCBLAS_FILL_LOWER {
            Fill::Lower
        } else if raw == ROCBLAS_FILL_FULL {
            Fill::Full
        } else {
            Fill::Full
        }
    }
}

impl FromSpecImpl<u32> for Fill {
    open spec fn obeys_from_spec() -> bool {
        true
    }

    open spec fn from_spec(raw: u32) -> Self {
        fill_from_raw(raw)
    }
}

/// Converting a Fill to its raw value and back gives it back, and a
/// known raw value survives the trip the other way.
pub proof fn lemma_fill_round_trip(v: Fill, raw: u32)
    ensures
        fill_from_raw(fill_to_raw(v)) == v,
        fill_to_raw(fill_from_raw(raw)) == raw || fill_from_raw(raw) == Fill::Full,
{
}

/// Each Fill has the raw value of the rocBLAS constant of its own name, each
/// such value converts back to it, and any other value converts to
/// `Fill::Full`.
pub proof fn lemma_fill_values(raw: u32)
    ensures
        raw != 121 && raw != 122 && raw != 123 ==> fill_from_raw(raw) == Fill::Full,
        fill_to_raw(Fill::Upper) == 121,
        fill_to_raw(Fill::Lower) == 122,
        fill_to_raw(Fill::Full) == 123,
        fill_from_raw(121) == Fill::Upper,
        fill_from_raw(122) == Fill::Lower,
        fill_from_raw(123) == Fill::Full,
{
}

/// `rocblas_diagonal_non_unit`
pub const ROCBLAS_DIAGONAL_NON_UNIT: u32 = 131;
/// `rocblas_diagonal_unit`
pub const ROCBLAS_DIAGONAL_UNIT: u32 = 132;

/// Enum for diagonal type
#[derive(Debug, Clone, Copy, PartialEq, Eq, Structural)]
pub enum Diagonal {
    /// Non-unit triangular
    NonUnit,
    /// Unit triangular
    Unit,
}

/// Raw value of a Diagonal.
pub open spec fn diagonal_to_raw(v: Diagonal) -> u32 {
    match v {
        Diagonal::NonUnit => ROCBLAS_DIAGONAL_NON_UNIT,
        Diagonal::Unit => ROCBLAS_DIAGONAL_UNIT,
    }
}

impl From<Diagonal> for u32 {
    fn from(v: Diagonal) -> (r: u32) {
        match v {
            Diagonal::NonUnit => ROCBLAS_DIAGONAL_NON_UNIT,
            Diagonal::Unit => ROCBLAS_DIAGONAL_UNIT,
        }
    }
}

impl FromSpecImpl<Diagonal> for u32 {
    open spec fn obeys_from_spec() -> bool {
        true
    }

    open spec fn from_spec(v: Diagonal) -> u32 {
        diagonal_to_raw(v)
    }
}

/// Diagonal of a raw value; unknown values give `Diagonal::NonUnit`.
pub open spec fn diagonal_from_raw(raw: u32) -> Diagonal {
    if raw == ROCBLAS_DIAGONAL_NON_UNIT {
        Diagonal::NonUnit
    } else if raw == ROCBLAS_DIAGONAL_UNIT {
        Diagonal::Unit
    } else {
        Diagonal::NonUnit
    }
}

impl From<u32> for Diagonal {
    fn from(raw: u32) -> (r: Self) {
        if raw == ROCBLAS_DIAGONAL_NON_UNIT {
            Diagonal::NonUnit
        } else if raw == ROCBLAS_DIAGONAL_UNIT {
            Diagonal::Unit
        } else {
            Diagonal::NonUnit
        }
    }
}

impl FromSpecImpl<u32> for Diagonal {
    open spec fn obeys_from_spec() -> bool {
        true
    }

    open spec fn from_spec(raw: u32) -> Self {
        diagonal_from_raw(raw)
    }
}

/// Converting a Diagonal to its raw value and back gives it back, and a
/// known raw value survives the trip the other way.
pub proof fn lemma_diagonal_round_trip(v: Diagonal, raw: u32)
    ensures
        diagonal_from_raw(diagonal_to_raw(v)) == v,
        diagonal_to_raw(diagonal_from_raw(raw)) == raw || diagonal_from_raw(raw) == Diagonal::NonUnit,
{
}

/// Each Diagonal has the raw value of the rocBLAS constant of its own name, each
/// such value converts back to it, and any other value converts to
/// `Diagonal::NonUnit`.
pub proof fn lemma_diagonal_values(raw: u32)
    ensures
        raw != 131 && raw != 132 ==> diagonal_from_raw(raw) == Diagonal::NonUnit,
        diagonal_to_raw(Diagonal::NonUnit) == 131,
        diagonal_to_raw(Diagonal::Unit) == 132,
        diagonal_from_raw(131) == Diagonal::NonUnit,
        diagonal_from_raw(132) == Diagonal::Unit,
{
}

/// `rocblas_side_left`
pub const ROCBLAS_SIDE_LEFT: u32 = 141;
/// `rocblas_side_right`
pub const ROCBLAS_SIDE_RIGHT: u32 = 142;
/// `rocblas_side_both`
pub const ROCBLAS_SIDE_BOTH: u32 = 143;

/// Enum for matrix side
#[derive(Debug, Clone, Copy, PartialEq, Eq, Structural)]
pub enum Side {
    /// Multiply general matrix by symmetric, Hermitian, or triangular matrix on the left
    Left,
    /// Multiply general matrix by symmetric, Hermitian, or triangular matrix on the right
    Right,
    /// Multiply on both sides
    Both,
}

/// Raw value of a Side.
pub open spec fn side_to_raw(v: Side) -> u32 {
    match v {
        Side::Left => ROCBLAS_SIDE_LEFT,
        Side::Right => ROCBLAS_SIDE_RIGHT,
        Side::Both => ROCBLAS_SIDE_BOTH,
    }
}

impl From<Side> for u32 {
    fn from(v: Side) -> (r: u32) {
        match v {
            Side::Left => ROCBLAS_SIDE_LEFT,
            Side::Right => ROCBLAS_SIDE_RIGHT,
            Side::Both => ROCBLAS_SIDE_BOTH,
        }
    }
}

impl FromSpecImpl<Side> for u32 {
    open spec fn obeys_from_spec() -> bool {
        true
    }

    open spec fn from_spec(v: Side) -> u32 {
        side_to_raw(v)
    }
}

/// Side of a raw value; unknown values give `Side::Left`.
pub open spec fn side_from_raw(raw: u32) -> Side {
    if raw == ROCBLAS_SIDE_LEFT {
        Side::Left
    } else if raw == ROCBLAS_SIDE_RIGHT {
        Side::Right
    } else if raw == ROCBLAS_SIDE_BOTH {
        Side::Both
    } else {
        Side::Left
    }
}

impl From<u32> for Side {
    fn from(raw: u32) -> (r: Self) {
        if raw == ROCBLAS_SIDE_LEFT {
            Side::Left
        } else if raw == ROCBLAS_SIDE_RIGHT {
            Side::Right
        } else if raw == ROCBLAS_SIDE_BOTH {
            Side::Both
        } else {
            Side::Left
        }
    }
}

impl FromSpecImpl<u32> for Side {
    open spec fn obeys_from_spec() -> bool {
        true
    }

    open spec fn from_spec(raw: u32) -> Self {
        side_from_raw(raw)
    }
}

/// Converting a Side to its raw value and back gives it back, and a
/// known raw value survives the trip the other way.
pub proof fn lemma_side_round_trip(v: Side, raw: u32)
    ensures
        side_from_raw(side_to_raw(v)) == v,
        side_to_raw(side_from_raw(raw)) == raw || side_from_raw(raw) == Side::Left,
{
}

/// Each Side has the raw value of the rocBLAS constant of its own name, each
/// such value converts back to it, and any other value converts to
/// `Side::Left`.
pub proof fn lemma_side_values(raw: u32)
    ensures
        raw != 141 && raw != 142 && raw != 143 ==> side_from_raw(raw) == Side::Left,
        side_to_raw(Side::Left) == 141,
        side_to_raw(Side::Right) == 142,
        side_to_raw(Side::Both) == 143,
        side_from_raw(141) == Side::Left,
        side_from_raw(142) == Side::Right,
        side_from_raw(143) == Side::Both,
{
}

/// `rocblas_datatype_f16_r`
pub const ROCBLAS_DATATYPE_F16_R: u32 = 150;
/// `rocblas_datatype_f32_r`
pub const ROCBLAS_DATATYPE_F32_R: u32 = 151;
/// `rocblas_datatype_f64_r`
pub const ROCBLAS_DATATYPE_F64_R: u32 = 152;
/// `rocblas_datatype_f16_c`
pub const ROCBLAS_DATATYPE_F16_C: u32 = 153;
/// `rocblas_datatype_f32_c`
pub const ROCBLAS_DATATYPE_F32_C: u32 = 154;
/// `rocblas_datatype_f64_c`
pub const ROCBLAS_DATATYPE_F64_C: u32 = 155;
/// `rocblas_datatype_i8_r`
pub const ROCBLAS_DATATYPE_I8_R: u32 = 160;
/// `rocblas_datatype_u8_r`
pub const ROCBLAS_DATATYPE_U8_R: u32 = 161;
/// `rocblas_datatype_i32_r`
pub const ROCBLAS_DATATYPE_I32_R: u32 = 162;
/// `rocblas_datatype_u32_r`
pub const ROCBLAS_DATATYPE_U32_R: u32 = 163;
/// `rocblas_datatype_i8_c`
pub const ROCBLAS_DATATYPE_I8_C: u32 = 164;
/// `rocblas_datatype_u8_c`
pub const ROCBLAS_DATATYPE_U8_C: u32 = 165;
/// `rocblas_datatype_i32_c`
pub const ROCBLAS_DATATYPE_I32_C: u32 = 166;
/// `rocblas_datatype_u32_c`
pub const ROCBLAS_DATATYPE_U32_C: u32 = 167;
/// `rocblas_datatype_bf16_r`
pub const ROCBLAS_DATATYPE_BF16_R: u32 = 168;
/// `rocblas_datatype_bf16_c`
pub const ROCBLAS_DATATYPE_BF16_C: u32 = 169;
/// `rocblas_datatype_f8_r`
pub const ROCBLAS_DATATYPE_F8_R: u32 = 170;
/// `rocblas_datatype_bf8_r`
pub const ROCBLAS_DATATYPE_BF8_R: u32 = 171;

/// Enum for data types
#[derive(Debug, Clone, Copy, PartialEq, Eq, Structural)]
pub enum DataType {
    /// 16-bit floating point, real
    F16Real,
    /// 32-bit floating point, real
    F32Real,
    /// 64-bit floating point, real
    F64Real,
    /// 16-bit floating point, complex
    F16Complex,
    /// 32-bit floating point, complex
    F32Complex,
    /// 64-bit floating point, complex
    F64Complex,
    /// 8-bit signed integer, real
    I8Real,
    /// 8-bit unsigned integer, real
    U8Real,
    /// 32-bit signed integer, real
    I32Real,
    /// 32-bit unsigned integer, real
    U32Real,
    /// 8-bit signed integer, complex
    I8Complex,
    /// 8-bit unsigned integer, complex
    U8Complex,
    /// 32-bit signed integer, complex
    I32Complex,
    /// 32-bit unsigned integer, complex
    U32Complex,
    /// 16-bit bfloat, real
    BF16Real,
    /// 16-bit bfloat, complex
    BF16Complex,
    /// 8-bit floating point, real
    F8Real,
    /// 8-bit bfloat, real
    BF8Real,
}

/// Raw value of a DataType.
pub open spec fn datatype_to_raw(v: DataType) -> u32 {
    match v {
        DataType::F16Real => ROCBLAS_DATATYPE_F16_R,
        DataType::F32Real => ROCBLAS_DATATYPE_F32_R,
        DataType::F64Real => ROCBLAS_DATATYPE_F64_R,
        DataType::F16Complex => ROCBLAS_DATATYPE_F16_C,
        DataType::F32Complex => ROCBLAS_DATATYPE_F32_C,
        DataType::F64Complex => ROCBLAS_DATATYPE_F64_C,
        DataType::I8Real => ROCBLAS_DATATYPE_I8_R,
        DataType::U8Real => ROCBLAS_DATATYPE_U8_R,
        DataType::I32Real => ROCBLAS_DATATYPE_I32_R,
        DataType::U32Real => ROCBLAS_DATATYPE_U32_R,
        DataType::I8Complex => ROCBLAS_DATATYPE_I8_C,
        DataType::U8Complex => ROCBLAS_DATATYPE_U8_C,
        DataType::I32Complex => ROCBLAS_DATATYPE_I32_C,
        DataType::U32Complex => ROCBLAS_DATATYPE_U32_C,
        DataType::BF16Real => ROCBLAS_DATATYPE_BF16_R,
        DataType::BF16Complex => ROCBLAS_DATATYPE_BF16_C,
        DataType::F8Real => ROCBLAS_DATATYPE_F8_R,
        DataType::BF8Real => ROCBLAS_DATATYPE_BF8_R,
    }
}

impl From<DataType> for u32 {
    fn from(v: DataType) -> (r: u32) {
        match v {
            DataType::F16Real => ROCBLAS_DATATYPE_F16_R,
            DataType::F32Real => ROCBLAS_DATATYPE_F32_R,
            DataType::F64Real => ROCBLAS_DATATYPE_F64_R,
            DataType::F16Complex => ROCBLAS_DATATYPE_F16_C,
            DataType::F32Complex => ROCBLAS_DATATYPE_F32_C,
            DataType::F64Complex => ROCBLAS_DATATYPE_F64_C,
            DataType::I8Real => ROCBLAS_DATATYPE_I8_R,
            DataType::U8Real => ROCBLAS_DATATYPE_U8_R,
            DataType::I32Real => ROCBLAS_DATATYPE_I32_R,
            DataType::U32Real => ROCBLAS_DATATYPE_U32_R,
            DataType::I8Complex => ROCBLAS_DATATYPE_I8_C,
            DataType::U8Complex => ROCBLAS_DATATYPE_U8_C,
            DataType::I32Complex => ROCBLAS_DATATYPE_I32_C,
            DataType::U32Complex => ROCBLAS_DATATYPE_U32_C,
            DataType::BF16Real => ROCBLAS_DATATYPE_BF16_R,
            DataType::BF16Complex => ROCBLAS_DATATYPE_BF16_C,
            DataType::F8Real => ROCBLAS_DATATYPE_F8_R,
            DataType::BF8Real => ROCBLAS_DATATYPE_BF8_R,
        }
    }
}

impl FromSpecImpl<DataType> for u32 {
    open spec fn obeys_from_spec() -> bool {
        true
    }

    open spec fn from_spec(v: DataType) -> u32 {
        datatype_to_raw(v)
    }
}

/// DataType of a raw value; unknown values give `DataType::F32Real`.
pub open spec fn datatype_from_raw(raw: u32) -> DataType {
    if raw == ROCBLAS_DATATYPE_F16_R {
        DataType::F16Real
    } else if raw == ROCBLAS_DATATYPE_F32_R {
        DataType::F32Real
    } else if raw == ROCBLAS_DATATYPE_F64_R {
        DataType::F64Real
    } else if raw == ROCBLAS_DATATYPE_F16_C {
        DataType::F16Complex
    } else if raw == ROCBLAS_DATATYPE_F32_C {
        DataType::F32Complex
    } else if raw == ROCBLAS_DATATYPE_F64_C {
        DataType::F64Complex
    } else if raw == ROCBLAS_DATATYPE_I8_R {
        DataType::I8Real
    } else if raw == ROCBLAS_DATATYPE_U8_R {
        DataType::U8Real
    } else if raw == ROCBLAS_DATATYPE_I32_R {
        DataType::I32Real
    } else if raw == ROCBLAS_DATATYPE_U32_R {
        DataType::U32Real
    } else if raw == ROCBLAS_DATATYPE_I8_C {
        DataType::I8Complex
    } else if raw == ROCBLAS_DATATYPE_U8_C {
        DataType::U8Complex
    } else if raw == ROCBLAS_DATATYPE_I32_C {
        DataType::I32Complex
    } else if raw == ROCBLAS_DATATYPE_U32_C {
        DataType::U32Complex
    } else if raw == ROCBLAS_DATATYPE_BF16_R {
        DataType::BF16Real
    } else if raw == ROCBLAS_DATATYPE_BF16_C {
        DataType::BF16Complex
    } else if raw == ROCBLAS_DATATYPE_F8_R {
        DataType::F8Real
    } else if raw == ROCBLAS_DATATYPE_BF8_R {
        DataType::BF8Real
    } else {
        DataType::F32Real
    }
}

impl From<u32> for DataType {
    fn from(raw: u32) -> (r: Self) {
        if raw == ROCBLAS_DATATYPE_F16_R {
            DataType::F16Real
        } else if raw == ROCBLAS_DATATYPE_F32_R {
            DataType::F32Real
        } else if raw == ROCBLAS_DATATYPE_F64_R {
            DataType::F64Real
        } else if raw == ROCBLAS_DATATYPE_F16_C {
            DataType::F16Complex
        } else if raw == ROCBLAS_DATATYPE_F32_C {
            DataType::F32Complex
        } else if raw == ROCBLAS_DATATYPE_F64_C {
            DataType::F64Complex
        } else if raw == ROCBLAS_DATATYPE_I8_R {
            DataType::I8Real
        } else if raw == ROCBLAS_DATATYPE_U8_R {
            DataType::U8Real
        } else if raw == ROCBLAS_DATATYPE_I32_R {
            DataType::I32Real
        } else if raw == ROCBLAS_DATATYPE_U32_R {
            DataType::U32Real
        } else if raw == ROCBLAS_DATATYPE_I8_C {
            DataType::I8Complex
        } else if raw == ROCBLAS_DATATYPE_U8_C {
            DataType::U8Complex
        } else if raw == ROCBLAS_DATATYPE_I32_C {
            DataType::I32Complex
        } else if raw == ROCBLAS_DATATYPE_U32_C {
            DataType::U32Complex
        } else if raw == ROCBLAS_DATATYPE_BF16_R {
            DataType::BF16Real
        } else if raw == ROCBLAS_DATATYPE_BF16_C {
            DataType::BF16Complex
        } else if raw == ROCBLAS_DATATYPE_F8_R {
            DataType::F8Real
        } else if raw == ROCBLAS_DATATYPE_BF8_R {
            DataType::BF8Real
        } else {
            DataType::F32Real
        }
    }
}

impl FromSpecImpl<u32> for DataType {
    open spec fn obeys_from_spec() -> bool {
        true
    }

    open spec fn from_spec(raw: u32) -> Self {
        datatype_from_raw(raw)
    }
}

/// Converting a DataType to its raw value and back gives it back, and a
/// known raw value survives the trip the other way.
pub proof fn lemma_datatype_round_trip(v: DataType, raw: u32)
    ensures
        datatype_from_raw(datatype_to_raw(v)) == v,
        datatype_to_raw(datatype_from_raw(raw)) == raw || datatype_from_raw(raw) == DataType::F32Real,
{
}

/// Each DataType has the raw value of the rocBLAS constant of its own name, each
/// such value converts back to it, and any other value converts to
/// `DataType::F32Real`.
pub proof fn lemma_datatype_values(raw: u32)
    ensures
        raw != 150 && raw != 151 && raw != 152 && raw != 153 && raw != 154 && raw != 155 && raw != 160 && raw != 161 && raw != 162 && raw != 163 && raw != 164 && raw != 165 && raw != 166 && raw != 167 && raw != 168 && raw != 169 && raw != 170 && raw != 171 ==> datatype_from_raw(raw) == DataType::F32Real,
        datatype_to_raw(DataType::F16Real) == 150,
        datatype_to_raw(DataType::F32Real) == 151,
        datatype_to_raw(DataType::F64Real) == 152,
        datatype_to_raw(DataType::F16Complex) == 153,
        datatype_to_raw(DataType::F32Complex) == 154,
        datatype_to_raw(DataType::F64Complex) == 155,
        datatype_to_raw(DataType::I8Real) == 160,
        datatype_to_raw(DataType::U8Real) == 161,
        datatype_to_raw(DataType::I32Real) == 162,
        datatype_to_raw(DataType::U32Real) == 163,
        datatype_to_raw(DataType::I8Complex) == 164,
        datatype_to_raw(DataType::U8Complex) == 165,
        datatype_to_raw(DataType::I32Complex) == 166,
        datatype_to_raw(DataType::U32Complex) == 167,
        datatype_to_raw(DataType::BF16Real) == 168,
        datatype_to_raw(DataType::BF16Complex) == 169,
        datatype_to_raw(DataType::F8Real) == 170,
        datatype_to_raw(DataType::BF8Real) == 171,
        datatype_from_raw(150) == DataType::F16Real,
        datatype_from_raw(151) == DataType::F32Real,
        datatype_from_raw(152) == DataType::F64Real,
        datatype_from_raw(153) == DataType::F16Complex,
        datatype_from_raw(154) == DataType::F32Complex,
        datatype_from_raw(155) == DataType::F64Complex,
        datatype_from_raw(160) == DataType::I8Real,
        datatype_from_raw(161) == DataType::U8Real,
        datatype_from_raw(162) == DataType::I32Real,
        datatype_from_raw(163) == DataType::U32Real,
        datatype_from_raw(164) == DataType::I8Complex,
        datatype_from_raw(165) == DataType::U8Complex,
        datatype_from_raw(166) == DataType::I32Complex,
        datatype_from_raw(167) == DataType::U32Complex,
        datatype_from_raw(168) == DataType::BF16Real,
        datatype_from_raw(169) == DataType::BF16Complex,
        datatype_from_raw(170) == DataType::F8Real,
        datatype_from_raw(171) == DataType::BF8Real,
{
}

} // verus!
