//! Data types of MIOpen tensors and their raw values.
use vstd::prelude::*;
use vstd::std_specs::convert::{FromSpecImpl, TryFromSpecImpl};
use crate::miopen::error::{Error, MIOPEN_STATUS_SUCCESS, MIOPEN_STATUS_UNKNOWN_ERROR};

verus! {

/// `miopenHalf`
pub const MIOPEN_HALF: u32 = 0;
/// `miopenFloat`
pub const MIOPEN_FLOAT: u32 = 1;
/// `miopenInt32`
pub const MIOPEN_INT32: u32 = 2;
/// `miopenInt8`
pub const MIOPEN_INT8: u32 = 3;
/// `miopenBFloat16`
pub const MIOPEN_BFLOAT16: u32 = 5;
/// `miopenDouble`
pub const MIOPEN_DOUBLE: u32 = 6;
/// `miopenInt64`
pub const MIOPEN_INT64: u32 = 9;

/// MIOpen data types
#[derive(Debug, Clone, Copy, PartialEq, Eq, Structural)]
pub enum DataType {
    /// 16-bit floating point
    MiopenHalf,
    /// 32-bit floating point
    MiopenFloat,
    /// 32-bit integer
    MiopenInt32,
    /// 8-bit integer
    MiopenInt8,
    /// 16-bit binary floating point
    MiopenBFloat16,
    /// 64-bit floating point
    MiopenDouble,
    /// 64-bit integer
    MiopenInt64,
}

/// Raw value of a DataType.
pub open spec fn data_type_to_raw(v: DataType) -> u32 {
    match v {
        DataType::MiopenHalf => MIOPEN_HALF,
        DataType::MiopenFloat => MIOPEN_FLOAT,
        DataType::MiopenInt32 => MIOPEN_INT32,
        DataType::MiopenInt8 => MIOPEN_INT8,
        DataType::MiopenBFloat16 => MIOPEN_BFLOAT16,
        DataType::MiopenDouble => MIOPEN_DOUBLE,
        DataType::MiopenInt64 => MIOPEN_INT64,
    }
}

impl From<DataType> for u32 {
    fn from(v: DataType) -> (r: u32) {
        match v {
            DataType::MiopenHalf => MIOPEN_HALF,
            DataType::MiopenFloat => MIOPEN_FLOAT,
            DataType::MiopenInt32 => MIOPEN_INT32,
            DataType::MiopenInt8 => MIOPEN_INT8,
            DataType::MiopenBFloat16 => MIOPEN_BFLOAT16,
            DataType::MiopenDouble => MIOPEN_DOUBLE,
            DataType::MiopenInt64 => MIOPEN_INT64,
        }
    }
}

impl FromSpecImpl<DataType> for u32 {
    open spec fn obeys_from_spec() -> bool {
        true
    }

    open spec fn from_spec(v: DataType) -> u32 {
        data_type_to_raw(v)
    }
}

/// DataType of a raw value, or the unknown-error status for a value that
/// names no DataType.
pub open spec fn data_type_try_from_raw(raw: u32) -> core::result::Result<DataType, Error> {
    if raw == MIOPEN_HALF {
        Ok(DataType::MiopenHalf)
    } else if raw == MIOPEN_FLOAT {
        Ok(DataType::MiopenFloat)
    } else if raw == MIOPEN_INT32 {
        Ok(DataType::MiopenInt32)
    } else if raw == MIOPEN_INT8 {
        Ok(DataType::MiopenInt8)
    } else if raw == MIOPEN_BFLOAT16 {
        Ok(DataType::MiopenBFloat16)
    } else if raw == MIOPEN_DOUBLE {
        Ok(DataType::MiopenDouble)
    } else if raw == MIOPEN_INT64 {
        Ok(DataType::MiopenInt64)
    } else {
        Err(Error::spec_new(MIOPEN_STATUS_UNKNOWN_ERROR))
    }
}

impl TryFrom<u32> for DataType {
    type Error = Error;

    fn try_from(value: u32) -> (r: core::result::Result<Self, Self::Error>) {
        if value == MIOPEN_HALF {
            Ok(DataType::MiopenHalf)
        } else if value == MIOPEN_FLOAT {
            Ok(DataType::MiopenFloat)
        } else if value == MIOPEN_INT32 {
            Ok(DataType::MiopenInt32)
        } else if value == MIOPEN_INT8 {
            Ok(DataType::MiopenInt8)
        } else if value == MIOPEN_BFLOAT16 {
            Ok(DataType::MiopenBFloat16)
        } else if value == MIOPEN_DOUBLE {
            Ok(DataType::MiopenDouble)
        } else if value == MIOPEN_INT64 {
            Ok(DataType::MiopenInt64)
        } else {
            Err(Error::new(MIOPEN_STATUS_UNKNOWN_ERROR))
        }
    }
}

impl TryFromSpecImpl<u32> for DataType {
    open spec fn obeys_try_from_spec() -> bool {
        true
    }

    open spec fn try_from_spec(v: u32) -> core::result::Result<Self, Error> {
        data_type_try_from_raw(v)
    }
}

/// The raw value of a DataType converts back to it.
pub proof fn lemma_data_type_round_trip(v: DataType)
    ensures
        data_type_try_from_raw(data_type_to_raw(v)) == Ok::<DataType, Error>(v),
{
}

/// Each DataType has the raw value of the MIOpen constant of its own name, each
/// such value converts back to it, and any other value is refused with
/// the unknown-error status (7).
pub proof fn lemma_data_type_values(raw: u32)
    ensures
        raw != 0 && raw != 1 && raw != 2 && raw != 3 && raw != 5 && raw != 6 && raw != 9 ==> data_type_try_from_raw(raw) == Err::<DataType, Error>(Error::spec_new(7)),
        data_type_to_raw(DataType::MiopenHalf) == 0,
        data_type_to_raw(DataType::MiopenFloat) == 1,
        data_type_to_raw(DataType::MiopenInt32) == 2,
        data_type_to_raw(DataType::MiopenInt8) == 3,
        data_type_to_raw(DataType::MiopenBFloat16) == 5,
        data_type_to_raw(DataType::MiopenDouble) == 6,
        data_type_to_raw(DataType::MiopenInt64) == 9,
        data_type_try_from_raw(0) == Ok::<DataType, Error>(DataType::MiopenHalf),
        data_type_try_from_raw(1) == Ok::<DataType, Error>(DataType::MiopenFloat),
        data_type_try_from_raw(2) == Ok::<DataType, Error>(DataType::MiopenInt32),
        data_type_try_from_raw(3) == Ok::<DataType, Error>(DataType::MiopenInt8),
        data_type_try_from_raw(5) == Ok::<DataType, Error>(DataType::MiopenBFloat16),
        data_type_try_from_raw(6) == Ok::<DataType, Error>(DataType::MiopenDouble),
        data_type_try_from_raw(9) == Ok::<DataType, Error>(DataType::MiopenInt64),
{
}

impl DataType {
    /// The DataType a descriptor query reported: the query's failure status,
    /// or the DataType of the raw value it gave.
    pub fn from_query(status: u32, raw: u32) -> (r: core::result::Result<Self, Error>)
        ensures
            status != MIOPEN_STATUS_SUCCESS ==> r == Err::<Self, Error>(Error::spec_new(status)),
            status == MIOPEN_STATUS_SUCCESS ==> r == data_type_try_from_raw(raw),
    {
        if status != MIOPEN_STATUS_SUCCESS {
            return Err(Error::new(status));
        }
        Self::try_from(raw)
    }
}

} // verus!
