//! Activation modes of MIOpen and their raw values.
use vstd::prelude::*;
use vstd::std_specs::convert::{FromSpecImpl, TryFromSpecImpl};
use crate::miopen::error::{Error, MIOPEN_STATUS_SUCCESS, MIOPEN_STATUS_UNKNOWN_ERROR};

verus! {

/// `miopenActivationPASTHRU`
pub const MIOPEN_ACTIVATION_PASTHRU: u32 = 0;
/// `miopenActivationLOGISTIC`
pub const MIOPEN_ACTIVATION_LOGISTIC: u32 = 1;
/// `miopenActivationTANH`
pub const MIOPEN_ACTIVATION_TANH: u32 = 2;
/// `miopenActivationRELU`
pub const MIOPEN_ACTIVATION_RELU: u32 = 3;
/// `miopenActivationSOFTRELU`
pub const MIOPEN_ACTIVATION_SOFTRELU: u32 = 4;
/// `miopenActivationABS`
pub const MIOPEN_ACTIVATION_ABS: u32 = 5;
/// `miopenActivationPOWER`
pub const MIOPEN_ACTIVATION_POWER: u32 = 6;
/// `miopenActivationCLIPPEDRELU`
pub const MIOPEN_ACTIVATION_CLIPPEDRELU: u32 = 7;
/// `miopenActivationLEAKYRELU`
pub const MIOPEN_ACTIVATION_LEAKYRELU: u32 = 8;
/// `miopenActivationELU`
pub const MIOPEN_ACTIVATION_ELU: u32 = 9;

/// Activation mode type
#[derive(Debug, Clone, Copy, PartialEq, Eq, Structural)]
pub enum ActivationMode {
    /// No activation, pass through the data
    MiopenActivationPASTHRU,
    /// Sigmoid function
    MiopenActivationLOGISTIC,
    /// Tanh activation
    MiopenActivationTANH,
    /// Rectified linear unit
    MiopenActivationRELU,
    /// Soft rectified linear unit
    MiopenActivationSOFTRELU,
    /// Absolute value
    MiopenActivationABS,
    /// Scaled and shifted power
    MiopenActivationPOWER,
    /// Clipped rectified linear unit
    MiopenActivationCLIPPEDRELU,
    /// Leaky rectified linear unit
    MiopenActivationLEAKYRELU,
    /// Exponential linear unit
    MiopenActivationELU,
}

/// Raw value of a ActivationMode.
pub open spec fn activation_mode_to_raw(v: ActivationMode) -> u32 {
    match v {
        ActivationMode::MiopenActivationPASTHRU => MIOPEN_ACTIVATION_PASTHRU,
        ActivationMode::MiopenActivationLOGISTIC => MIOPEN_ACTIVATION_LOGISTIC,
        ActivationMode::MiopenActivationTANH => MIOPEN_ACTIVATION_TANH,
        ActivationMode::MiopenActivationRELU => MIOPEN_ACTIVATION_RELU,
        ActivationMode::MiopenActivationSOFTRELU => MIOPEN_ACTIVATION_SOFTRELU,
        ActivationMode::MiopenActivationABS => MIOPEN_ACTIVATION_ABS,
        ActivationMode::MiopenActivationPOWER => MIOPEN_ACTIVATION_POWER,
        ActivationMode::MiopenActivationCLIPPEDRELU => MIOPEN_ACTIVATION_CLIPPEDRELU,
        ActivationMode::MiopenActivationLEAKYRELU => MIOPEN_ACTIVATION_LEAKYRELU,
        ActivationMode::MiopenActivationELU => MIOPEN_ACTIVATION_ELU,
    }
}

impl From<ActivationMode> for u32 {
    fn from(v: ActivationMode) -> (r: u32) {
        match v {
            ActivationMode::MiopenActivationPASTHRU => MIOPEN_ACTIVATION_PASTHRU,
            ActivationMode::MiopenActivationLOGISTIC => MIOPEN_ACTIVATION_LOGISTIC,
            ActivationMode::MiopenActivationTANH => MIOPEN_ACTIVATION_TANH,
            ActivationMode::MiopenActivationRELU => MIOPEN_ACTIVATION_RELU,
            ActivationMode::MiopenActivationSOFTRELU => MIOPEN_ACTIVATION_SOFTRELU,
            ActivationMode::MiopenActivationABS => MIOPEN_ACTIVATION_ABS,
            ActivationMode::MiopenActivationPOWER => MIOPEN_ACTIVATION_POWER,
            ActivationMode::MiopenActivationCLIPPEDRELU => MIOPEN_ACTIVATION_CLIPPEDRELU,
            ActivationMode::MiopenActivationLEAKYRELU => MIOPEN_ACTIVATION_LEAKYRELU,
            ActivationMode::MiopenActivationELU => MIOPEN_ACTIVATION_ELU,
        }
    }
}

impl FromSpecImpl<ActivationMode> for u32 {
    open spec fn obeys_from_spec() -> bool {
        true
    }

    open spec fn from_spec(v: ActivationMode) -> u32 {
        activation_mode_to_raw(v)
    }
}

/// ActivationMode of a raw value, or the unknown-error status for a value that
/// names no ActivationMode.
pub open spec fn activation_mode_try_from_raw(raw: u32) -> core::result::Result<ActivationMode, Error> {
    if raw == MIOPEN_ACTIVATION_PASTHRU {
        Ok(ActivationMode::MiopenActivationPASTHRU)
    } else if raw == MIOPEN_ACTIVATION_LOGISTIC {
        Ok(ActivationMode::MiopenActivationLOGISTIC)
    } else if raw == MIOPEN_ACTIVATION_TANH {
        Ok(ActivationMode::MiopenActivationTANH)
    } else if raw == MIOPEN_ACTIVATION_RELU {
        Ok(ActivationMode::MiopenActivationRELU)
    } else if raw == MIOPEN_ACTIVATION_SOFTRELU {
        Ok(ActivationMode::MiopenActivationSOFTRELU)
    } else if raw == MIOPEN_ACTIVATION_ABS {
        Ok(ActivationMode::MiopenActivationABS)
    } else if raw == MIOPEN_ACTIVATION_POWER {
        Ok(ActivationMode::MiopenActivationPOWER)
    } else if raw == MIOPEN_ACTIVATION_CLIPPEDRELU {
        Ok(ActivationMode::MiopenActivationCLIPPEDRELU)
    } else if raw == MIOPEN_ACTIVATION_LEAKYRELU {
        Ok(ActivationMode::MiopenActivationLEAKYRELU)
    } else if raw == MIOPEN_ACTIVATION_ELU {
        Ok(ActivationMode::MiopenActivationELU)
    } else {
        Err(Error::spec_new(MIOPEN_STATUS_UNKNOWN_ERROR))
    }
}

impl TryFrom<u32> for ActivationMode {
    type Error = Error;

    fn try_from(value: u32) -> (r: core::result::Result<Self, Self::Error>) {
        if value == MIOPEN_ACTIVATION_PASTHRU {
            Ok(ActivationMode::MiopenActivationPASTHRU)
        } else if value == MIOPEN_ACTIVATION_LOGISTIC {
            Ok(ActivationMode::MiopenActivationLOGISTIC)
        } else if value == MIOPEN_ACTIVATION_TANH {
            Ok(ActivationMode::MiopenActivationTANH)
        } else if value == MIOPEN_ACTIVATION_RELU {
            Ok(ActivationMode::MiopenActivationRELU)
        } else if value == MIOPEN_ACTIVATION_SOFTRELU {
            Ok(ActivationMode::MiopenActivationSOFTRELU)
        } else if value == MIOPEN_ACTIVATION_ABS {
            Ok(ActivationMode::MiopenActivationABS)
        } else if value == MIOPEN_ACTIVATION_POWER {
            Ok(ActivationMode::MiopenActivationPOWER)
        } else if value == MIOPEN_ACTIVATION_CLIPPEDRELU {
            Ok(ActivationMode::MiopenActivationCLIPPEDRELU)
        } else if value == MIOPEN_ACTIVATION_LEAKYRELU {
            Ok(ActivationMode::MiopenActivationLEAKYRELU)
        } else if value == MIOPEN_ACTIVATION_ELU {
            Ok(ActivationMode::MiopenActivationELU)
        } else {
            Err(Error::new(MIOPEN_STATUS_UNKNOWN_ERROR))
        }
    }
}

impl TryFromSpecImpl<u32> for ActivationMode {
    open spec fn obeys_try_from_spec() -> bool {
        true
    }

    open spec fn try_from_spec(v: u32) -> core::result::Result<Self, Error> {
        activation_mode_try_from_raw(v)
    }
}

/// The raw value of a ActivationMode converts back to it.
pub proof fn lemma_activation_mode_round_trip(v: ActivationMode)
    ensures
        activation_mode_try_from_raw(activation_mode_to_raw(v)) == Ok::<ActivationMode, Error>(v),
{
}

/// Each ActivationMode has the raw value of the MIOpen constant of its own name, each
/// such value converts back to it, and any other value is refused with
/// the unknown-error status (7).
pub proof fn lemma_activation_mode_values(raw: u32)
    ensures
        raw != 0 && raw != 1 && raw != 2 && raw != 3 && raw != 4 && raw != 5 && raw != 6 && raw != 7 && raw != 8 && raw != 9 ==> activation_mode_try_from_raw(raw) == Err::<ActivationMode, Error>(Error::spec_new(7)),
        activation_mode_to_raw(ActivationMode::MiopenActivationPASTHRU) == 0,
        activation_mode_to_raw(ActivationMode::MiopenActivationLOGISTIC) == 1,
        activation_mode_to_raw(ActivationMode::MiopenActivationTANH) == 2,
        activation_mode_to_raw(ActivationMode::MiopenActivationRELU) == 3,
        activation_mode_to_raw(ActivationMode::MiopenActivationSOFTRELU) == 4,
        activation_mode_to_raw(ActivationMode::MiopenActivationABS) == 5,
        activation_mode_to_raw(ActivationMode::MiopenActivationPOWER) == 6,
        activation_mode_to_raw(ActivationMode::MiopenActivationCLIPPEDRELU) == 7,
        activation_mode_to_raw(ActivationMode::MiopenActivationLEAKYRELU) == 8,
        activation_mode_to_raw(ActivationMode::MiopenActivationELU) == 9,
        activation_mode_try_from_raw(0) == Ok::<ActivationMode, Error>(ActivationMode::MiopenActivationPASTHRU),
        activation_mode_try_from_raw(1) == Ok::<ActivationMode, Error>(ActivationMode::MiopenActivationLOGISTIC),
        activation_mode_try_from_raw(2) == Ok::<ActivationMode, Error>(ActivationMode::MiopenActivationTANH),
        activation_mode_try_from_raw(3) == Ok::<ActivationMode, Error>(ActivationMode::MiopenActivationRELU),
        activation_mode_try_from_raw(4) == Ok::<ActivationMode, Error>(ActivationMode::MiopenActivationSOFTRELU),
        activation_mode_try_from_raw(5) == Ok::<ActivationMode, Error>(ActivationMode::MiopenActivationABS),
        activation_mode_try_from_raw(6) == Ok::<ActivationMode, Error>(ActivationMode::MiopenActivationPOWER),
        activation_mode_try_from_raw(7) == Ok::<ActivationMode, Error>(ActivationMode::MiopenActivationCLIPPEDRELU),
        activation_mode_try_from_raw(8) == Ok::<ActivationMode, Error>(ActivationMode::MiopenActivationLEAKYRELU),
        activation_mode_try_from_raw(9) == Ok::<ActivationMode, Error>(ActivationMode::MiopenActivationELU),
{
}

impl ActivationMode {
    /// The ActivationMode a descriptor query reported: the query's failure status,
    /// or the ActivationMode of the raw value it gave.
    pub fn from_query(status: u32, raw: u32) -> (r: core::result::Result<Self, Error>)
        ensures
            status != MIOPEN_STATUS_SUCCESS ==> r == Err::<Self, Error>(Error::spec_new(status)),
            status == MIOPEN_STATUS_SUCCESS ==> r == activation_mode_try_from_raw(raw),
    {
        if status != MIOPEN_STATUS_SUCCESS {
            return Err(Error::new(status));
        }
        Self::try_from(raw)
    }
}

} // verus!
