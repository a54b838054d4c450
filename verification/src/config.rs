//! Configuration values for the GPADC: the channel selection, conversion
//! mode and the analog front-end settings, together with the bit codes each
//! setting is written to the hardware as.

use vstd::prelude::*;

verus! {

/// Conversion mode: measure one input against ground, or the difference
/// between two inputs.
#[derive(Clone, Copy, PartialEq, Eq, Structural, Debug)]
pub enum Mode {
    SingleEnded,
    Differential,
}

impl Mode {
    /// Value of the `GP_ADC_SE` control bit for this mode.
    pub open spec fn se_bit(self) -> bool {
        self is SingleEnded
    }

    /// Compute the `GP_ADC_SE` control bit.
    pub fn to_se_bit(self) -> (b: bool)
        ensures
            b == self.se_bit(),
    {
        match self {
            Mode::SingleEnded => true,
            Mode::Differential => false,
        }
    }
}

/// Input attenuation: the factor the input signal is scaled down by,
/// extending the usable full-scale range.
#[derive(Clone, Copy, PartialEq, Eq, Structural, Debug)]
pub enum Attenuation {
    X1,
    X2,
    X3,
    X4,
}

impl Attenuation {
    /// Bit code of this attenuation level in the `GP_ADC_ATTN` field.
    pub open spec fn code(self) -> u8 {
        match self {
            Attenuation::X1 => 0,
            Attenuation::X2 => 1,
            Attenuation::X3 => 2,
            Attenuation::X4 => 3,
        }
    }

    /// Compute the `GP_ADC_ATTN` field value.
    pub fn bits(self) -> (r: u8)
        ensures
            r == self.code(),
            r <= 3,
    {
        match self {
            Attenuation::X1 => 0,
            Attenuation::X2 => 1,
            Attenuation::X3 => 2,
            Attenuation::X4 => 3,
        }
    }
}

/// Oversampling: the number of conversions averaged into one result,
/// doubling with each level.
#[derive(Clone, Copy, PartialEq, Eq, Structural, Debug)]
pub enum Averaging {
    X1,
    X2,
    X4,
    X8,
    X16,
    X32,
    X64,
    X128,
}

impl Averaging {
    /// Bit code of this averaging factor in the `GP_ADC_CONV_NRS` field.
    pub open spec fn code(self) -> u8 {
        match self {
            Averaging::X1 => 0,
            Averaging::X2 => 1,
            Averaging::X4 => 2,
            Averaging::X8 => 3,
            Averaging::X16 => 4,
            Averaging::X32 => 5,
            Averaging::X64 => 6,
            Averaging::X128 => 7,
        }
    }

    /// Compute the `GP_ADC_CONV_NRS` field value.
    pub fn bits(self) -> (r: u8)
        ensures
            r == self.code(),
            r <= 7,
    {
        match self {
            Averaging::X1 => 0,
            Averaging::X2 => 1,
            Averaging::X4 => 2,
            Averaging::X8 => 3,
            Averaging::X16 => 4,
            Averaging::X32 => 5,
            Averaging::X64 => 6,
            Averaging::X128 => 7,
        }
    }
}

/// Sample-and-hold duration, in multiples of the base sampling period.
#[derive(Clone, Copy, PartialEq, Eq, Structural, Debug)]
pub enum SampleTime {
    S1,
    S2,
    S3,
    S4,
    S5,
    S6,
    S7,
    S8,
    S9,
    S10,
    S11,
    S12,
    S13,
    S14,
    S15,
    S16,
}

impl SampleTime {
    /// Bit code of this sample time in the `GP_ADC_SMPL_TIME` field.
    pub open spec fn code(self) -> u8 {
        match self {
            SampleTime::S1 => 0,
            SampleTime::S2 => 1,
            SampleTime::S3 => 2,
            SampleTime::S4 => 3,
            SampleTime::S5 => 4,
            SampleTime::S6 => 5,
            SampleTime::S7 => 6,
            SampleTime::S8 => 7,
            SampleTime::S9 => 8,
            SampleTime::S10 => 9,
            SampleTime::S11 => 10,
            SampleTime::S12 => 11,
            SampleTime::S13 => 12,
            SampleTime::S14 => 13,
            SampleTime::S15 => 14,
            SampleTime::S16 => 15,
        }
    }

    /// Compute the `GP_ADC_SMPL_TIME` field value.
    pub fn bits(self) -> (r: u8)
        ensures
            r == self.code(),
            r <= 15,
    {
        match self {
            SampleTime::S1 => 0,
            SampleTime::S2 => 1,
            SampleTime::S3 => 2,
            SampleTime::S4 => 3,
            SampleTime::S5 => 4,
            SampleTime::S6 => 5,
            SampleTime::S7 => 6,
            SampleTime::S8 => 7,
            SampleTime::S9 => 8,
            SampleTime::S10 => 9,
            SampleTime::S11 => 10,
            SampleTime::S12 => 11,
            SampleTime::S13 => 12,
            SampleTime::S14 => 13,
            SampleTime::S15 => 14,
            SampleTime::S16 => 15,
        }
    }
}

/// One complete ADC configuration, applied by `GpAdc::configure`.
#[derive(Clone, Copy, PartialEq, Eq, Structural, Debug)]
pub struct AdcConfig {
    /// Selector code of the positive input channel.
    pub channel_sel_pos: u8,
    /// Selector code of the negative input channel.
    pub channel_sel_neg: u8,
    /// Single-ended or differential conversion.
    pub mode: Mode,
    /// Free-running conversions rather than single-shot.
    pub continuous: bool,
    /// Route the on-die temperature sensor into the conversion path.
    pub enable_die_temp: bool,
    /// Chopper (offset-cancellation) mode.
    pub chopper: bool,
    /// Input attenuation level.
    pub attenuation: Attenuation,
    /// Oversampling/averaging factor.
    pub averaging: Averaging,
    /// Sample-and-hold duration.
    pub sample_time: SampleTime,
}

} // verus!
