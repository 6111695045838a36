//! Startup parameters and the range checks shared by startup and by
//! inline directives.
//!
//! The engine stores every fractional quantity as an integer count of
//! thousandths, so `volume_milli == 200` stands for a linear amplitude
//! of `0.2`.

use vstd::prelude::*;

use crate::errors::{ConfigField, ErrSpec, MorseError};

verus! {

/// Granularity of the optional side-channel echo while playing.
#[derive(Clone, Copy, Debug, PartialEq, Eq, Structural)]
pub enum DumpType {
    Char,
    Line,
}

pub const WPM_MIN: u8 = 3;

pub const WPM_MAX: u8 = 60;

/// 400 Hz, in thousandths of a hertz.
pub const FREQUENCY_MIN_MILLI: u32 = 400_000;

/// 1200 Hz, in thousandths of a hertz.
pub const FREQUENCY_MAX_MILLI: u32 = 1_200_000;

/// Amplitude 0.001, in thousandths.
pub const VOLUME_MIN_MILLI: u32 = 1;

/// Amplitude 1.0, in thousandths.
pub const VOLUME_MAX_MILLI: u32 = 1_000;

/// Exponent 1.0, in thousandths.
pub const POWER_MIN_MILLI: u32 = 1_000;

/// Exponent 5.0, in thousandths.
pub const POWER_MAX_MILLI: u32 = 5_000;

/// Startup parameters of one run, already reduced to plain values.
/// Argument-vector handling and input selection stay with the caller;
/// the engine only reads the fields below.
#[derive(Clone, Copy, Debug, PartialEq, Eq, Structural)]
pub struct Args {
    /// Speed in words per minute.
    pub wpm: u8,
    /// Tone pitch in thousandths of a hertz.
    pub frequency_milli: u32,
    /// Linear amplitude in thousandths.
    pub volume_milli: u32,
    /// Loudness-curve exponent in thousandths.
    pub power_milli: u32,
    /// Multiplier on inter-character and inter-word gaps, in thousandths.
    pub farnsworth_milli: u32,
    /// Side-channel echo granularity, if any.
    pub dump: Option<DumpType>,
    /// Echo each accepted directive's fields.
    pub verbose: bool,
}

/// The range invariants of a configuration: 3..=60 words per minute,
/// 400..=1200 Hz, amplitude 0.001..=1.0, exponent 1.0..=5.0.  The
/// Farnsworth multiplier is not range-checked.
pub open spec fn spec_in_range(
    wpm: u8,
    frequency_milli: u32,
    volume_milli: u32,
    power_milli: u32,
) -> bool {
    &&& WPM_MIN <= wpm <= WPM_MAX
    &&& FREQUENCY_MIN_MILLI <= frequency_milli <= FREQUENCY_MAX_MILLI
    &&& VOLUME_MIN_MILLI <= volume_milli <= VOLUME_MAX_MILLI
    &&& POWER_MIN_MILLI <= power_milli <= POWER_MAX_MILLI
}

/// The error `check_range` raises on `args`, if any: the first field,
/// in the order speed, frequency, volume, power, whose value lies
/// outside its allowed interval.
pub open spec fn spec_range_error(args: Args) -> Option<ErrSpec> {
    if !(WPM_MIN <= args.wpm <= WPM_MAX) {
        Some(ErrSpec::RangeError {
            field: ConfigField::Wpm,
            value: args.wpm as u32,
            low: WPM_MIN as u32,
            high: WPM_MAX as u32,
        })
    } else if !(FREQUENCY_MIN_MILLI <= args.frequency_milli <= FREQUENCY_MAX_MILLI) {
        Some(ErrSpec::RangeError {
            field: ConfigField::Frequency,
            value: args.frequency_milli,
            low: FREQUENCY_MIN_MILLI,
            high: FREQUENCY_MAX_MILLI,
        })
    } else if !(VOLUME_MIN_MILLI <= args.volume_milli <= VOLUME_MAX_MILLI) {
        Some(ErrSpec::RangeError {
            field: ConfigField::Volume,
            value: args.volume_milli,
            low: VOLUME_MIN_MILLI,
            high: VOLUME_MAX_MILLI,
        })
    } else if !(POWER_MIN_MILLI <= args.power_milli <= POWER_MAX_MILLI) {
        Some(ErrSpec::RangeError {
            field: ConfigField::Power,
            value: args.power_milli,
            low: POWER_MIN_MILLI,
            high: POWER_MAX_MILLI,
        })
    } else {
        None
    }
}

impl Default for Args {
    /// The startup defaults: 25 wpm, 600 Hz, amplitude 0.2, exponent
    /// 2.5, Farnsworth multiplier 1.0, no echo.
    fn default() -> (a: Args)
        ensures
            a.wpm == 25,
            a.frequency_milli == 600_000,
            a.volume_milli == 200,
            a.power_milli == 2_500,
            a.farnsworth_milli == 1_000,
            a.dump is None,
            !a.verbose,
    {
        Args {
            wpm: 25,
            frequency_milli: 600_000,
            volume_milli: 200,
            power_milli: 2_500,
            farnsworth_milli: 1_000,
            dump: None,
            verbose: false,
        }
    }
}

/// Checks the range invariants on `opt`, returning the first violation
/// in the order speed, frequency, volume, power.  Success is owed
/// exactly when all four fields lie in their intervals; the Farnsworth
/// multiplier is never rejected.
pub fn check_range(opt: &Args) -> (r: Result<(), MorseError>)
    ensures
        r is Ok <==> spec_in_range(
            opt.wpm,
            opt.frequency_milli,
            opt.volume_milli,
            opt.power_milli,
        ),
        r matches Err(e) ==> Some(e@) == spec_range_error(*opt),
{
    if opt.wpm < WPM_MIN || WPM_MAX < opt.wpm {
        return Err(MorseError::RangeError {
            field: ConfigField::Wpm,
            value: opt.wpm as u32,
            low: WPM_MIN as u32,
            high: WPM_MAX as u32,
        });
    }
    if opt.frequency_milli < FREQUENCY_MIN_MILLI || FREQUENCY_MAX_MILLI < opt.frequency_milli {
        return Err(MorseError::RangeError {
            field: ConfigField::Frequency,
            value: opt.frequency_milli,
            low: FREQUENCY_MIN_MILLI,
            high: FREQUENCY_MAX_MILLI,
        });
    }
    if opt.volume_milli < VOLUME_MIN_MILLI || VOLUME_MAX_MILLI < opt.volume_milli {
        return Err(MorseError::RangeError {
            field: ConfigField::Volume,
            value: opt.volume_milli,
            low: VOLUME_MIN_MILLI,
            high: VOLUME_MAX_MILLI,
        });
    }
    if opt.power_milli < POWER_MIN_MILLI || POWER_MAX_MILLI < opt.power_milli {
        return Err(MorseError::RangeError {
            field: ConfigField::Power,
            value: opt.power_milli,
            low: POWER_MIN_MILLI,
            high: POWER_MAX_MILLI,
        });
    }
    Ok(())
}

} // verus!
