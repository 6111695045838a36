//! Error kinds of the playback engine.  Every error raised while a
//! directive is parsed, validated, or a preset is recalled is fatal to
//! the run: the engine performs no partial recovery.

use vstd::prelude::*;

verus! {

/// The configuration fields that a directive may address.
#[derive(Clone, Copy, Debug, PartialEq, Eq, Structural)]
pub enum ConfigField {
    Wpm,
    Frequency,
    Volume,
    Power,
    FarnsworthTiming,
    Player,
}

/// Spec-level image of a [`MorseError`], with string payloads as
/// character sequences.
pub enum ErrSpec {
    RangeError { field: ConfigField, value: u32, low: u32, high: u32 },
    DuplicateDirectiveField { field: ConfigField },
    UndefinedDirectiveToken { token: Seq<char> },
    UndefinedPlayer { name: Seq<char> },
    DirectiveValueParseError { field: ConfigField, raw: Seq<char> },
}

/// A fatal error of the engine.
///
/// `RangeError` carries the offending value and the allowed closed
/// interval, in the unit the configuration stores: plain words per
/// minute for `Wpm`, thousandths for the fractional fields.
#[derive(Debug, PartialEq, Eq)]
pub enum MorseError {
    RangeError { field: ConfigField, value: u32, low: u32, high: u32 },
    DuplicateDirectiveField { field: ConfigField },
    UndefinedDirectiveToken { token: String },
    UndefinedPlayer { name: String },
    DirectiveValueParseError { field: ConfigField, raw: String },
}

impl View for MorseError {
    type V = ErrSpec;

    open spec fn view(&self) -> ErrSpec {
        match self {
            MorseError::RangeError { field, value, low, high } => ErrSpec::RangeError {
                field: *field,
                value: *value,
                low: *low,
                high: *high,
            },
            MorseError::DuplicateDirectiveField { field } => ErrSpec::DuplicateDirectiveField {
                field: *field,
            },
            MorseError::UndefinedDirectiveToken { token } => ErrSpec::UndefinedDirectiveToken {
                token: token@,
            },
            MorseError::UndefinedPlayer { name } => ErrSpec::UndefinedPlayer { name: name@ },
            MorseError::DirectiveValueParseError { field, raw } => ErrSpec::DirectiveValueParseError {
                field: *field,
                raw: raw@,
            },
        }
    }
}

} // verus!
