//! Speed/timing derivation and the startup range checks.

use morse_rs::args::{Args, DumpType};
use morse_rs::errors::{ConfigField, MorseError};
use morse_rs::morse::calc_dit;

fn base_args() -> Args {
    Args {
        wpm: 25,
        frequency_milli: 600_000,
        volume_milli: 200,
        power_milli: 2_500,
        farnsworth_milli: 1_000,
        dump: None,
        verbose: false,
    }
}

#[test]
fn dit_duration_from_wpm() {
    assert_eq!(calc_dit(20), 60);
    assert_eq!(calc_dit(25), 48);
    assert_eq!(calc_dit(3), 400);
    assert_eq!(calc_dit(60), 20);
    assert_eq!(calc_dit(18), 66);
}

#[test]
fn default_args() {
    let a = Args::default();
    assert_eq!(a.wpm, 25);
    assert_eq!(a.frequency_milli, 600_000);
    assert_eq!(a.volume_milli, 200);
    assert_eq!(a.power_milli, 2_500);
    assert_eq!(a.farnsworth_milli, 1_000);
    assert_eq!(a.dump, None);
    assert!(!a.verbose);
}

#[test]
fn boundary_value_test_wpm() {
    let mut a = base_args();
    a.wpm = 3;
    assert!(morse_rs::args::check_range(&a).is_ok());
    a.wpm = 60;
    assert!(morse_rs::args::check_range(&a).is_ok());
    a.wpm = 2;
    assert_eq!(
        morse_rs::args::check_range(&a),
        Err(MorseError::RangeError { field: ConfigField::Wpm, value: 2, low: 3, high: 60 })
    );
    a.wpm = 61;
    assert_eq!(
        morse_rs::args::check_range(&a),
        Err(MorseError::RangeError { field: ConfigField::Wpm, value: 61, low: 3, high: 60 })
    );
}

#[test]
fn boundary_value_test_frequency() {
    let mut a = base_args();
    a.frequency_milli = 400_000;
    assert!(morse_rs::args::check_range(&a).is_ok());
    a.frequency_milli = 1_200_000;
    assert!(morse_rs::args::check_range(&a).is_ok());
    a.frequency_milli = 399_999;
    assert_eq!(
        morse_rs::args::check_range(&a),
        Err(MorseError::RangeError {
            field: ConfigField::Frequency,
            value: 399_999,
            low: 400_000,
            high: 1_200_000,
        })
    );
    a.frequency_milli = 1_200_001;
    assert!(morse_rs::args::check_range(&a).is_err());
}

#[test]
fn boundary_value_test_volume() {
    let mut a = base_args();
    a.volume_milli = 1;
    assert!(morse_rs::args::check_range(&a).is_ok());
    a.volume_milli = 1_000;
    assert!(morse_rs::args::check_range(&a).is_ok());
    a.volume_milli = 0;
    assert_eq!(
        morse_rs::args::check_range(&a),
        Err(MorseError::RangeError { field: ConfigField::Volume, value: 0, low: 1, high: 1_000 })
    );
    a.volume_milli = 1_100;
    assert!(morse_rs::args::check_range(&a).is_err());
}

#[test]
fn boundary_value_test_power() {
    let mut a = base_args();
    a.power_milli = 1_000;
    assert!(morse_rs::args::check_range(&a).is_ok());
    a.power_milli = 5_000;
    assert!(morse_rs::args::check_range(&a).is_ok());
    a.power_milli = 900;
    assert_eq!(
        morse_rs::args::check_range(&a),
        Err(MorseError::RangeError {
            field: ConfigField::Power,
            value: 900,
            low: 1_000,
            high: 5_000,
        })
    );
    a.power_milli = 5_100;
    assert!(morse_rs::args::check_range(&a).is_err());
}

#[test]
fn range_check_reports_first_violation() {
    let mut a = base_args();
    a.wpm = 1;
    a.volume_milli = 0;
    assert_eq!(
        morse_rs::args::check_range(&a),
        Err(MorseError::RangeError { field: ConfigField::Wpm, value: 1, low: 3, high: 60 })
    );
}

#[test]
fn dump_type_values() {
    let a = DumpType::Char;
    let b = DumpType::Line;
    assert_ne!(a, b);
    assert_eq!(a.clone(), DumpType::Char);
}
