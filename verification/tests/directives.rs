//! Directive parsing, validation, atomic commit, and presets.

use morse_rs::args::Args;
use morse_rs::errors::{ConfigField, MorseError};
use morse_rs::morse::{LineOutcome, Morse};

fn engine(wpm: u8) -> Morse {
    let a = Args {
        wpm,
        frequency_milli: 600_000,
        volume_milli: 200,
        power_milli: 2_500,
        farnsworth_milli: 1_000,
        dump: None,
        verbose: false,
    };
    Morse::new(&a)
}

#[test]
fn directive_updates_configuration() {
    let mut m = engine(25);
    let r = m.handle_line("#!--wpm 20 --frequency 700").unwrap();
    assert!(matches!(r, LineOutcome::Reconfigured { .. }));
    assert_eq!(m.config.wpm, 20);
    assert_eq!(m.config.frequency_milli, 700_000);
    assert_eq!(m.config.dit_duration, 60);
    assert_eq!(m.config.volume_milli, 200);
}

#[test]
fn directive_keys_are_case_insensitive() {
    let mut m = engine(25);
    m.handle_line("#!--WPM 20 --Frequency 700").unwrap();
    assert_eq!(m.config.wpm, 20);
    assert_eq!(m.config.frequency_milli, 700_000);
}

#[test]
fn empty_directive_is_a_no_op() {
    let mut m = engine(25);
    let before = m.config;
    let r = m.handle_line("#!").unwrap();
    assert!(matches!(r, LineOutcome::Ignored));
    assert_eq!(m.config, before);
}

#[test]
fn directive_body_ends_at_second_bang() {
    let mut m = engine(25);
    // the body between the marker and the next `!` is empty
    let r = m.handle_line("#!!--wpm 99").unwrap();
    assert!(matches!(r, LineOutcome::Ignored));
    assert_eq!(m.config.wpm, 25);
}

#[test]
fn duplicated_key_fails_and_leaves_configuration_unchanged() {
    let mut m = engine(25);
    let before = m.config;
    let r = m.handle_line("#!--wpm 10 --wpm 20");
    assert_eq!(
        r,
        Err(MorseError::DuplicateDirectiveField { field: ConfigField::Wpm })
    );
    assert_eq!(m.config, before);
}

#[test]
fn unrecognized_key_fails_with_the_token() {
    let mut m = engine(25);
    let r = m.handle_line("#!--bogus 1");
    assert_eq!(
        r,
        Err(MorseError::UndefinedDirectiveToken { token: "--bogus".to_string() })
    );
}

#[test]
fn bad_value_fails_with_field_and_raw_text() {
    let mut m = engine(25);
    let r = m.handle_line("#!--wpm 1.5");
    assert_eq!(
        r,
        Err(MorseError::DirectiveValueParseError {
            field: ConfigField::Wpm,
            raw: "1.5".to_string(),
        })
    );
    let r = m.handle_line("#!--frequency abc");
    assert_eq!(
        r,
        Err(MorseError::DirectiveValueParseError {
            field: ConfigField::Frequency,
            raw: "abc".to_string(),
        })
    );
}

#[test]
fn out_of_range_directive_is_rejected_atomically() {
    let mut m = engine(25);
    let before = m.config;
    let r = m.handle_line("#!--wpm 10 --frequency 5000");
    assert_eq!(
        r,
        Err(MorseError::RangeError {
            field: ConfigField::Frequency,
            value: 5_000_000,
            low: 400_000,
            high: 1_200_000,
        })
    );
    // the in-range speed of the same directive was not applied either
    assert_eq!(m.config, before);
}

#[test]
fn out_of_range_wpm_is_rejected() {
    let mut m = engine(25);
    let r = m.handle_line("#!--wpm 61");
    assert_eq!(
        r,
        Err(MorseError::RangeError { field: ConfigField::Wpm, value: 61, low: 3, high: 60 })
    );
}

#[test]
fn trailing_key_without_value_is_ignored() {
    let mut m = engine(25);
    let r = m.handle_line("#!--wpm 10 --frequency").unwrap();
    assert!(matches!(r, LineOutcome::Reconfigured { .. }));
    assert_eq!(m.config.wpm, 10);
    assert_eq!(m.config.frequency_milli, 600_000);
}

#[test]
fn farnsworth_is_not_range_checked() {
    let mut m = engine(25);
    m.handle_line("#!--farnsworth_timing 9.5").unwrap();
    assert_eq!(m.config.farnsworth_milli, 9_500);
    m.handle_line("#!--farnsworth_timing 0").unwrap();
    assert_eq!(m.config.farnsworth_milli, 0);
}

#[test]
fn recalling_an_undefined_preset_fails_and_preserves_configuration() {
    let mut m = engine(25);
    let before = m.config;
    let r = m.handle_line("#!--player X");
    assert_eq!(r, Err(MorseError::UndefinedPlayer { name: "X".to_string() }));
    assert_eq!(m.config, before);
}

#[test]
fn store_then_recall_round_trips_exactly() {
    let mut m = engine(25);
    m.handle_line("#!--wpm 18 --frequency 500 --player fast").unwrap();
    assert_eq!(m.config.wpm, 18);
    assert_eq!(m.config.frequency_milli, 500_000);
    let stored = m.config;
    // move the active configuration elsewhere
    m.handle_line("#!--wpm 30 --volume 0.5 --frequency 900").unwrap();
    assert_ne!(m.config, stored);
    // recalling reproduces the stored snapshot bit for bit
    m.handle_line("#!--player fast").unwrap();
    assert_eq!(m.config, stored);
}

#[test]
fn default_preset_restores_the_initial_configuration() {
    let mut m = engine(25);
    let initial = m.config;
    m.handle_line("#!--wpm 10 --volume 0.9").unwrap();
    assert_ne!(m.config, initial);
    m.handle_line("#!--player default").unwrap();
    assert_eq!(m.config, initial);
}

#[test]
fn storing_overwrites_an_existing_preset() {
    let mut m = engine(25);
    m.handle_line("#!--wpm 18 --player p").unwrap();
    m.handle_line("#!--wpm 40 --player p").unwrap();
    m.handle_line("#!--wpm 25").unwrap();
    m.handle_line("#!--player p").unwrap();
    assert_eq!(m.config.wpm, 40);
    assert_eq!(m.config.dit_duration, 30);
}

#[test]
fn farnsworth_override_still_recalls_a_preset() {
    // only frequency, volume and speed overrides select the store branch
    let mut m = engine(25);
    m.handle_line("#!--wpm 18 --player fast").unwrap();
    m.handle_line("#!--wpm 25").unwrap();
    m.handle_line("#!--farnsworth_timing 2 --player fast").unwrap();
    // the recalled preset's Farnsworth multiplier wins over the override
    assert_eq!(m.config.wpm, 18);
    assert_eq!(m.config.farnsworth_milli, 1_000);
}

#[test]
fn duplicated_player_key_fails() {
    let mut m = engine(25);
    let r = m.handle_line("#!--player a --player b");
    assert_eq!(
        r,
        Err(MorseError::DuplicateDirectiveField { field: ConfigField::Player })
    );
}

#[test]
fn verbose_directive_echo_lists_fields_in_order() {
    let a = Args {
        wpm: 25,
        frequency_milli: 600_000,
        volume_milli: 200,
        power_milli: 2_500,
        farnsworth_milli: 1_000,
        dump: None,
        verbose: true,
    };
    let mut m = Morse::new(&a);
    let r = m.handle_line("#!--wpm 18 --frequency 500.5 --player fast").unwrap();
    match r {
        LineOutcome::Reconfigured { echo } => {
            assert_eq!(echo.unwrap(), "#! --player fast --frequency 500.5 --wpm 18");
        }
        _ => panic!("expected a reconfiguration"),
    }
}

#[test]
fn quiet_directive_has_no_echo() {
    let mut m = engine(25);
    let r = m.handle_line("#!--wpm 18").unwrap();
    match r {
        LineOutcome::Reconfigured { echo } => assert_eq!(echo, None),
        _ => panic!("expected a reconfiguration"),
    }
}

#[test]
fn parse_directive_reads_all_fields() {
    let d = morse_rs::directive::parse_directive("--wpm 12 --volume 0.25 --player slow").unwrap();
    assert_eq!(d.wpm, Some(12));
    assert_eq!(d.volume, Some(250));
    assert_eq!(d.frequency, None);
    assert_eq!(d.farnsworth_timing, None);
    assert_eq!(d.player.as_deref(), Some("slow"));
}
