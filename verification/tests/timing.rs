//! The timing sequencer: tone/gap event streams for message lines.

use morse_rs::args::{Args, DumpType};
use morse_rs::morse::{LineOutcome, Morse};
use morse_rs::sequencer::Event;
use morse_rs::translation_table::set_translation_table;

fn engine_at(wpm: u8, dump: Option<DumpType>) -> Morse {
    let a = Args {
        wpm,
        frequency_milli: 600_000,
        volume_milli: 200,
        power_milli: 2_500,
        farnsworth_milli: 1_000,
        dump,
        verbose: false,
    };
    Morse::new(&a)
}

fn played(m: &mut Morse, line: &str) -> (Option<u64>, bool, Vec<Event>, bool) {
    match m.handle_line(line).unwrap() {
        LineOutcome::Played { leading_gap, echo_line, events, echo_newline } => {
            (leading_gap, echo_line, events, echo_newline)
        }
        _ => panic!("expected a played message line"),
    }
}

#[test]
fn sos_at_twenty_wpm() {
    // dit = 60 ms, Farnsworth multiplier 1.0
    let mut m = engine_at(20, None);
    let (gap, echo_line, events, echo_newline) = played(&mut m, "SOS");
    assert_eq!(gap, None);
    assert!(!echo_line);
    assert!(!echo_newline);
    let s = [
        Event::Tone(60),
        Event::Idle(60),
        Event::Tone(60),
        Event::Idle(60),
        Event::Tone(60),
        Event::Idle(60),
    ];
    let o = [
        Event::Tone(180),
        Event::Idle(60),
        Event::Tone(180),
        Event::Idle(60),
        Event::Tone(180),
        Event::Idle(60),
    ];
    let mut expected: Vec<Event> = Vec::new();
    expected.extend_from_slice(&s);
    expected.push(Event::Idle(180));
    expected.extend_from_slice(&o);
    expected.push(Event::Idle(180));
    expected.extend_from_slice(&s);
    assert_eq!(events, expected);
}

#[test]
fn grouping_suppresses_the_inter_character_gap() {
    // `<` (symbol "<"), `A` (symbol ".-"), `>` (symbol ">")
    let mut m = engine_at(20, None);
    let (_, _, events, _) = played(&mut m, "<A>");
    assert_eq!(
        events,
        vec![Event::Tone(60), Event::Idle(60), Event::Tone(180), Event::Idle(60)]
    );
}

#[test]
fn gapping_is_restored_after_the_closing_bracket() {
    let mut m = engine_at(20, None);
    let (_, _, events, _) = played(&mut m, "<A>E");
    assert_eq!(
        events,
        vec![
            Event::Tone(60),
            Event::Idle(60),
            Event::Tone(180),
            Event::Idle(60),
            Event::Idle(180),
            Event::Tone(60),
            Event::Idle(60),
        ]
    );
}

#[test]
fn word_gap_precedes_every_line_but_the_first() {
    let mut m = engine_at(20, None);
    let (gap1, _, _, _) = played(&mut m, "E");
    assert_eq!(gap1, None);
    let (gap2, _, _, _) = played(&mut m, "E");
    assert_eq!(gap2, Some(420));
}

#[test]
fn ignored_lines_do_not_consume_the_first_line_grace() {
    let mut m = engine_at(20, None);
    assert!(matches!(m.handle_line("").unwrap(), LineOutcome::Ignored));
    assert!(matches!(m.handle_line("   ").unwrap(), LineOutcome::Ignored));
    assert!(matches!(m.handle_line("# only a comment").unwrap(), LineOutcome::Ignored));
    let (gap, _, _, _) = played(&mut m, "E");
    assert_eq!(gap, None);
}

#[test]
fn farnsworth_stretches_only_the_gaps() {
    let mut m = engine_at(20, None);
    m.handle_line("#!--farnsworth_timing 2").unwrap();
    let (_, _, events, _) = played(&mut m, "EE");
    assert_eq!(
        events,
        vec![Event::Tone(60), Event::Idle(60), Event::Idle(360), Event::Tone(60), Event::Idle(60)]
    );
    let (gap, _, _, _) = played(&mut m, "E");
    assert_eq!(gap, Some(840));
}

#[test]
fn fractional_farnsworth_truncates_to_whole_milliseconds() {
    let mut m = engine_at(25, None);
    // dit = 48 ms, multiplier 1.5: 3 * 48 * 1.5 = 216
    m.handle_line("#!--farnsworth_timing 1.5").unwrap();
    let (_, _, events, _) = played(&mut m, "EE");
    assert_eq!(events[2], Event::Idle(216));
}

#[test]
fn comments_are_stripped_and_text_trimmed() {
    let mut m = engine_at(20, None);
    let (_, _, events, _) = played(&mut m, "  E # trailing words");
    assert_eq!(events, vec![Event::Tone(60), Event::Idle(60)]);
}

#[test]
fn untranslatable_characters_are_skipped_transparently() {
    let mut m = engine_at(20, None);
    let (_, _, events, _) = played(&mut m, "E~E");
    // exactly one inter-character gap: the skipped character neither
    // plays nor doubles the gap
    assert_eq!(
        events,
        vec![Event::Tone(60), Event::Idle(60), Event::Idle(180), Event::Tone(60), Event::Idle(60)]
    );
    let (gap, _, events, _) = played(&mut m, "~E");
    // the skipped leading character triggers no inter-character gap
    assert_eq!(gap, Some(420));
    assert_eq!(events, vec![Event::Tone(60), Event::Idle(60)]);
}

#[test]
fn space_inside_a_symbol_is_a_word_gap() {
    // the voiced kana `が` carries the composite symbol ".-.. .."
    let mut m = engine_at(20, None);
    let (_, _, events, _) = played(&mut m, "が");
    assert_eq!(
        events,
        vec![
            Event::Tone(60),
            Event::Idle(60),
            Event::Tone(180),
            Event::Idle(60),
            Event::Tone(60),
            Event::Idle(60),
            Event::Tone(60),
            Event::Idle(60),
            Event::Idle(420),
            Event::Tone(60),
            Event::Idle(60),
            Event::Tone(60),
            Event::Idle(60),
        ]
    );
}

#[test]
fn space_between_words_uses_the_word_gap() {
    let mut m = engine_at(20, None);
    let (_, _, events, _) = played(&mut m, "E E");
    assert_eq!(
        events,
        vec![
            Event::Tone(60),
            Event::Idle(60),
            Event::Idle(180),
            Event::Idle(420),
            Event::Idle(180),
            Event::Tone(60),
            Event::Idle(60),
        ]
    );
}

#[test]
fn dump_char_echoes_each_character_before_its_tones() {
    let mut m = engine_at(20, Some(DumpType::Char));
    let (_, echo_line, events, echo_newline) = played(&mut m, "ET");
    assert!(!echo_line);
    assert!(echo_newline);
    assert_eq!(
        events,
        vec![
            Event::Echo('E'),
            Event::Tone(60),
            Event::Idle(60),
            Event::Idle(180),
            Event::Echo('T'),
            Event::Tone(180),
            Event::Idle(60),
        ]
    );
}

#[test]
fn dump_line_echoes_the_whole_line_first() {
    let mut m = engine_at(20, Some(DumpType::Line));
    let (_, echo_line, events, echo_newline) = played(&mut m, "E");
    assert!(echo_line);
    assert!(!echo_newline);
    assert_eq!(events, vec![Event::Tone(60), Event::Idle(60)]);
}

#[test]
fn speed_change_takes_effect_on_later_lines() {
    let mut m = engine_at(20, None);
    m.handle_line("#!--wpm 60").unwrap();
    let (_, _, events, _) = played(&mut m, "E");
    assert_eq!(events, vec![Event::Tone(20), Event::Idle(20)]);
}

#[test]
fn translation_table_lookups() {
    let t = set_translation_table();
    assert_eq!(t.lookup('C'), Some("-.-."));
    assert_eq!(t.lookup('c'), Some("-.-."));
    assert_eq!(t.lookup('0'), Some("-----"));
    assert_eq!(t.lookup(' '), Some(" "));
    assert_eq!(t.lookup('<'), Some("<"));
    assert_eq!(t.lookup('イ'), Some(".-"));
    assert_eq!(t.lookup('~'), None);
}

#[test]
fn whole_runs_stop_at_the_first_error() {
    let mut m = engine_at(20, None);
    let lines = vec!["SOS".to_string(), "#!--bogus 1".to_string(), "SOS".to_string()];
    let (outcomes, err) = m.play(&lines);
    assert_eq!(outcomes.len(), 1);
    assert!(err.is_some());

    let mut m = engine_at(20, None);
    let lines = vec!["E".to_string(), "#!--wpm 60".to_string(), "E".to_string()];
    let (outcomes, err) = m.play(&lines);
    assert!(err.is_none());
    assert_eq!(outcomes.len(), 3);
    match &outcomes[2] {
        LineOutcome::Played { leading_gap, events, .. } => {
            // the word gap uses the configuration active when the line plays
            assert_eq!(*leading_gap, Some(140));
            assert_eq!(*events, vec![Event::Tone(20), Event::Idle(20)]);
        }
        _ => panic!("expected a played line"),
    }
}
