//! The timing sequencer: walks the characters of a message line,
//! looks up their symbol strings, and produces the exact ordered
//! tone/idle/echo events the audio layer must perform.
//!
//! Durations are in milliseconds.  A dit-long tone and each gap derive
//! from the configured dit duration; inter-character and inter-word
//! gaps are additionally stretched by the Farnsworth multiplier
//! (carried in thousandths, with the product truncated to whole
//! milliseconds).  Between `<` and `>` symbols the inter-character gap
//! is suppressed.

use vstd::prelude::*;

use crate::translation_table::{spec_symbol, TranslationTable};

verus! {

/// Highest dit duration the sequencer accepts; every speed of at
/// least one word per minute derives a dit below it.
pub const DIT_MS_BOUND: u32 = 60_000;

/// One step the audio layer performs, in order: tone on for the given
/// milliseconds, silence for the given milliseconds, or a character
/// echoed to the side channel.
#[derive(Clone, Copy, Debug, PartialEq, Eq, Structural)]
pub enum Event {
    Tone(u64),
    Idle(u64),
    Echo(char),
}

/// Milliseconds of one dit-long unit.
pub open spec fn spec_intra_ms(dit: u32) -> u64 {
    dit as u64
}

/// Milliseconds of one dash: three dits.
pub open spec fn spec_dash_ms(dit: u32) -> u64 {
    (3 * dit as int) as u64
}

/// Milliseconds of the inter-character gap: three dits stretched by
/// the Farnsworth multiplier.
pub open spec fn spec_letter_gap_ms(dit: u32, farnsworth_milli: u32) -> u64
    recommends
        dit <= DIT_MS_BOUND,
{
    (3 * dit as int * farnsworth_milli as int / 1000) as u64
}

/// Milliseconds of the inter-word gap: seven dits stretched by the
/// Farnsworth multiplier.
pub open spec fn spec_word_gap_ms(dit: u32, farnsworth_milli: u32) -> u64
    recommends
        dit <= DIT_MS_BOUND,
{
    (7 * dit as int * farnsworth_milli as int / 1000) as u64
}

/// Duration of the tone of one dot element.
pub fn intra_space(dit: u32) -> (ms: u64)
    ensures
        ms == spec_intra_ms(dit),
{
    dit as u64
}

/// Duration of the tone of one dash element.
pub fn dash_space(dit: u32) -> (ms: u64)
    ensures
        ms == spec_dash_ms(dit),
{
    3 * dit as u64
}

/// Duration of the gap between characters.
pub fn litter_space(dit: u32, farnsworth_milli: u32) -> (ms: u64)
    requires
        dit <= DIT_MS_BOUND,
    ensures
        ms == spec_letter_gap_ms(dit, farnsworth_milli),
{
    proof {
        assert((3 * dit as int) * (farnsworth_milli as int) <= 180_000 * 0xFFFF_FFFF)
            by (nonlinear_arith)
            requires
                dit <= 60_000,
        ;
    }
    3 * dit as u64 * farnsworth_milli as u64 / 1000
}

/// Duration of the gap between words.
pub fn word_space(dit: u32, farnsworth_milli: u32) -> (ms: u64)
    requires
        dit <= DIT_MS_BOUND,
    ensures
        ms == spec_word_gap_ms(dit, farnsworth_milli),
{
    proof {
        assert((7 * dit as int) * (farnsworth_milli as int) <= 420_000 * 0xFFFF_FFFF)
            by (nonlinear_arith)
            requires
                dit <= 60_000,
        ;
    }
    7 * dit as u64 * farnsworth_milli as u64 / 1000
}

/// The events of one symbol-string character, and the grouping state
/// after it: a dot holds the tone one dit and idles one, a dash holds
/// it three dits and idles one, a space inside a symbol is a word gap,
/// `<` opens and `>` closes a gap-free group, anything else is
/// ignored.
pub open spec fn spec_element_events(c: char, grouped: bool, dit: u32, farnsworth_milli: u32) -> (
    Seq<Event>,
    bool,
) {
    if c == '.' {
        (seq![Event::Tone(spec_intra_ms(dit)), Event::Idle(spec_intra_ms(dit))], grouped)
    } else if c == '-' {
        (seq![Event::Tone(spec_dash_ms(dit)), Event::Idle(spec_intra_ms(dit))], grouped)
    } else if c == ' ' {
        (seq![Event::Idle(spec_word_gap_ms(dit, farnsworth_milli))], grouped)
    } else if c == '<' {
        (Seq::empty(), true)
    } else if c == '>' {
        (Seq::empty(), false)
    } else {
        (Seq::empty(), grouped)
    }
}

/// The events of a whole symbol string, threading the grouping state
/// through its characters.
pub open spec fn spec_symbol_events(
    sym: Seq<char>,
    grouped: bool,
    dit: u32,
    farnsworth_milli: u32,
) -> (Seq<Event>, bool)
    decreases sym.len(),
{
    if sym.len() == 0 {
        (Seq::empty(), grouped)
    } else {
        let head = spec_element_events(sym[0], grouped, dit, farnsworth_milli);
        let tail = spec_symbol_events(sym.skip(1), head.1, dit, farnsworth_milli);
        (head.0 + tail.0, tail.1)
    }
}

/// The events of a message line from its remaining characters.
///
/// `any` records whether an earlier character of the line was found in
/// the translation table: only then does a translatable character get
/// a leading inter-character gap, and only outside a group.  An
/// untranslatable character is skipped transparently: it produces
/// nothing and leaves the gap anchor unchanged.  With `dump_char` each
/// translatable character is echoed after its gap and before its
/// tones.
pub open spec fn spec_line_events(
    text: Seq<char>,
    dump_char: bool,
    any: bool,
    grouped: bool,
    dit: u32,
    farnsworth_milli: u32,
) -> Seq<Event>
    decreases text.len(),
{
    if text.len() == 0 {
        Seq::empty()
    } else {
        match spec_symbol(text[0]) {
            None => spec_line_events(text.skip(1), dump_char, any, grouped, dit, farnsworth_milli),
            Some(sym) => {
                let gap: Seq<Event> = if any && !grouped {
                    seq![Event::Idle(spec_letter_gap_ms(dit, farnsworth_milli))]
                } else {
                    Seq::empty()
                };
                let echo: Seq<Event> = if dump_char {
                    seq![Event::Echo(text[0])]
                } else {
                    Seq::empty()
                };
                let played = spec_symbol_events(sym, grouped, dit, farnsworth_milli);
                gap + echo + played.0 + spec_line_events(
                    text.skip(1),
                    dump_char,
                    true,
                    played.1,
                    dit,
                    farnsworth_milli,
                )
            },
        }
    }
}

/// Produces the events of one message line, in playing order.
pub fn line_events(
    table: &TranslationTable,
    text: &str,
    dump_char: bool,
    dit: u32,
    farnsworth_milli: u32,
) -> (events: Vec<Event>)
    requires
        dit <= DIT_MS_BOUND,
    ensures
        events@ == spec_line_events(text@, dump_char, false, false, dit, farnsworth_milli),
{
    let ghost goal = spec_line_events(text@, dump_char, false, false, dit, farnsworth_milli);
    let n: usize = text.unicode_len();
    let mut events: Vec<Event> = Vec::new();
    let mut any = false;
    let mut grouped = false;
    let mut i: usize = 0;
    proof {
        assert(text@.skip(0) =~= text@);
        assert(events@ + goal =~= goal);
    }
    while i < n
        invariant
            0 <= i <= n == text@.len(),
            dit <= DIT_MS_BOUND,
            goal == spec_line_events(text@, dump_char, false, false, dit, farnsworth_milli),
            goal =~= events@ + spec_line_events(
                text@.skip(i as int),
                dump_char,
                any,
                grouped,
                dit,
                farnsworth_milli,
            ),
        decreases n - i,
    {
        let ghost rest = text@.skip(i as int);
        proof {
            assert(rest[0] == text@[i as int]);
            assert(rest.skip(1) =~= text@.skip(i as int + 1));
        }
        let c = text.get_char(i);
        match table.lookup(c) {
            None => {},
            Some(sym) => {
                let ghost events0 = events@;
                let ghost g0 = grouped;
                if any && !grouped {
                    events.push(Event::Idle(litter_space(dit, farnsworth_milli)));
                }
                if dump_char {
                    events.push(Event::Echo(c));
                }
                let ghost base = events@;
                let m: usize = sym.unicode_len();
                let mut j: usize = 0;
                proof {
                    assert(sym@.skip(0) =~= sym@);
                    assert(events@.skip(base.len() as int) =~= Seq::<Event>::empty());
                    assert(Seq::<Event>::empty() + spec_symbol_events(
                        sym@,
                        g0,
                        dit,
                        farnsworth_milli,
                    ).0 =~= spec_symbol_events(sym@, g0, dit, farnsworth_milli).0);
                    assert(events@.take(base.len() as int) =~= base);
                }
                while j < m
                    invariant
                        0 <= j <= m == sym@.len(),
                        dit <= DIT_MS_BOUND,
                        spec_symbol_events(sym@, g0, dit, farnsworth_milli).0 =~= events@.skip(
                            base.len() as int,
                        ) + spec_symbol_events(sym@.skip(j as int), grouped, dit, farnsworth_milli).0,
                        spec_symbol_events(sym@, g0, dit, farnsworth_milli).1
                            == spec_symbol_events(sym@.skip(j as int), grouped, dit, farnsworth_milli).1,
                        events@.len() >= base.len(),
                        events@.take(base.len() as int) =~= base,
                    decreases m - j,
                {
                    let ghost srest = sym@.skip(j as int);
                    proof {
                        assert(srest[0] == sym@[j as int]);
                        assert(srest.skip(1) =~= sym@.skip(j as int + 1));
                    }
                    let sc = sym.get_char(j);
                    let ghost evts_before = events@;
                    let ghost g_before = grouped;
                    if sc == '.' {
                        events.push(Event::Tone(intra_space(dit)));
                        events.push(Event::Idle(intra_space(dit)));
                    } else if sc == '-' {
                        events.push(Event::Tone(dash_space(dit)));
                        events.push(Event::Idle(intra_space(dit)));
                    } else if sc == ' ' {
                        events.push(Event::Idle(word_space(dit, farnsworth_milli)));
                    } else if sc == '<' {
                        grouped = true;
                    } else if sc == '>' {
                        grouped = false;
                    }
                    proof {
                        let elem = spec_element_events(srest[0], g_before, dit, farnsworth_milli);
                        assert(events@ =~= evts_before + elem.0);
                        assert(grouped == elem.1);
                        assert(events@.skip(base.len() as int) =~= evts_before.skip(
                            base.len() as int,
                        ) + elem.0);
                        assert(events@.take(base.len() as int) =~= base);
                        let tail = spec_symbol_events(
                            sym@.skip(j as int + 1),
                            grouped,
                            dit,
                            farnsworth_milli,
                        );
                        assert(spec_symbol_events(srest, g_before, dit, farnsworth_milli).0 == elem.0
                            + tail.0);
                        assert(spec_symbol_events(srest, g_before, dit, farnsworth_milli).1
                            == tail.1);
                        assert(spec_symbol_events(sym@, g0, dit, farnsworth_milli).0
                            =~= events@.skip(base.len() as int) + tail.0);
                    }
                    j = j + 1;
                }
                proof {
                    assert(sym@.skip(m as int).len() == 0);
                    let played = spec_symbol_events(sym@, g0, dit, farnsworth_milli);
                    assert(played.0 =~= events@.skip(base.len() as int));
                    assert(played.1 == grouped);
                    assert(events@ =~= base + played.0);
                    assert(events@ =~= events0 + (if any && !g0 {
                        seq![Event::Idle(spec_letter_gap_ms(dit, farnsworth_milli))]
                    } else {
                        Seq::<Event>::empty()
                    }) + (if dump_char {
                        seq![Event::Echo(text@[i as int])]
                    } else {
                        Seq::<Event>::empty()
                    }) + played.0);
                }
                any = true;
            },
        }
        i = i + 1;
        proof {
            assert(goal =~= events@ + spec_line_events(
                text@.skip(i as int),
                dump_char,
                any,
                grouped,
                dit,
                farnsworth_milli,
            ));
        }
    }
    proof {
        assert(text@.skip(n as int).len() == 0);
        assert(goal =~= events@);
    }
    events
}

} // verus!
