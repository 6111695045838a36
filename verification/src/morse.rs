//! The playback engine: the active configuration, the per-line state
//! machine that classifies input lines, applies directives atomically,
//! keeps the preset registry, and sequences message lines into timed
//! events.

use vstd::prelude::*;

use crate::args::{
    spec_in_range, spec_range_error, Args, DumpType, FREQUENCY_MAX_MILLI, FREQUENCY_MIN_MILLI,
    VOLUME_MAX_MILLI, VOLUME_MIN_MILLI, WPM_MAX, WPM_MIN,
};
use crate::directive::{parse_directive, spec_parse_directive, Delta, DeltaSpec};
use crate::errors::{ErrSpec, MorseError};
use crate::numeric::{format_milli, spec_dec, spec_format_milli, u32_to_string};
use crate::players::{Players, Preset};
use crate::sequencer::{
    line_events, spec_line_events, spec_word_gap_ms, word_space, Event, DIT_MS_BOUND,
};
use crate::text::{find_char, spec_find, spec_trim, trim};
use crate::translation_table::{set_translation_table, TranslationTable};

verus! {

/// Milliseconds of one dit (the base Morse time unit) at `wpm`
/// words per minute, by the 50-dit PARIS convention.
pub open spec fn spec_calc_dit(wpm: u8) -> u32
    recommends
        1 <= wpm,
{
    (60000int / (50 * wpm as int)) as u32
}

/// Derives the dit duration in milliseconds from a words-per-minute
/// speed: `60000 / (50 * wpm)`, by integer division.
pub fn calc_dit(wpm: u8) -> (dit: u32)
    requires
        1 <= wpm,
    ensures
        dit == spec_calc_dit(wpm),
        dit as int == 60000int / (50 * wpm as int),
{
    60 * 1000 / (50 * wpm as u32)
}

/// At every allowed speed the dit duration lies between 20 ms (60
/// words per minute) and 400 ms (3 words per minute).
pub proof fn lemma_dit_range(wpm: u8)
    requires
        WPM_MIN <= wpm <= WPM_MAX,
    ensures
        20 <= spec_calc_dit(wpm) <= 400,
{
    let d = 50 * wpm as int;
    assert(150 <= d <= 3000);
    assert(60000int / d >= 20) by (nonlinear_arith)
        requires
            150 <= d <= 3000,
    ;
    assert(60000int / d <= 400) by (nonlinear_arith)
        requires
            150 <= d <= 3000,
    ;
}

/// The active configuration: the validated parameters together with
/// the derived dit duration.
#[derive(Clone, Copy, Debug, PartialEq, Eq, Structural)]
pub struct Config {
    /// Speed in words per minute.
    pub wpm: u8,
    /// Tone pitch in thousandths of a hertz.
    pub frequency_milli: u32,
    /// Linear amplitude in thousandths.
    pub volume_milli: u32,
    /// Loudness-curve exponent in thousandths; fixed for the run.
    pub power_milli: u32,
    /// Gap multiplier in thousandths.
    pub farnsworth_milli: u32,
    /// Derived dit duration in milliseconds.
    pub dit_duration: u32,
}

/// A configuration is well formed when its parameters lie in their
/// ranges and the dit duration is derived from the speed.
pub open spec fn spec_config_wf(c: Config) -> bool {
    &&& spec_in_range(c.wpm, c.frequency_milli, c.volume_milli, c.power_milli)
    &&& c.dit_duration == spec_calc_dit(c.wpm)
}

/// A stored preset is well formed under the same ranges; the
/// loudness-curve exponent is not part of a preset.
pub open spec fn spec_preset_wf(p: Preset) -> bool {
    &&& WPM_MIN <= p.wpm <= WPM_MAX
    &&& FREQUENCY_MIN_MILLI <= p.frequency_milli <= FREQUENCY_MAX_MILLI
    &&& VOLUME_MIN_MILLI <= p.volume_milli <= VOLUME_MAX_MILLI
    &&& p.dit_duration == spec_calc_dit(p.wpm)
}

/// The snapshot a store puts in the registry.
pub open spec fn spec_preset_of(c: Config) -> Preset {
    Preset {
        frequency_milli: c.frequency_milli,
        volume_milli: c.volume_milli,
        wpm: c.wpm,
        farnsworth_milli: c.farnsworth_milli,
        dit_duration: c.dit_duration,
    }
}

/// Takes the snapshot a store puts in the registry.
pub fn preset_of(c: &Config) -> (p: Preset)
    ensures
        p == spec_preset_of(*c),
{
    Preset {
        frequency_milli: c.frequency_milli,
        volume_milli: c.volume_milli,
        wpm: c.wpm,
        farnsworth_milli: c.farnsworth_milli,
        dit_duration: c.dit_duration,
    }
}

/// The configuration a recall adopts: the preset verbatim, with the
/// run's fixed loudness-curve exponent carried over.
pub open spec fn spec_config_of_preset(p: Preset, power_milli: u32) -> Config {
    Config {
        wpm: p.wpm,
        frequency_milli: p.frequency_milli,
        volume_milli: p.volume_milli,
        power_milli,
        farnsworth_milli: p.farnsworth_milli,
        dit_duration: p.dit_duration,
    }
}

/// The startup parameters a configuration's fields denote, for the
/// shared range check.
pub open spec fn spec_args_of(c: Config) -> Args {
    Args {
        wpm: c.wpm,
        frequency_milli: c.frequency_milli,
        volume_milli: c.volume_milli,
        power_milli: c.power_milli,
        farnsworth_milli: c.farnsworth_milli,
        dump: None,
        verbose: false,
    }
}

/// The candidate configuration a delta produces: present fields
/// overlaid on the active configuration, the exponent kept, and the
/// dit duration recomputed from the (possibly updated) speed.
pub open spec fn spec_merge(c: Config, d: DeltaSpec) -> Config {
    let wpm = if d.wpm is Some {
        d.wpm.unwrap()
    } else {
        c.wpm
    };
    Config {
        wpm,
        frequency_milli: if d.frequency is Some {
            d.frequency.unwrap()
        } else {
            c.frequency_milli
        },
        volume_milli: if d.volume is Some {
            d.volume.unwrap()
        } else {
            c.volume_milli
        },
        power_milli: c.power_milli,
        farnsworth_milli: if d.farnsworth_timing is Some {
            d.farnsworth_timing.unwrap()
        } else {
            c.farnsworth_milli
        },
        dit_duration: spec_calc_dit(wpm),
    }
}

/// The range violation the candidate configuration would commit, if
/// any, in the order speed, frequency, volume, power.
pub open spec fn spec_merge_error(c: Config, d: DeltaSpec) -> Option<ErrSpec> {
    spec_range_error(spec_args_of(spec_merge(c, d)))
}

/// The engine's state: active configuration, preset registry, and the
/// per-run cursor and echo settings.
pub struct EngineState {
    pub config: Config,
    pub players: Map<Seq<char>, Preset>,
    pub is_first_line: bool,
    pub dump: Option<DumpType>,
    pub verbose: bool,
}

/// A well-formed state has a well-formed configuration and only
/// well-formed presets in its registry.
pub open spec fn spec_state_wf(st: EngineState) -> bool {
    &&& spec_config_wf(st.config)
    &&& forall|k: Seq<char>| #[trigger]
        st.players.dom().contains(k) ==> spec_preset_wf(st.players[k])
}

/// The outcome of one successfully handled directive: the new
/// configuration and registry.
pub open spec fn spec_apply_delta(c: Config, players: Map<Seq<char>, Preset>, d: DeltaSpec) -> Result<
    (Config, Map<Seq<char>, Preset>),
    ErrSpec,
> {
    let merged = spec_merge(c, d);
    if spec_merge_error(c, d) is Some {
        Err(spec_merge_error(c, d).unwrap())
    } else {
        match d.player {
            None => Ok((merged, players)),
            Some(name) => {
                if d.frequency is None && d.volume is None && d.wpm is None {
                    if players.contains_key(name) {
                        Ok((spec_config_of_preset(players[name], c.power_milli), players))
                    } else {
                        Err(ErrSpec::UndefinedPlayer { name })
                    }
                } else {
                    Ok((merged, players.insert(name, spec_preset_of(merged))))
                }
            },
        }
    }
}

/// The echo of an accepted directive's fields, in the order player,
/// frequency, volume, speed, Farnsworth multiplier.
pub open spec fn spec_echo(d: DeltaSpec) -> Seq<char> {
    "#!"@ + (match d.player {
        Some(p) => " --player "@ + p,
        None => Seq::empty(),
    }) + (match d.frequency {
        Some(v) => " --frequency "@ + spec_format_milli(v),
        None => Seq::empty(),
    }) + (match d.volume {
        Some(v) => " --volume "@ + spec_format_milli(v),
        None => Seq::empty(),
    }) + (match d.wpm {
        Some(v) => " --wpm "@ + spec_dec(v as int),
        None => Seq::empty(),
    }) + (match d.farnsworth_timing {
        Some(v) => " --farnsworth_timing "@ + spec_format_milli(v),
        None => Seq::empty(),
    })
}

/// Writes the echo of an accepted directive's fields.
#[verifier::rlimit(50)]
pub fn build_echo(d: &Delta) -> (r: String)
    ensures
        r@ == spec_echo(d@),
{
    let ghost p1 = "#!"@ + (match d@.player {
        Some(p) => " --player "@ + p,
        None => Seq::<char>::empty(),
    });
    let ghost p2 = p1 + (match d@.frequency {
        Some(v) => " --frequency "@ + spec_format_milli(v),
        None => Seq::<char>::empty(),
    });
    let ghost p3 = p2 + (match d@.volume {
        Some(v) => " --volume "@ + spec_format_milli(v),
        None => Seq::<char>::empty(),
    });
    let ghost p4 = p3 + (match d@.wpm {
        Some(v) => " --wpm "@ + spec_dec(v as int),
        None => Seq::<char>::empty(),
    });
    let ghost p5 = p4 + (match d@.farnsworth_timing {
        Some(v) => " --farnsworth_timing "@ + spec_format_milli(v),
        None => Seq::<char>::empty(),
    });
    let mut r = String::from_str("#!");
    match d.player {
        Some(ref p) => {
            r.append(" --player ");
            r.append(p.as_str());
        },
        None => {},
    }
    proof {
        assert(r@ =~= p1);
    }
    match d.frequency {
        Some(v) => {
            r.append(" --frequency ");
            let num = format_milli(v);
            r.append(num.as_str());
        },
        None => {},
    }
    proof {
        assert(r@ =~= p2);
    }
    match d.volume {
        Some(v) => {
            r.append(" --volume ");
            let num = format_milli(v);
            r.append(num.as_str());
        },
        None => {},
    }
    proof {
        assert(r@ =~= p3);
    }
    match d.wpm {
        Some(v) => {
            r.append(" --wpm ");
            let num = u32_to_string(v as u32);
            r.append(num.as_str());
        },
        None => {},
    }
    proof {
        assert(r@ =~= p4);
    }
    match d.farnsworth_timing {
        Some(v) => {
            r.append(" --farnsworth_timing ");
            let num = format_milli(v);
            r.append(num.as_str());
        },
        None => {},
    }
    proof {
        assert(r@ =~= p5);
        assert(p5 =~= spec_echo(d@));
    }
    r
}

/// A line beginning with the two-character marker `#!`.
pub open spec fn spec_is_directive_line(s: Seq<char>) -> bool {
    s.len() >= 2 && s[0] == '#' && s[1] == '!'
}

/// The body of a directive line: what stands between the marker's `!`
/// and the next `!` or the end of the line.
pub open spec fn spec_directive_body(s: Seq<char>) -> Seq<char> {
    let rest = s.skip(2);
    rest.take(spec_find(rest, '!'))
}

/// The playable text of a message line: everything before the first
/// `#` begins a trailing comment, and surrounding whitespace is
/// dropped.
pub open spec fn spec_message_text(s: Seq<char>) -> Seq<char> {
    spec_trim(s.take(spec_find(s, '#')))
}

/// What the caller must perform for one handled line: nothing, a
/// played message, or a reconfiguration that calls for a freshly
/// parameterized audio stream.
#[derive(Debug, PartialEq, Eq)]
pub enum LineOutcome {
    /// An empty directive or an empty message line: no effect.
    Ignored,
    /// A message line: the optional inter-word gap that precedes it,
    /// whether the whole line is echoed first, the timed events in
    /// order, and whether a line break closes the echo.
    Played { leading_gap: Option<u64>, echo_line: bool, events: Vec<Event>, echo_newline: bool },
    /// An accepted directive: the audio stream must be rebuilt from
    /// the engine's configuration; with verbose echo, the line to
    /// print.
    Reconfigured { echo: Option<String> },
}

/// Spec-level image of a [`LineOutcome`].
pub enum OutcomeSpec {
    Ignored,
    Played { leading_gap: Option<u64>, echo_line: bool, events: Seq<Event>, echo_newline: bool },
    Reconfigured { echo: Option<Seq<char>> },
}

impl View for LineOutcome {
    type V = OutcomeSpec;

    open spec fn view(&self) -> OutcomeSpec {
        match self {
            LineOutcome::Ignored => OutcomeSpec::Ignored,
            LineOutcome::Played { leading_gap, echo_line, events, echo_newline } => OutcomeSpec::Played {
                leading_gap: *leading_gap,
                echo_line: *echo_line,
                events: events@,
                echo_newline: *echo_newline,
            },
            LineOutcome::Reconfigured { echo } => OutcomeSpec::Reconfigured {
                echo: match echo {
                    Some(s) => Some(s@),
                    None => None,
                },
            },
        }
    }
}

/// The engine's step relation: the state after one input line, and
/// what the line produces.  A failed line leaves the state unchanged.
pub open spec fn spec_step(st: EngineState, line: Seq<char>) -> (
    EngineState,
    Result<OutcomeSpec, ErrSpec>,
) {
    if spec_is_directive_line(line) {
        let body = spec_directive_body(line);
        if body.len() == 0 {
            (st, Ok(OutcomeSpec::Ignored))
        } else {
            match spec_parse_directive(body) {
                Err(e) => (st, Err(e)),
                Ok(d) => match spec_apply_delta(st.config, st.players, d) {
                    Err(e) => (st, Err(e)),
                    Ok((c2, ps2)) => (
                        EngineState {
                            config: c2,
                            players: ps2,
                            is_first_line: st.is_first_line,
                            dump: st.dump,
                            verbose: st.verbose,
                        },
                        Ok(
                            OutcomeSpec::Reconfigured {
                                echo: if st.verbose {
                                    Some(spec_echo(d))
                                } else {
                                    None
                                },
                            },
                        ),
                    ),
                },
            }
        }
    } else {
        let text = spec_message_text(line);
        if text.len() == 0 {
            (st, Ok(OutcomeSpec::Ignored))
        } else {
            let dump_char = st.dump == Some(DumpType::Char);
            (
                EngineState {
                    config: st.config,
                    players: st.players,
                    is_first_line: false,
                    dump: st.dump,
                    verbose: st.verbose,
                },
                Ok(
                    OutcomeSpec::Played {
                        leading_gap: if st.is_first_line {
                            None
                        } else {
                            Some(
                                spec_word_gap_ms(
                                    st.config.dit_duration,
                                    st.config.farnsworth_milli,
                                ),
                            )
                        },
                        echo_line: st.dump == Some(DumpType::Line),
                        events: spec_line_events(
                            text,
                            dump_char,
                            false,
                            false,
                            st.config.dit_duration,
                            st.config.farnsworth_milli,
                        ),
                        echo_newline: dump_char,
                    },
                ),
            )
        }
    }
}

/// The playback engine.
pub struct Morse {
    /// The immutable character → symbol mapping.
    pub table: TranslationTable,
    /// Side-channel echo granularity, if any.
    pub dump: Option<DumpType>,
    /// Echo each accepted directive's fields.
    pub verbose: bool,
    /// The active configuration.
    pub config: Config,
    /// The registry of named presets.
    pub players: Players,
    /// No line has been played yet: the leading inter-word gap is
    /// suppressed.
    pub is_first_line: bool,
}

impl View for Morse {
    type V = EngineState;

    open spec fn view(&self) -> EngineState {
        EngineState {
            config: self.config,
            players: self.players@,
            is_first_line: self.is_first_line,
            dump: self.dump,
            verbose: self.verbose,
        }
    }
}

impl Morse {
    /// The engine's invariant.
    pub open spec fn wf(&self) -> bool {
        spec_state_wf(self@)
    }

    /// Builds an engine from validated startup parameters: the
    /// translation table is constructed, the dit duration derived,
    /// and the registry seeded with the initial configuration under
    /// the name `default`.
    pub fn new(opt: &Args) -> (m: Morse)
        requires
            spec_in_range(opt.wpm, opt.frequency_milli, opt.volume_milli, opt.power_milli),
        ensures
            m.wf(),
            m@.config == (Config {
                wpm: opt.wpm,
                frequency_milli: opt.frequency_milli,
                volume_milli: opt.volume_milli,
                power_milli: opt.power_milli,
                farnsworth_milli: opt.farnsworth_milli,
                dit_duration: spec_calc_dit(opt.wpm),
            }),
            m@.players == Map::<Seq<char>, Preset>::empty().insert(
                "default"@,
                spec_preset_of(m@.config),
            ),
            m@.is_first_line,
            m@.dump == opt.dump,
            m@.verbose == opt.verbose,
    {
        let table = set_translation_table();
        let dit = calc_dit(opt.wpm);
        let config = Config {
            wpm: opt.wpm,
            frequency_milli: opt.frequency_milli,
            volume_milli: opt.volume_milli,
            power_milli: opt.power_milli,
            farnsworth_milli: opt.farnsworth_milli,
            dit_duration: dit,
        };
        let mut players = Players::new();
        players.store(String::from_str("default"), preset_of(&config));
        let m = Morse {
            table,
            dump: opt.dump,
            verbose: opt.verbose,
            config,
            players,
            is_first_line: true,
        };
        proof {
            assert forall|k: Seq<char>| #[trigger] m@.players.dom().contains(k) implies
                spec_preset_wf(m@.players[k]) by {
                assert(k == "default"@);
            }
        }
        m
    }

    /// Validates a delta against the active configuration: overlays
    /// the present fields, applies the startup range checks to the
    /// candidate, and returns it with the dit duration recomputed.
    /// Success is owed exactly when the candidate's speed, frequency,
    /// volume and exponent lie in their ranges; nothing is committed
    /// here.
    pub fn option_check(&self, d: &Delta) -> (r: Result<Config, MorseError>)
        requires
            spec_config_wf(self@.config),
        ensures
            r is Ok <==> spec_merge_error(self@.config, d@) is None,
            r matches Ok(c) ==> c == spec_merge(self@.config, d@),
            r matches Err(e) ==> spec_merge_error(self@.config, d@) == Some(e@),
    {
        let wpm: u8 = match d.wpm {
            Some(w) => w,
            None => self.config.wpm,
        };
        let frequency_milli: u32 = match d.frequency {
            Some(v) => v,
            None => self.config.frequency_milli,
        };
        let volume_milli: u32 = match d.volume {
            Some(v) => v,
            None => self.config.volume_milli,
        };
        let farnsworth_milli: u32 = match d.farnsworth_timing {
            Some(v) => v,
            None => self.config.farnsworth_milli,
        };
        let candidate_args = Args {
            wpm,
            frequency_milli,
            volume_milli,
            power_milli: self.config.power_milli,
            farnsworth_milli,
            dump: None,
            verbose: false,
        };
        match crate::args::check_range(&candidate_args) {
            Ok(()) => {},
            Err(e) => {
                return Err(e);
            },
        }
        let dit = calc_dit(wpm);
        Ok(
            Config {
                wpm,
                frequency_milli,
                volume_milli,
                power_milli: self.config.power_milli,
                farnsworth_milli,
                dit_duration: dit,
            },
        )
    }

    /// Handles one input line: a directive line is parsed, validated
    /// and committed atomically (or recalls or stores a preset); a
    /// message line is stripped of its comment, trimmed and sequenced
    /// into timed events.  The returned outcome is exactly what
    /// [`spec_step`] assigns to the line; on an error the engine is
    /// left unchanged.
    pub fn handle_line(&mut self, line: &str) -> (r: Result<LineOutcome, MorseError>)
        requires
            old(self).wf(),
        ensures
            final(self).wf(),
            final(self)@ == spec_step(old(self)@, line@).0,
            final(self).table == old(self).table,
            r matches Ok(o) ==> spec_step(old(self)@, line@).1 == Ok::<OutcomeSpec, ErrSpec>(o@),
            r matches Err(e) ==> spec_step(old(self)@, line@).1 == Err::<OutcomeSpec, ErrSpec>(e@),
            r is Err ==> *final(self) == *old(self),
    {
        let n: usize = line.unicode_len();
        let is_directive = n >= 2 && line.get_char(0) == '#' && line.get_char(1) == '!';
        if is_directive {
            let rest = line.substring_char(2, n);
            let e = find_char(rest, '!');
            let body = rest.substring_char(0, e);
            proof {
                assert(rest@ =~= line@.skip(2));
                assert(body@ =~= spec_directive_body(line@));
            }
            if body.unicode_len() == 0 {
                return Ok(LineOutcome::Ignored);
            }
            let delta = match parse_directive(body) {
                Ok(d) => d,
                Err(err) => {
                    return Err(err);
                },
            };
            let candidate = match self.option_check(&delta) {
                Ok(c) => c,
                Err(err) => {
                    return Err(err);
                },
            };
            match delta.player {
                None => {
                    self.config = candidate;
                },
                Some(ref name) => {
                    if delta.frequency.is_none() && delta.volume.is_none() && delta.wpm.is_none() {
                        match self.players.recall(name) {
                            Some(p) => {
                                self.config = Config {
                                    wpm: p.wpm,
                                    frequency_milli: p.frequency_milli,
                                    volume_milli: p.volume_milli,
                                    power_milli: self.config.power_milli,
                                    farnsworth_milli: p.farnsworth_milli,
                                    dit_duration: p.dit_duration,
                                };
                            },
                            None => {
                                return Err(MorseError::UndefinedPlayer { name: name.clone() });
                            },
                        }
                    } else {
                        self.config = candidate;
                        self.players.store(name.clone(), preset_of(&candidate));
                        proof {
                            assert forall|k: Seq<char>| #[trigger]
                                self@.players.dom().contains(k) implies spec_preset_wf(
                                self@.players[k],
                            ) by {
                                if k != name@ {
                                    assert(old(self)@.players.dom().contains(k));
                                }
                            }
                        }
                    }
                },
            }
            let echo = if self.verbose {
                Some(build_echo(&delta))
            } else {
                None
            };
            Ok(LineOutcome::Reconfigured { echo })
        } else {
            let h = find_char(line, '#');
            let kept = line.substring_char(0, h);
            let text = trim(kept);
            proof {
                assert(kept@ =~= line@.take(spec_find(line@, '#')));
                assert(text@ == spec_message_text(line@));
            }
            if text.unicode_len() == 0 {
                return Ok(LineOutcome::Ignored);
            }
            let dump_char = match self.dump {
                Some(DumpType::Char) => true,
                _ => false,
            };
            let dump_line = match self.dump {
                Some(DumpType::Line) => true,
                _ => false,
            };
            proof {
                lemma_dit_range(self.config.wpm);
            }
            let leading_gap: Option<u64> = if self.is_first_line {
                None
            } else {
                Some(word_space(self.config.dit_duration, self.config.farnsworth_milli))
            };
            let events = line_events(
                &self.table,
                text,
                dump_char,
                self.config.dit_duration,
                self.config.farnsworth_milli,
            );
            self.is_first_line = false;
            Ok(
                LineOutcome::Played {
                    leading_gap,
                    echo_line: dump_line,
                    events,
                    echo_newline: dump_char,
                },
            )
        }
    }

    /// Handles a whole run: the lines in order, stopping at the first
    /// error.  Returns the outcomes of the handled lines and the
    /// error that stopped the run, if any; the engine ends in the
    /// state [`spec_run`] assigns to the lines.
    pub fn play(&mut self, lines: &Vec<String>) -> (r: (Vec<LineOutcome>, Option<MorseError>))
        requires
            old(self).wf(),
        ensures
            final(self).wf(),
            final(self)@ == spec_run(old(self)@, lines.deep_view()).0,
            spec_outcomes(r.0@) == spec_run(old(self)@, lines.deep_view()).1,
            (r.1 is Some) == (spec_run(old(self)@, lines.deep_view()).2 is Some),
            r.1 matches Some(e) ==> spec_run(old(self)@, lines.deep_view()).2 == Some(e@),
    {
        let ghost st0 = self@;
        let ghost all = lines.deep_view();
        let mut outcomes: Vec<LineOutcome> = Vec::new();
        let mut err: Option<MorseError> = None;
        let n: usize = lines.len();
        let mut i: usize = 0;
        proof {
            assert(all.skip(0) =~= all);
            assert(spec_outcomes(outcomes@) =~= Seq::<OutcomeSpec>::empty());
            assert(Seq::<OutcomeSpec>::empty() + spec_run(self@, all).1 =~= spec_run(
                self@,
                all,
            ).1);
        }
        while i < n && err.is_none()
            invariant
                0 <= i <= n == lines.len(),
                all == lines.deep_view(),
                self.wf(),
                err is None ==> {
                    &&& spec_run(st0, all).0 == spec_run(self@, all.skip(i as int)).0
                    &&& spec_run(st0, all).1 =~= spec_outcomes(outcomes@) + spec_run(
                        self@,
                        all.skip(i as int),
                    ).1
                    &&& spec_run(st0, all).2 == spec_run(self@, all.skip(i as int)).2
                },
                err matches Some(e) ==> {
                    &&& spec_run(st0, all).0 == self@
                    &&& spec_run(st0, all).1 =~= spec_outcomes(outcomes@)
                    &&& spec_run(st0, all).2 == Some(e@)
                },
            decreases n - i,
        {
            let ghost rest = all.skip(i as int);
            proof {
                assert(rest[0] == lines.deep_view()[i as int]);
                assert(lines.deep_view()[i as int] == lines@[i as int]@);
                assert(rest.skip(1) =~= all.skip(i as int + 1));
            }
            let ghost outs0 = spec_outcomes(outcomes@);
            let ghost st_before = self@;
            match self.handle_line(lines[i].as_str()) {
                Ok(o) => {
                    let ghost ov = o@;
                    outcomes.push(o);
                    proof {
                        assert(spec_outcomes(outcomes@) =~= outs0.push(ov));
                        let next = spec_run(self@, all.skip(i as int + 1));
                        assert(spec_run(st_before, rest).1 == seq![ov] + next.1);
                        assert(outs0 + (seq![ov] + next.1) =~= outs0.push(ov) + next.1);
                    }
                },
                Err(e) => {
                    err = Some(e);
                    proof {
                        assert(spec_run(st_before, rest).1 =~= Seq::<OutcomeSpec>::empty());
                        assert(outs0 + Seq::<OutcomeSpec>::empty() =~= outs0);
                    }
                },
            }
            i = i + 1;
        }
        if err.is_none() {
            proof {
                assert(i == n);
                assert(all.skip(n as int).len() == 0);
                assert(spec_outcomes(outcomes@) + Seq::<OutcomeSpec>::empty() =~= spec_outcomes(
                    outcomes@,
                ));
            }
        }
        (outcomes, err)
    }
}

/// Recalling a preset name that was never stored fails with
/// `UndefinedPlayer` carrying that name: a directive whose delta
/// names a player, carries no frequency, volume or speed override,
/// and whose name the registry lacks, is rejected — and, the step
/// relation being error-preserving, leaves the active configuration
/// unchanged.
pub proof fn lemma_recall_undefined(c: Config, players: Map<Seq<char>, Preset>, d: DeltaSpec)
    requires
        spec_config_wf(c),
        d.player is Some,
        d.frequency is None,
        d.volume is None,
        d.wpm is None,
        !players.contains_key(d.player.unwrap()),
    ensures
        spec_apply_delta(c, players, d) == Err::<(Config, Map<Seq<char>, Preset>), ErrSpec>(
            ErrSpec::UndefinedPlayer { name: d.player.unwrap() },
        ),
{
    assert(spec_merge(c, d).wpm == c.wpm);
    assert(spec_merge_error(c, d) is None);
}

/// Storing a preset and then recalling it round-trips exactly: after
/// a directive that stores under a name (a player together with at
/// least one frequency, volume or speed override), a directive that
/// carries that player alone reproduces the committed configuration
/// bit for bit and leaves the registry as it was.
pub proof fn lemma_store_then_recall(
    c: Config,
    players: Map<Seq<char>, Preset>,
    d: DeltaSpec,
    d2: DeltaSpec,
)
    requires
        d.player is Some,
        d.frequency is Some || d.volume is Some || d.wpm is Some,
        d2.player == d.player,
        d2.frequency is None,
        d2.volume is None,
        d2.wpm is None,
        d2.farnsworth_timing is None,
        spec_apply_delta(c, players, d) is Ok,
    ensures
        spec_apply_delta(c, players, d) matches Ok(st2) ==> spec_apply_delta(st2.0, st2.1, d2)
            == Ok::<(Config, Map<Seq<char>, Preset>), ErrSpec>(st2),
{
    let name = d.player.unwrap();
    let merged = spec_merge(c, d);
    let st2 = spec_apply_delta(c, players, d)->Ok_0;
    assert(st2.0 == merged);
    assert(st2.1 == players.insert(name, spec_preset_of(merged)));
    assert(spec_merge(merged, d2) == merged);
    assert(spec_args_of(spec_merge(merged, d2)) == spec_args_of(merged));
    assert(spec_merge_error(merged, d2) is None);
    assert(st2.1.contains_key(name));
    assert(st2.1[name] == spec_preset_of(merged));
    assert(spec_config_of_preset(spec_preset_of(merged), merged.power_milli) == merged);
}

/// The spec-level images of a run's outcomes.
pub open spec fn spec_outcomes(v: Seq<LineOutcome>) -> Seq<OutcomeSpec> {
    v.map_values(|o: LineOutcome| o@)
}

/// The engine's run relation: the state after the lines, the outcomes
/// of the handled lines, and the error that stopped the run, if any.
pub open spec fn spec_run(st: EngineState, lines: Seq<Seq<char>>) -> (
    EngineState,
    Seq<OutcomeSpec>,
    Option<ErrSpec>,
)
    decreases lines.len(),
{
    if lines.len() == 0 {
        (st, Seq::empty(), None)
    } else {
        let step = spec_step(st, lines[0]);
        match step.1 {
            Err(e) => (st, Seq::empty(), Some(e)),
            Ok(o) => {
                let rest = spec_run(step.0, lines.skip(1));
                (rest.0, seq![o] + rest.1, rest.2)
            },
        }
    }
}

} // verus!
