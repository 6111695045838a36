//! The directive parser: tokenizes the body of a `#!` line and scans
//! the tokens in key/value pairs into a delta of optional overrides.
//!
//! Keys are matched case-insensitively.  A repeated key is a fatal
//! duplicate-field error, an unrecognized token a fatal undefined-token
//! error, and a value that does not read as the expected number a
//! fatal parse error.  A trailing key with no following value token is
//! ignored.

use vstd::prelude::*;

use crate::errors::{ConfigField, ErrSpec, MorseError};
use crate::numeric::{parse_milli, parse_wpm, spec_all_digits, spec_digits_val, spec_milli_ok,
    spec_milli_val};
use crate::text::{spec_lower, spec_lower_is, spec_tokens, lower_is, tokenize};

verus! {

/// The overrides one directive line carries.  Fields absent from the
/// line stay `None`; fractional values are in thousandths.
pub struct Delta {
    pub frequency: Option<u32>,
    pub volume: Option<u32>,
    pub wpm: Option<u8>,
    pub farnsworth_timing: Option<u32>,
    pub player: Option<String>,
}

/// Spec-level image of a [`Delta`], with the player name as a
/// character sequence.
pub struct DeltaSpec {
    pub frequency: Option<u32>,
    pub volume: Option<u32>,
    pub wpm: Option<u8>,
    pub farnsworth_timing: Option<u32>,
    pub player: Option<Seq<char>>,
}

impl View for Delta {
    type V = DeltaSpec;

    open spec fn view(&self) -> DeltaSpec {
        DeltaSpec {
            frequency: self.frequency,
            volume: self.volume,
            wpm: self.wpm,
            farnsworth_timing: self.farnsworth_timing,
            player: match self.player {
                Some(ref s) => Some(s@),
                None => None,
            },
        }
    }
}

/// The delta with no overrides.
pub open spec fn spec_empty_delta() -> DeltaSpec {
    DeltaSpec { frequency: None, volume: None, wpm: None, farnsworth_timing: None, player: None }
}

/// A numeral accepted as a count of thousandths.
pub open spec fn spec_milli_value_ok(v: Seq<char>) -> bool {
    spec_milli_ok(v) && spec_milli_val(v) <= u32::MAX
}

/// A numeral accepted as a speed in words per minute.
pub open spec fn spec_wpm_value_ok(v: Seq<char>) -> bool {
    v.len() >= 1 && spec_all_digits(v) && spec_digits_val(v) <= u8::MAX
}

/// Scans the remaining tokens in key/value pairs, extending `acc`.
/// Each recognized key consumes the following value token; scanning
/// stops successfully at the end of the tokens, also after a trailing
/// key with no value.
pub open spec fn spec_scan(toks: Seq<Seq<char>>, acc: DeltaSpec) -> Result<DeltaSpec, ErrSpec>
    decreases toks.len(),
{
    if toks.len() == 0 {
        Ok(acc)
    } else {
        let t = toks[0];
        if spec_lower_is(t, "--frequency"@) {
            if toks.len() == 1 {
                Ok(acc)
            } else if acc.frequency is Some {
                Err(ErrSpec::DuplicateDirectiveField { field: ConfigField::Frequency })
            } else if !spec_milli_value_ok(toks[1]) {
                Err(ErrSpec::DirectiveValueParseError {
                    field: ConfigField::Frequency,
                    raw: toks[1],
                })
            } else {
                spec_scan(
                    toks.skip(2),
                    DeltaSpec { frequency: Some(spec_milli_val(toks[1]) as u32), ..acc },
                )
            }
        } else if spec_lower_is(t, "--volume"@) {
            if toks.len() == 1 {
                Ok(acc)
            } else if acc.volume is Some {
                Err(ErrSpec::DuplicateDirectiveField { field: ConfigField::Volume })
            } else if !spec_milli_value_ok(toks[1]) {
                Err(ErrSpec::DirectiveValueParseError { field: ConfigField::Volume, raw: toks[1] })
            } else {
                spec_scan(
                    toks.skip(2),
                    DeltaSpec { volume: Some(spec_milli_val(toks[1]) as u32), ..acc },
                )
            }
        } else if spec_lower_is(t, "--wpm"@) {
            if toks.len() == 1 {
                Ok(acc)
            } else if acc.wpm is Some {
                Err(ErrSpec::DuplicateDirectiveField { field: ConfigField::Wpm })
            } else if !spec_wpm_value_ok(toks[1]) {
                Err(ErrSpec::DirectiveValueParseError { field: ConfigField::Wpm, raw: toks[1] })
            } else {
                spec_scan(
                    toks.skip(2),
                    DeltaSpec { wpm: Some(spec_digits_val(toks[1]) as u8), ..acc },
                )
            }
        } else if spec_lower_is(t, "--farnsworth_timing"@) {
            if toks.len() == 1 {
                Ok(acc)
            } else if acc.farnsworth_timing is Some {
                Err(ErrSpec::DuplicateDirectiveField { field: ConfigField::FarnsworthTiming })
            } else if !spec_milli_value_ok(toks[1]) {
                Err(ErrSpec::DirectiveValueParseError {
                    field: ConfigField::FarnsworthTiming,
                    raw: toks[1],
                })
            } else {
                spec_scan(
                    toks.skip(2),
                    DeltaSpec { farnsworth_timing: Some(spec_milli_val(toks[1]) as u32), ..acc },
                )
            }
        } else if spec_lower_is(t, "--player"@) {
            if toks.len() == 1 {
                Ok(acc)
            } else if acc.player is Some {
                Err(ErrSpec::DuplicateDirectiveField { field: ConfigField::Player })
            } else {
                spec_scan(toks.skip(2), DeltaSpec { player: Some(toks[1]), ..acc })
            }
        } else {
            Err(ErrSpec::UndefinedDirectiveToken { token: t })
        }
    }
}

/// The parse of a whole directive body: its whitespace tokens scanned
/// from the empty delta.
pub open spec fn spec_parse_directive(body: Seq<char>) -> Result<DeltaSpec, ErrSpec> {
    spec_scan(spec_tokens(body), spec_empty_delta())
}

/// A directive that repeats a key whose field is already set fails
/// with a duplicate-field error naming that field, whatever follows:
/// at a token that reads (case-insensitively) as the key of an
/// already-populated field and is followed by a value token, the scan
/// stops with `DuplicateDirectiveField` for that field.
pub proof fn lemma_duplicate_directive_field(toks: Seq<Seq<char>>, acc: DeltaSpec, f: ConfigField)
    requires
        toks.len() >= 2,
        match f {
            ConfigField::Frequency => spec_lower_is(toks[0], "--frequency"@) && acc.frequency
                is Some,
            ConfigField::Volume => spec_lower_is(toks[0], "--volume"@) && acc.volume is Some,
            ConfigField::Wpm => spec_lower_is(toks[0], "--wpm"@) && acc.wpm is Some,
            ConfigField::FarnsworthTiming => spec_lower_is(toks[0], "--farnsworth_timing"@)
                && acc.farnsworth_timing is Some,
            ConfigField::Player => spec_lower_is(toks[0], "--player"@) && acc.player is Some,
            ConfigField::Power => false,
        },
    ensures
        spec_scan(toks, acc) == Err::<DeltaSpec, ErrSpec>(
            ErrSpec::DuplicateDirectiveField { field: f },
        ),
{
    reveal_strlit("--frequency");
    reveal_strlit("--volume");
    reveal_strlit("--wpm");
    reveal_strlit("--farnsworth_timing");
    reveal_strlit("--player");
    let t = toks[0];
    match f {
        ConfigField::Frequency => {},
        ConfigField::Volume => {
            assert(t.len() == 8);
        },
        ConfigField::Wpm => {
            assert(t.len() == 5);
        },
        ConfigField::FarnsworthTiming => {
            assert(t.len() == 19);
        },
        ConfigField::Player => {
            assert(t.len() == 8);
            assert(spec_lower(t[2]) == "--player"@[2]);
            assert(!spec_lower_is(t, "--volume"@)) by {
                if spec_lower_is(t, "--volume"@) {
                    assert(spec_lower(t[2]) == "--volume"@[2]);
                }
            }
        },
        ConfigField::Power => {},
    }
}

/// A token that reads as none of the five keys fails the scan with an
/// undefined-token error carrying that token.
pub proof fn lemma_undefined_token(toks: Seq<Seq<char>>, acc: DeltaSpec)
    requires
        toks.len() >= 1,
        !spec_lower_is(toks[0], "--frequency"@),
        !spec_lower_is(toks[0], "--volume"@),
        !spec_lower_is(toks[0], "--wpm"@),
        !spec_lower_is(toks[0], "--farnsworth_timing"@),
        !spec_lower_is(toks[0], "--player"@),
    ensures
        spec_scan(toks, acc) == Err::<DeltaSpec, ErrSpec>(
            ErrSpec::UndefinedDirectiveToken { token: toks[0] },
        ),
{
}

/// Parses the body of a directive line (what follows the `#!` marker)
/// into the overrides it carries.  Succeeds exactly when no key is
/// repeated, no token is unrecognized, and every present value reads
/// as its field's number.
pub fn parse_directive(body: &str) -> (r: Result<Delta, MorseError>)
    ensures
        r matches Ok(d) ==> spec_parse_directive(body@) == Ok::<DeltaSpec, ErrSpec>(d@),
        r matches Err(e) ==> spec_parse_directive(body@) == Err::<DeltaSpec, ErrSpec>(e@),
{
    let toks = tokenize(body);
    let ghost all = toks.deep_view();
    let mut delta = Delta {
        frequency: None,
        volume: None,
        wpm: None,
        farnsworth_timing: None,
        player: None,
    };
    let n: usize = toks.len();
    let mut k: usize = 0;
    proof {
        assert(all.skip(0) =~= all);
    }
    while k < n
        invariant
            0 <= k <= n == toks.len(),
            all == toks.deep_view(),
            all == spec_tokens(body@),
            spec_scan(all, spec_empty_delta()) == spec_scan(all.skip(k as int), delta@),
        decreases n - k,
    {
        let ghost rest = all.skip(k as int);
        proof {
            assert(rest[0] == toks.deep_view()[k as int]);
            assert(toks.deep_view()[k as int] == toks@[k as int]@);
            if k + 2 <= n {
                assert(rest.skip(2) =~= all.skip(k as int + 2));
                assert(rest[1] == toks@[k as int + 1]@);
            }
        }
        let t = &toks[k];
        if lower_is(t.as_str(), "--frequency") {
            if k + 1 >= n {
                return Ok(delta);
            }
            if delta.frequency.is_some() {
                return Err(MorseError::DuplicateDirectiveField { field: ConfigField::Frequency });
            }
            match parse_milli(toks[k + 1].as_str()) {
                Some(v) => {
                    delta.frequency = Some(v);
                },
                None => {
                    return Err(MorseError::DirectiveValueParseError {
                        field: ConfigField::Frequency,
                        raw: toks[k + 1].clone(),
                    });
                },
            }
        } else if lower_is(t.as_str(), "--volume") {
            if k + 1 >= n {
                return Ok(delta);
            }
            if delta.volume.is_some() {
                return Err(MorseError::DuplicateDirectiveField { field: ConfigField::Volume });
            }
            match parse_milli(toks[k + 1].as_str()) {
                Some(v) => {
                    delta.volume = Some(v);
                },
                None => {
                    return Err(MorseError::DirectiveValueParseError {
                        field: ConfigField::Volume,
                        raw: toks[k + 1].clone(),
                    });
                },
            }
        } else if lower_is(t.as_str(), "--wpm") {
            if k + 1 >= n {
                return Ok(delta);
            }
            if delta.wpm.is_some() {
                return Err(MorseError::DuplicateDirectiveField { field: ConfigField::Wpm });
            }
            match parse_wpm(toks[k + 1].as_str()) {
                Some(v) => {
                    delta.wpm = Some(v);
                },
                None => {
                    return Err(MorseError::DirectiveValueParseError {
                        field: ConfigField::Wpm,
                        raw: toks[k + 1].clone(),
                    });
                },
            }
        } else if lower_is(t.as_str(), "--farnsworth_timing") {
            if k + 1 >= n {
                return Ok(delta);
            }
            if delta.farnsworth_timing.is_some() {
                return Err(MorseError::DuplicateDirectiveField {
                    field: ConfigField::FarnsworthTiming,
                });
            }
            match parse_milli(toks[k + 1].as_str()) {
                Some(v) => {
                    delta.farnsworth_timing = Some(v);
                },
                None => {
                    return Err(MorseError::DirectiveValueParseError {
                        field: ConfigField::FarnsworthTiming,
                        raw: toks[k + 1].clone(),
                    });
                },
            }
        } else if lower_is(t.as_str(), "--player") {
            if k + 1 >= n {
                return Ok(delta);
            }
            if delta.player.is_some() {
                return Err(MorseError::DuplicateDirectiveField { field: ConfigField::Player });
            }
            delta.player = Some(toks[k + 1].clone());
        } else {
            return Err(MorseError::UndefinedDirectiveToken { token: t.clone() });
        }
        k = k + 2;
    }
    proof {
        assert(all.skip(n as int).len() == 0);
    }
    Ok(delta)
}

} // verus!
