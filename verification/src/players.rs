//! The preset registry: named configuration snapshots, stored when a
//! directive carries `--player` together with an override and adopted
//! verbatim when it carries `--player` alone.

use vstd::prelude::*;

verus! {

/// A named configuration snapshot.  A preset stores everything a
/// recall adopts: pitch, amplitude, speed, Farnsworth multiplier and
/// the derived dit duration; the loudness-curve exponent is fixed for
/// the run and not part of a preset.
#[derive(Clone, Copy, Debug, PartialEq, Eq, Structural)]
pub struct Preset {
    /// Tone pitch in thousandths of a hertz.
    pub frequency_milli: u32,
    /// Linear amplitude in thousandths.
    pub volume_milli: u32,
    /// Speed in words per minute.
    pub wpm: u8,
    /// Gap multiplier in thousandths.
    pub farnsworth_milli: u32,
    /// Derived dit duration in milliseconds.
    pub dit_duration: u32,
}

/// The preset stored under `name`, reading the newest entry first.
spec fn spec_lookup(entries: Seq<(String, Preset)>, name: Seq<char>) -> Option<Preset>
    decreases entries.len(),
{
    if entries.len() == 0 {
        None
    } else if entries.last().0@ == name {
        Some(entries.last().1)
    } else {
        spec_lookup(entries.drop_last(), name)
    }
}

/// The registry of named presets.  Its view is the name-keyed map it
/// denotes; storing under an existing name overwrites that entry in
/// the view.
pub struct Players {
    entries: Vec<(String, Preset)>,
}

impl View for Players {
    type V = Map<Seq<char>, Preset>;

    closed spec fn view(&self) -> Map<Seq<char>, Preset> {
        Map::new(
            |name: Seq<char>| spec_lookup(self.entries@, name) is Some,
            |name: Seq<char>| spec_lookup(self.entries@, name).unwrap(),
        )
    }
}

impl Players {
    /// An empty registry.
    pub fn new() -> (r: Players)
        ensures
            r@ == Map::<Seq<char>, Preset>::empty(),
    {
        let r = Players { entries: Vec::new() };
        proof {
            assert(r@ =~= Map::<Seq<char>, Preset>::empty());
        }
        r
    }

    /// Stores `preset` under `name`, overwriting any earlier entry of
    /// that name.
    pub fn store(&mut self, name: String, preset: Preset)
        ensures
            final(self)@ == old(self)@.insert(name@, preset),
    {
        let ghost n = name@;
        let ghost entries0 = self.entries@;
        self.entries.push((name, preset));
        proof {
            assert(self.entries@.drop_last() =~= entries0);
            assert(self.entries@.last().0@ == n);
            assert forall|k: Seq<char>| true implies #[trigger] spec_lookup(self.entries@, k)
                == (if k == n {
                Some(preset)
            } else {
                spec_lookup(entries0, k)
            }) by {}
            assert(self@ =~= old(self)@.insert(n, preset));
        }
    }

    /// The preset stored under `name`, or `None` if the name was never
    /// stored.
    pub fn recall(&self, name: &String) -> (r: Option<Preset>)
        ensures
            r is Some <==> self@.contains_key(name@),
            r matches Some(p) ==> self@.contains_key(name@) && p == self@[name@],
    {
        let mut i: usize = self.entries.len();
        proof {
            assert(self.entries@.take(i as int) =~= self.entries@);
        }
        while i > 0
            invariant
                0 <= i <= self.entries@.len(),
                spec_lookup(self.entries@, name@) == spec_lookup(
                    self.entries@.take(i as int),
                    name@,
                ),
            decreases i,
        {
            i = i - 1;
            let ghost pre = self.entries@.take(i as int + 1);
            proof {
                assert(pre.last() == self.entries@[i as int]);
                assert(pre.drop_last() =~= self.entries@.take(i as int));
            }
            if self.entries[i].0 == *name {
                return Some(self.entries[i].1);
            }
        }
        proof {
            assert(self.entries@.take(0).len() == 0);
        }
        None
    }
}

} // verus!
