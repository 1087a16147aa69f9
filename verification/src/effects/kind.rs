//! The built-in effects, by name.
use crate::util::str_eq;
use vstd::prelude::*;

verus! {

/// The effects that come with the visualizer.
#[derive(Debug, Clone, Copy, PartialEq, Eq, Structural)]
pub enum EffectKind {
    Energy,
    Spectrum,
    Scroll,
    Reactive,
    Pulse,
    VuMeter,
    ChromaFreq,
}

/// The name of an effect, in lowercase.
pub open spec fn effect_name(k: EffectKind) -> Seq<char> {
    match k {
        EffectKind::Energy => seq!['e', 'n', 'e', 'r', 'g', 'y'],
        EffectKind::Spectrum => seq!['s', 'p', 'e', 'c', 't', 'r', 'u', 'm'],
        EffectKind::Scroll => seq!['s', 'c', 'r', 'o', 'l', 'l'],
        EffectKind::Reactive => seq!['r', 'e', 'a', 'c', 't', 'i', 'v', 'e'],
        EffectKind::Pulse => seq!['p', 'u', 'l', 's', 'e'],
        EffectKind::VuMeter => seq!['v', 'u', 'm', 'e', 't', 'e', 'r'],
        EffectKind::ChromaFreq => seq!['c', 'h', 'r', 'o', 'm', 'a', 'f', 'r', 'e', 'q'],
    }
}

/// Every built-in effect, in listing order.
pub open spec fn all_effects() -> Seq<EffectKind> {
    seq![
        EffectKind::Energy,
        EffectKind::Spectrum,
        EffectKind::Scroll,
        EffectKind::Reactive,
        EffectKind::Pulse,
        EffectKind::VuMeter,
        EffectKind::ChromaFreq,
    ]
}

/// The first effect, in listing order from `i` on, whose name is exactly
/// `s`, if any.
pub open spec fn effect_named_from(s: Seq<char>, i: nat) -> Option<EffectKind>
    decreases 7 - i,
{
    if i >= 7 {
        None
    } else if effect_name(all_effects()[i as int]) == s {
        Some(all_effects()[i as int])
    } else {
        effect_named_from(s, i + 1)
    }
}

/// The effect whose name is exactly `s`, if any.
pub open spec fn effect_named(s: Seq<char>) -> Option<EffectKind> {
    effect_named_from(s, 0)
}

impl EffectKind {
    /// The name of the effect.
    pub fn name(self) -> (s: &'static str)
        ensures
            s@ == effect_name(self),
    {
        match self {
            EffectKind::Energy => {
                proof {
                    reveal_strlit("energy");
                }
                "energy"
            },
            EffectKind::Spectrum => {
                proof {
                    reveal_strlit("spectrum");
                }
                "spectrum"
            },
            EffectKind::Scroll => {
                proof {
                    reveal_strlit("scroll");
                }
                "scroll"
            },
            EffectKind::Reactive => {
                proof {
                    reveal_strlit("reactive");
                }
                "reactive"
            },
            EffectKind::Pulse => {
                proof {
                    reveal_strlit("pulse");
                }
                "pulse"
            },
            EffectKind::VuMeter => {
                proof {
                    reveal_strlit("vumeter");
                }
                "vumeter"
            },
            EffectKind::ChromaFreq => {
                proof {
                    reveal_strlit("chromafreq");
                }
                "chromafreq"
            },
        }
    }

    /// Every built-in effect, in listing order.
    pub fn all() -> (v: Vec<EffectKind>)
        ensures
            v@ == all_effects(),
    {
        let v = vec![
            EffectKind::Energy,
            EffectKind::Spectrum,
            EffectKind::Scroll,
            EffectKind::Reactive,
            EffectKind::Pulse,
            EffectKind::VuMeter,
            EffectKind::ChromaFreq,
        ];
        assert(v@ =~= all_effects());
        v
    }

    /// The names of all built-in effects, in listing order.
    pub fn list_names() -> (names: Vec<&'static str>)
        ensures
            names@.len() == all_effects().len(),
            forall|i: int|
                0 <= i < names@.len() ==> (#[trigger] names@[i])@ == effect_name(all_effects()[i]),
    {
        let all = Self::all();
        let mut names: Vec<&'static str> = Vec::new();
        let mut i: usize = 0;
        while i < all.len()
            invariant
                all@ == all_effects(),
                i <= all@.len(),
                names@.len() == i,
                forall|j: int| 0 <= j < i ==> (#[trigger] names@[j])@ == effect_name(all_effects()[j]),
            decreases all@.len() - i,
        {
            names.push(all[i].name());
            i = i + 1;
        }
        names
    }

    /// The built-in effect named exactly `s`, or `None`.
    pub fn from_name(s: &str) -> (k: Option<EffectKind>)
        ensures
            k == effect_named(s@),
    {
        let all = Self::all();
        let mut i: usize = 0;
        while i < all.len()
            invariant
                all@ == all_effects(),
                i <= all@.len(),
                effect_named(s@) == effect_named_from(s@, i as nat),
            decreases all@.len() - i,
        {
            let cand = all[i];
            if str_eq(s, cand.name()) {
                return Some(cand);
            }
            i = i + 1;
        }
        None
    }
}

} // verus!
