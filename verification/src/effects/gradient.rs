//! Colour gradients: lookup tables of LED colours that effects index into.
use vstd::prelude::*;
use crate::effects::Rgb;
use crate::util::str_eq;

verus! {

/// A colour gradient, held as a table of colours from its start to its end.
pub struct Gradient {
    colors: Vec<Rgb>,
}

impl View for Gradient {
    type V = Seq<Rgb>;

    closed spec fn view(&self) -> Seq<Rgb> {
        self.colors@
    }
}

impl Gradient {
    /// A gradient whose table is `colors`, first entry first.
    pub fn from_table(colors: Vec<Rgb>) -> (g: Self)
        ensures
            g@ == colors@,
    {
        Gradient { colors }
    }

    /// Number of entries in the table.
    pub fn len(&self) -> (n: usize)
        ensures
            n == self@.len(),
    {
        self.colors.len()
    }

    /// Colour at table index `idx`, wrapping around past the end.
    pub fn get_index(&self, idx: usize) -> (c: Rgb)
        requires
            self@.len() > 0,
        ensures
            c == self@[idx as int % self@.len() as int],
    {
        self.colors[idx % self.colors.len()]
    }

    /// Colour at table index `idx`, held at the last entry past the end.
    pub fn get_clamped(&self, idx: usize) -> (c: Rgb)
        requires
            self@.len() > 0,
        ensures
            idx < self@.len() ==> c == self@[idx as int],
            idx >= self@.len() ==> c == self@.last(),
    {
        let last = self.colors.len() - 1;
        self.colors[if idx < last { idx } else { last }]
    }
}

/// The named gradients an effect can be set to.
#[derive(Debug, Clone, Copy, PartialEq, Eq, Structural)]
pub enum GradientPreset {
    Rainbow,
    Fire,
    Ocean,
    Forest,
    Sunset,
    Party,
    Lava,
}

/// The name of a preset, in lowercase.
pub open spec fn preset_name(p: GradientPreset) -> Seq<char> {
    match p {
        GradientPreset::Rainbow => seq!['r', 'a', 'i', 'n', 'b', 'o', 'w'],
        GradientPreset::Fire => seq!['f', 'i', 'r', 'e'],
        GradientPreset::Ocean => seq!['o', 'c', 'e', 'a', 'n'],
        GradientPreset::Forest => seq!['f', 'o', 'r', 'e', 's', 't'],
        GradientPreset::Sunset => seq!['s', 'u', 'n', 's', 'e', 't'],
        GradientPreset::Party => seq!['p', 'a', 'r', 't', 'y'],
        GradientPreset::Lava => seq!['l', 'a', 'v', 'a'],
    }
}

/// Every preset, in the order they are listed.
pub open spec fn all_presets() -> Seq<GradientPreset> {
    seq![
        GradientPreset::Rainbow,
        GradientPreset::Fire,
        GradientPreset::Ocean,
        GradientPreset::Forest,
        GradientPreset::Sunset,
        GradientPreset::Party,
        GradientPreset::Lava,
    ]
}

/// The first preset, in listing order from `i` on, whose name is exactly
/// `s`, if any.
pub open spec fn preset_named_from(s: Seq<char>, i: nat) -> Option<GradientPreset>
    decreases 7 - i,
{
    if i >= 7 {
        None
    } else if preset_name(all_presets()[i as int]) == s {
        Some(all_presets()[i as int])
    } else {
        preset_named_from(s, i + 1)
    }
}

/// The preset whose name is exactly `s`, if any.
pub open spec fn preset_named(s: Seq<char>) -> Option<GradientPreset> {
    preset_named_from(s, 0)
}

impl GradientPreset {
    /// The name of the preset.
    pub fn name(self) -> (s: &'static str)
        ensures
            s@ == preset_name(self),
    {
        match self {
            GradientPreset::Rainbow => {
                proof {
                    reveal_strlit("rainbow");
                }
                "rainbow"
            },
            GradientPreset::Fire => {
                proof {
                    reveal_strlit("fire");
                }
                "fire"
            },
            GradientPreset::Ocean => {
                proof {
                    reveal_strlit("ocean");
                }
                "ocean"
            },
            GradientPreset::Forest => {
                proof {
                    reveal_strlit("forest");
                }
                "forest"
            },
            GradientPreset::Sunset => {
                proof {
                    reveal_strlit("sunset");
                }
                "sunset"
            },
            GradientPreset::Party => {
                proof {
                    reveal_strlit("party");
                }
                "party"
            },
            GradientPreset::Lava => {
                proof {
                    reveal_strlit("lava");
                }
                "lava"
            },
        }
    }

    /// Every preset, in listing order.
    pub fn all() -> (v: Vec<GradientPreset>)
        ensures
            v@ == all_presets(),
    {
        let v = vec![
            GradientPreset::Rainbow,
            GradientPreset::Fire,
            GradientPreset::Ocean,
            GradientPreset::Forest,
            GradientPreset::Sunset,
            GradientPreset::Party,
            GradientPreset::Lava,
        ];
        assert(v@ =~= all_presets());
        v
    }

    /// The names of all presets, in listing order.
    pub fn list_names() -> (names: Vec<&'static str>)
        ensures
            names@.len() == all_presets().len(),
            forall|i: int|
                0 <= i < names@.len() ==> (#[trigger] names@[i])@ == preset_name(all_presets()[i]),
    {
        let all = Self::all();
        let mut names: Vec<&'static str> = Vec::new();
        let mut i: usize = 0;
        while i < all.len()
            invariant
                all@ == all_presets(),
                i <= all@.len(),
                names@.len() == i,
                forall|j: int| 0 <= j < i ==> (#[trigger] names@[j])@ == preset_name(all_presets()[j]),
            decreases all@.len() - i,
        {
            names.push(all[i].name());
            i = i + 1;
        }
        names
    }

    /// The preset named exactly `s` (lowercase), or `None`.
    pub fn from_name(s: &str) -> (p: Option<GradientPreset>)
        ensures
            p == preset_named(s@),
    {
        let all = Self::all();
        let mut i: usize = 0;
        while i < all.len()
            invariant
                all@ == all_presets(),
                i <= all@.len(),
                preset_named(s@) == preset_named_from(s@, i as nat),
            decreases all@.len() - i,
        {
            let cand = all[i];
            if str_eq(s, cand.name()) {
                return Some(cand);
            }
            i = i + 1;
        }
        None
    }
}

} // verus!
