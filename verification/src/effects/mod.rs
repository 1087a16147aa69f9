//! LED colour type shared by effects and output protocols, and the
//! integer layout logic of the effects.
mod gradient;
mod kind;

use vstd::prelude::*;

pub use gradient::{Gradient, GradientPreset};
pub use kind::EffectKind;

verus! {

/// RGB colour value of one LED.
#[derive(Debug, Clone, Copy, Default, PartialEq, Eq, Structural)]
pub struct Rgb {
    pub r: u8,
    pub g: u8,
    pub b: u8,
}

impl Rgb {
    /// Create a new RGB colour.
    pub fn new(r: u8, g: u8, b: u8) -> (c: Self)
        ensures
            c.r == r,
            c.g == g,
            c.b == b,
    {
        Rgb { r, g, b }
    }

    /// Black (all channels off).
    pub fn black() -> (c: Self)
        ensures
            c.r == 0 && c.g == 0 && c.b == 0,
    {
        Rgb { r: 0, g: 0, b: 0 }
    }

    /// White (all channels full).
    pub fn white() -> (c: Self)
        ensures
            c.r == 255 && c.g == 255 && c.b == 255,
    {
        Rgb { r: 255, g: 255, b: 255 }
    }

    /// The three channel bytes in wire order (red, green, blue).
    pub open spec fn spec_bytes(self) -> Seq<u8> {
        seq![self.r, self.g, self.b]
    }

    /// Convert to bytes, red first.
    pub fn as_bytes(&self) -> (b: [u8; 3])
        ensures
            b@ == self.spec_bytes(),
    {
        [self.r, self.g, self.b]
    }
}

/// Band shown by LED `i` of a spectrum display of `num_leds` LEDs over
/// `num_bands` bands. Without mirroring the bands are spread over the whole
/// strip; with mirroring over the first half, and the second half repeats
/// them backwards from the far end.
pub open spec fn spectrum_band(num_leds: int, num_bands: int, mirror: bool, i: int) -> int {
    let effective = if mirror { num_leds / 2 } else { num_leds };
    let led_pos = if mirror && i >= effective {
        num_leds - 1 - i
    } else if i < effective - 1 {
        i
    } else {
        effective - 1
    };
    let band = led_pos * num_bands / effective;
    if band < num_bands - 1 {
        band
    } else {
        num_bands - 1
    }
}

/// The band each LED of a spectrum display shows.
pub fn spectrum_band_mapping(num_leds: usize, num_bands: usize, mirror: bool) -> (map: Vec<usize>)
    requires
        num_leds == 0 || (num_bands >= 1 && (if mirror { num_leds / 2 } else { num_leds }) >= 1),
        num_leds * num_bands <= usize::MAX,
    ensures
        map@.len() == num_leds,
        forall|i: int|
            0 <= i < num_leds ==> #[trigger] map@[i] == spectrum_band(
                num_leds as int,
                num_bands as int,
                mirror,
                i,
            ),
{
    if num_leds == 0 {
        return Vec::new();
    }
    let effective = if mirror { num_leds / 2 } else { num_leds };
    let mut map: Vec<usize> = Vec::with_capacity(num_leds);
    let mut i: usize = 0;
    while i < num_leds
        invariant
            i <= num_leds,
            effective == (if mirror { num_leds / 2 } else { num_leds }),
            effective >= 1,
            effective <= num_leds,
            num_bands >= 1,
            num_leds * num_bands <= usize::MAX,
            map@.len() == i,
            forall|j: int|
                0 <= j < i ==> #[trigger] map@[j] == spectrum_band(
                    num_leds as int,
                    num_bands as int,
                    mirror,
                    j,
                ),
        decreases num_leds - i,
    {
        let led_pos = if mirror && i >= effective {
            num_leds - 1 - i
        } else if i < effective - 1 {
            i
        } else {
            effective - 1
        };
        assert(led_pos < num_leds);
        assert(led_pos * num_bands <= num_leds * num_bands) by (nonlinear_arith)
            requires
                led_pos < num_leds,
        ;
        let band = led_pos * num_bands / effective;
        map.push(if band < num_bands - 1 { band } else { num_bands - 1 });
        i = i + 1;
    }
    map
}

/// The strip after moving every colour `steps` places towards the end: LED
/// `i` takes the colour of LED `i - steps`, and the first LEDs, which have
/// nothing before them, take the colour of LED 0.
pub open spec fn scrolled(leds: Seq<Rgb>, steps: int) -> Seq<Rgb> {
    Seq::new(leds.len(), |i: int| if i >= steps { leds[i - steps] } else { leds[0] })
}

/// Move the colours of the strip `steps` places towards its end, one place
/// at a time, as the scrolling effect does each frame.
pub fn scroll_right(leds: &mut [Rgb], steps: usize)
    ensures
        final(leds)@ == scrolled(old(leds)@, steps as int),
{
    let ghost orig = leds@;
    let n = leds.len();
    let mut k: usize = 0;
    while k < steps
        invariant
            k <= steps,
            n == orig.len(),
            leds@ == scrolled(orig, k as int),
        decreases steps - k,
    {
        let ghost before = leds@;
        let mut i = n;
        while i > 1
            invariant
                1 <= i <= n || (n == 0 && i == 0),
                n == orig.len(),
                leds@.len() == n,
                before == scrolled(orig, k as int),
                forall|j: int| 0 <= j < i ==> leds@[j] == #[trigger] before[j],
                forall|j: int| i <= j < n ==> leds@[j] == #[trigger] before[j - 1],
            decreases i,
        {
            i = i - 1;
            leds[i] = leds[i - 1];
        }
        k = k + 1;
        assert forall|j: int| 0 <= j < n implies leds@[j] == scrolled(orig, k as int)[j] by {
            if j >= 1 {
                assert(leds@[j] == before[j - 1]);
            } else {
                assert(leds@[j] == before[j]);
            }
        }
        assert(leds@ =~= scrolled(orig, k as int));
    }
}

} // verus!
