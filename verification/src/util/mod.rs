//! LED byte-order handling and gamma correction.
use crate::effects::Rgb;
use crate::output::wire::{channel, led_bytes, leds_to_bytes};
use vstd::prelude::*;

verus! {

/// Uppercase form of a string, as `str::to_uppercase` gives it (full Unicode
/// case mapping).
pub uninterp spec fn str_to_uppercase(s: Seq<char>) -> Seq<char>;

/// ASCII uppercase of one character; other characters are unchanged.
pub open spec fn ascii_upper(c: char) -> char {
    if 'a' <= c && c <= 'z' {
        ((c as u32) - 32) as char
    } else {
        c
    }
}

/// `s` with each ASCII letter `a`..`z` made uppercase.
pub open spec fn ascii_uppercase(s: Seq<char>) -> Seq<char> {
    Seq::new(s.len(), |i: int| ascii_upper(s[i]))
}

/// Calls `str::to_uppercase`. The result is named by `str_to_uppercase` of
/// the argument; on ASCII text, as the method's documentation says, each
/// letter `a`..`z` becomes `A`..`Z` and every other character is kept.
#[verifier::external_body]
fn to_uppercase(s: &str) -> (u: String)
    ensures
        u@ == str_to_uppercase(s@),
        s.is_ascii() ==> u@ == ascii_uppercase(s@),
{
    s.to_uppercase()
}

/// Lowercase form of a string, as `str::to_lowercase` gives it (full
/// Unicode case mapping).
pub uninterp spec fn str_to_lowercase(s: Seq<char>) -> Seq<char>;

/// ASCII lowercase of one character; other characters are unchanged.
pub open spec fn ascii_lower(c: char) -> char {
    if 'A' <= c && c <= 'Z' {
        ((c as u32) + 32) as char
    } else {
        c
    }
}

/// `s` with each ASCII letter `A`..`Z` made lowercase.
pub open spec fn ascii_lowercase(s: Seq<char>) -> Seq<char> {
    Seq::new(s.len(), |i: int| ascii_lower(s[i]))
}

/// Calls `str::to_lowercase`. The result is named by `str_to_lowercase` of
/// the argument; on ASCII text each letter `A`..`Z` becomes `a`..`z` and
/// every other character is kept.
#[verifier::external_body]
pub(crate) fn to_lowercase(s: &str) -> (l: String)
    ensures
        l@ == str_to_lowercase(s@),
        s.is_ascii() ==> l@ == ascii_lowercase(s@),
{
    s.to_lowercase()
}

/// Whether `needle` occurs in `hay` as a run of consecutive characters.
pub open spec fn has_substring(hay: Seq<char>, needle: Seq<char>) -> bool {
    exists|i: int|
        0 <= i && i + needle.len() <= hay.len() && #[trigger] hay.subrange(i, i + needle.len())
            == needle
}

/// Whether `needle` occurs in `hay`.
pub(crate) fn str_contains(hay: &str, needle: &str) -> (b: bool)
    ensures
        b == has_substring(hay@, needle@),
{
    let h = chars_of(hay);
    let n = chars_of(needle);
    if n.len() > h.len() {
        return false;
    }
    let last = h.len() - n.len();
    let mut i: usize = 0;
    loop
        invariant
            h@ == hay@,
            n@ == needle@,
            last == h@.len() - n@.len(),
            n@.len() <= h@.len(),
            h@.len() <= usize::MAX,
            i <= last,
            forall|k: int| 0 <= k < i ==> #[trigger] h@.subrange(k, k + n@.len()) != n@,
        ensures
            forall|k: int| 0 <= k <= last ==> #[trigger] h@.subrange(k, k + n@.len()) != n@,
        decreases last - i,
    {
        let mut j: usize = 0;
        while j < n.len() && h[i + j] == n[j]
            invariant
                h@ == hay@,
                n@ == needle@,
                i <= last,
                i + n@.len() <= h@.len(),
                h@.len() <= usize::MAX,
                j <= n@.len(),
                forall|m: int| 0 <= m < j ==> h@[i + m] == n@[m],
            decreases n@.len() - j,
        {
            j = j + 1;
        }
        if j == n.len() {
            assert(h@.subrange(i as int, i + n@.len()) =~= n@);
            return true;
        }
        assert(h@.subrange(i as int, i + n@.len())[j as int] != n@[j as int]);
        if i == last {
            break;
        }
        i = i + 1;
    }
    false
}

/// The characters of `s`, in order.
pub(crate) fn chars_of(s: &str) -> (v: Vec<char>)
    ensures
        v@ == s@,
{
    broadcast use vstd::string::axiom_spec_iter;

    let mut v: Vec<char> = Vec::new();
    for c in iter: s.chars()
        invariant
            iter.seq() == s@,
            v@ == iter.seq().take(iter.index() as int),
    {
        v.push(c);
    }
    v
}


/// Whether two strings hold the same characters.
pub(crate) fn str_eq(a: &str, b: &str) -> (eq: bool)
    ensures
        eq == (a@ == b@),
{
    let va = chars_of(a);
    let vb = chars_of(b);
    if va.len() != vb.len() {
        return false;
    }
    let mut i: usize = 0;
    while i < va.len()
        invariant
            va@ == a@,
            vb@ == b@,
            va@.len() == vb@.len(),
            i <= va@.len(),
            forall|j: int| 0 <= j < i ==> va@[j] == vb@[j],
        decreases va@.len() - i,
    {
        if va[i] != vb[i] {
            return false;
        }
        i = i + 1;
    }
    assert(va@ =~= vb@);
    true
}

/// Order in which the three colour channels of an LED are sent on the wire.
#[derive(Debug, Clone, Copy, PartialEq, Eq, Structural)]
pub enum ColorOrder {
    Rgb,
    Grb,
    Bgr,
    Rbg,
    Brg,
    Gbr,
}

/// The name of an order, three uppercase letters.
pub open spec fn order_name(o: ColorOrder) -> Seq<char> {
    match o {
        ColorOrder::Rgb => seq!['R', 'G', 'B'],
        ColorOrder::Grb => seq!['G', 'R', 'B'],
        ColorOrder::Bgr => seq!['B', 'G', 'R'],
        ColorOrder::Rbg => seq!['R', 'B', 'G'],
        ColorOrder::Brg => seq!['B', 'R', 'G'],
        ColorOrder::Gbr => seq!['G', 'B', 'R'],
    }
}

/// The order whose name is exactly `s`, if any.
pub open spec fn order_named(s: Seq<char>) -> Option<ColorOrder> {
    if s == order_name(ColorOrder::Rgb) {
        Some(ColorOrder::Rgb)
    } else if s == order_name(ColorOrder::Grb) {
        Some(ColorOrder::Grb)
    } else if s == order_name(ColorOrder::Bgr) {
        Some(ColorOrder::Bgr)
    } else if s == order_name(ColorOrder::Rbg) {
        Some(ColorOrder::Rbg)
    } else if s == order_name(ColorOrder::Brg) {
        Some(ColorOrder::Brg)
    } else if s == order_name(ColorOrder::Gbr) {
        Some(ColorOrder::Gbr)
    } else {
        None
    }
}

/// For an LED given in RGB, the input channel (0 = red, 1 = green, 2 = blue)
/// that goes to output position `k` in order `o`.
pub open spec fn source_channel(o: ColorOrder, k: int) -> int {
    match o {
        ColorOrder::Rgb => k,
        ColorOrder::Grb => if k == 0 { 1 } else if k == 1 { 0 } else { 2 },
        ColorOrder::Bgr => 2 - k,
        ColorOrder::Rbg => if k == 0 { 0 } else if k == 1 { 2 } else { 1 },
        ColorOrder::Brg => if k == 0 { 2 } else if k == 1 { 0 } else { 1 },
        ColorOrder::Gbr => if k == 0 { 1 } else if k == 1 { 2 } else { 0 },
    }
}

/// `data`, taken as consecutive RGB triples, with every complete triple
/// rearranged into order `o`; trailing bytes that do not make a triple are
/// kept.
pub open spec fn reordered(data: Seq<u8>, o: ColorOrder) -> Seq<u8> {
    Seq::new(
        data.len(),
        |i: int|
            if i < data.len() - data.len() % 3 {
                data[i - i % 3 + source_channel(o, i % 3)]
            } else {
                data[i]
            },
    )
}

impl ColorOrder {
    /// The order named exactly by `s` ("RGB", "GRB", "BGR", "RBG", "BRG" or
    /// "GBR"), or `None`.
    pub fn from_exact_name(s: &str) -> (o: Option<ColorOrder>)
        ensures
            o == order_named(s@),
    {
        let v = chars_of(s);
        if v.len() != 3 {
            return None;
        }
        let (a, b, c) = (v[0], v[1], v[2]);
        assert(v@ =~= seq![a, b, c]);
        if a == 'R' && b == 'G' && c == 'B' {
            Some(ColorOrder::Rgb)
        } else if a == 'G' && b == 'R' && c == 'B' {
            Some(ColorOrder::Grb)
        } else if a == 'B' && b == 'G' && c == 'R' {
            Some(ColorOrder::Bgr)
        } else if a == 'R' && b == 'B' && c == 'G' {
            Some(ColorOrder::Rbg)
        } else if a == 'B' && b == 'R' && c == 'G' {
            Some(ColorOrder::Brg)
        } else if a == 'G' && b == 'B' && c == 'R' {
            Some(ColorOrder::Gbr)
        } else {
            None
        }
    }

    /// The name of the order, three uppercase letters.
    pub fn name(self) -> (s: &'static str)
        ensures
            s@ == order_name(self),
    {
        match self {
            ColorOrder::Rgb => {
                proof {
                    reveal_strlit("RGB");
                }
                "RGB"
            },
            ColorOrder::Grb => {
                proof {
                    reveal_strlit("GRB");
                }
                "GRB"
            },
            ColorOrder::Bgr => {
                proof {
                    reveal_strlit("BGR");
                }
                "BGR"
            },
            ColorOrder::Rbg => {
                proof {
                    reveal_strlit("RBG");
                }
                "RBG"
            },
            ColorOrder::Brg => {
                proof {
                    reveal_strlit("BRG");
                }
                "BRG"
            },
            ColorOrder::Gbr => {
                proof {
                    reveal_strlit("GBR");
                }
                "GBR"
            },
        }
    }

    /// The order named by `s`, compared case-insensitively (after
    /// `str::to_uppercase`), or `None`.
    pub fn from_name(s: &str) -> (o: Option<ColorOrder>)
        ensures
            o == order_named(str_to_uppercase(s@)),
            s.is_ascii() ==> o == order_named(ascii_uppercase(s@)),
    {
        let upper = to_uppercase(s);
        Self::from_exact_name(upper.as_str())
    }
}

/// Rearrange every complete RGB triple of `data` into order `order`.
pub fn reorder_channels(data: &mut [u8], order: ColorOrder)
    ensures
        final(data)@ == reordered(old(data)@, order),
{
    let len = data.len();
    let end = len - len % 3;
    let ghost orig = data@;
    let mut i: usize = 0;
    while i < end
        invariant
            end == orig.len() - orig.len() % 3,
            end % 3 == 0,
            i % 3 == 0,
            i <= end,
            data@.len() == orig.len(),
            forall|j: int|
                0 <= j < i ==> data@[j] == #[trigger] reordered(orig, order)[j],
            forall|j: int| i <= j < orig.len() ==> data@[j] == #[trigger] orig[j],
        decreases end - i,
    {
        let c0 = data[i];
        let c1 = data[i + 1];
        let c2 = data[i + 2];
        match order {
            ColorOrder::Rgb => {},
            ColorOrder::Grb => {
                data[i] = c1;
                data[i + 1] = c0;
            },
            ColorOrder::Bgr => {
                data[i] = c2;
                data[i + 2] = c0;
            },
            ColorOrder::Rbg => {
                data[i + 1] = c2;
                data[i + 2] = c1;
            },
            ColorOrder::Brg => {
                data[i] = c2;
                data[i + 1] = c0;
                data[i + 2] = c1;
            },
            ColorOrder::Gbr => {
                data[i] = c1;
                data[i + 1] = c2;
                data[i + 2] = c0;
            },
        }
        proof {
            let r = reordered(orig, order);
            assert(i as int % 3 == 0);
            assert((i + 1) as int % 3 == 1);
            assert((i + 2) as int % 3 == 2);
            assert(data@[i as int] == r[i as int]);
            assert(data@[i + 1] == r[i + 1]);
            assert(data@[i + 2] == r[i + 2]);
        }
        i = i + 3;
    }
    assert(data@ =~= reordered(orig, order));
}

/// Convert the RGB byte order of `data` to the order named by `order`
/// (case-insensitive). An unknown name leaves `data` unchanged.
pub fn reorder_rgb(data: &mut [u8], order: &str)
    ensures
        final(data)@ == match order_named(str_to_uppercase(order@)) {
            Some(o) => reordered(old(data)@, o),
            None => old(data)@,
        },
        order.is_ascii() ==> final(data)@ == match order_named(ascii_uppercase(order@)) {
            Some(o) => reordered(old(data)@, o),
            None => old(data)@,
        },
{
    match ColorOrder::from_name(order) {
        Some(o) => reorder_channels(data, o),
        None => {},
    }
}

/// The order that undoes `o`: swapping two channels undoes itself, and the
/// two rotations undo each other.
pub open spec fn inverse_order(o: ColorOrder) -> ColorOrder {
    match o {
        ColorOrder::Brg => ColorOrder::Gbr,
        ColorOrder::Gbr => ColorOrder::Brg,
        _ => o,
    }
}

/// Reordering only moves bytes within each RGB triple: it keeps the length,
/// RGB changes nothing, and reordering by an order and then by its inverse
/// gives the original bytes back.
pub proof fn reorder_is_invertible(data: Seq<u8>, o: ColorOrder)
    ensures
        reordered(data, o).len() == data.len(),
        reordered(data, ColorOrder::Rgb) == data,
        reordered(reordered(data, o), inverse_order(o)) == data,
{
    let r = reordered(data, o);
    let back = reordered(r, inverse_order(o));
    let end = data.len() - data.len() % 3;
    assert forall|i: int| 0 <= i < data.len() implies back[i] == data[i] by {
        if i < end {
            let base = i - i % 3;
            let k = i % 3;
            let src = source_channel(inverse_order(o), k);
            assert(0 <= src < 3);
            assert(base + src < end) by {
                assert(base % 3 == 0);
                assert(end % 3 == 0);
            }
            assert((base + src) % 3 == src && (base + src) - (base + src) % 3 == base);
            assert(source_channel(o, src) == k);
        }
    }
    assert(back =~= data);
    assert(reordered(data, ColorOrder::Rgb) =~= data);
}

/// The LED `c` with its channels rearranged into order `o`: red, green and
/// blue now carry the channels that `o` puts first, second and third.
pub open spec fn reordered_led(c: Rgb, o: ColorOrder) -> Rgb {
    Rgb {
        r: channel(c, source_channel(o, 0)),
        g: channel(c, source_channel(o, 1)),
        b: channel(c, source_channel(o, 2)),
    }
}

/// The LED `c` after reordering by `order`, when an order was recognised,
/// and unchanged otherwise.
pub open spec fn led_reordered_by(c: Rgb, order: Option<ColorOrder>) -> Rgb {
    match order {
        Some(o) => reordered_led(c, o),
        None => c,
    }
}

/// The wire bytes of `leds` after reordering by `order`, when an order was
/// recognised, and unchanged otherwise.
pub open spec fn bytes_reordered_by(leds: Seq<Rgb>, order: Option<ColorOrder>) -> Seq<u8> {
    match order {
        Some(o) => reordered(led_bytes(leds), o),
        None => led_bytes(leds),
    }
}

/// The three reordered bytes of LED `i` make up the reordered LED.
proof fn lemma_led_from_reordered_bytes(leds: Seq<Rgb>, order: Option<ColorOrder>, i: int)
    requires
        0 <= i < leds.len(),
    ensures
        ({
            let b = bytes_reordered_by(leds, order);
            Rgb { r: b[3 * i], g: b[3 * i + 1], b: b[3 * i + 2] } == led_reordered_by(
                leds[i],
                order,
            )
        }),
{
    let lb = led_bytes(leds);
    let k = 3 * i;
    assert(lb.len() == 3 * leds.len());
    assert(k / 3 == i && (k + 1) / 3 == i && (k + 2) / 3 == i);
    assert(k % 3 == 0 && (k + 1) % 3 == 1 && (k + 2) % 3 == 2);
    assert((3 * leds.len()) % 3 == 0);
    match order {
        Some(o) => {
            let r = reordered(lb, o);
            assert(r[k] == lb[k + source_channel(o, 0)]);
            assert(r[k + 1] == lb[k + source_channel(o, 1)]);
            assert(r[k + 2] == lb[k + source_channel(o, 2)]);
        },
        None => {},
    }
}

/// Rearrange the channels of every LED into the order named by `order`
/// (case-insensitive), going through their wire bytes; an unknown name
/// leaves the LEDs unchanged.
pub fn reorder_leds(leds: &mut [Rgb], order: &str)
    requires
        3 * old(leds)@.len() <= usize::MAX,
    ensures
        final(leds)@.len() == old(leds)@.len(),
        forall|i: int|
            0 <= i < old(leds)@.len() ==> #[trigger] final(leds)@[i] == led_reordered_by(
                old(leds)@[i],
                order_named(str_to_uppercase(order@)),
            ),
        order.is_ascii() ==> forall|i: int|
            0 <= i < old(leds)@.len() ==> #[trigger] final(leds)@[i] == led_reordered_by(
                old(leds)@[i],
                order_named(ascii_uppercase(order@)),
            ),
{
    let n = leds.len();
    let mut bytes = leds_to_bytes(leds, n);
    let ghost orig = leds@;
    assert(orig.take(n as int) =~= orig);
    reorder_rgb(&mut bytes, order);
    let ghost out = bytes@;
    let ghost named = order_named(str_to_uppercase(order@));
    let ghost ascii_named = order_named(ascii_uppercase(order@));
    let mut i: usize = 0;
    while i < n
        invariant
            i <= n,
            n == orig.len(),
            3 * n <= usize::MAX,
            leds@.len() == n,
            bytes@ == out,
            out == bytes_reordered_by(orig, named),
            order.is_ascii() ==> out == bytes_reordered_by(orig, ascii_named),
            forall|j: int| 0 <= j < i ==> #[trigger] leds@[j] == led_reordered_by(orig[j], named),
            order.is_ascii() ==> forall|j: int|
                0 <= j < i ==> #[trigger] leds@[j] == led_reordered_by(orig[j], ascii_named),
        decreases n - i,
    {
        let k = 3 * i;
        leds[i] = Rgb { r: bytes[k], g: bytes[k + 1], b: bytes[k + 2] };
        proof {
            lemma_led_from_reordered_bytes(orig, named, i as int);
            lemma_led_from_reordered_bytes(orig, ascii_named, i as int);
        }
        i = i + 1;
    }
}

/// Gamma correction lookup table (gamma = 2.2): entry `i` is
/// 255 * (i / 255)^2.2, rounded to the nearest integer.
pub const GAMMA_LUT: [u8; 256] = [
    0, 0, 0, 0, 0, 0, 0, 0, 0, 0, 0, 0, 0, 0, 0, 1,
    1, 1, 1, 1, 1, 1, 1, 1, 1, 2, 2, 2, 2, 2, 2, 2,
    3, 3, 3, 3, 3, 4, 4, 4, 4, 5, 5, 5, 5, 6, 6, 6,
    6, 7, 7, 7, 8, 8, 8, 9, 9, 9, 10, 10, 11, 11, 11, 12,
    12, 13, 13, 13, 14, 14, 15, 15, 16, 16, 17, 17, 18, 18, 19, 19,
    20, 20, 21, 22, 22, 23, 23, 24, 25, 25, 26, 26, 27, 28, 28, 29,
    30, 30, 31, 32, 33, 33, 34, 35, 35, 36, 37, 38, 39, 39, 40, 41,
    42, 43, 43, 44, 45, 46, 47, 48, 49, 49, 50, 51, 52, 53, 54, 55,
    56, 57, 58, 59, 60, 61, 62, 63, 64, 65, 66, 67, 68, 69, 70, 71,
    73, 74, 75, 76, 77, 78, 79, 81, 82, 83, 84, 85, 87, 88, 89, 90,
    91, 93, 94, 95, 97, 98, 99, 100, 102, 103, 105, 106, 107, 109, 110, 111,
    113, 114, 116, 117, 119, 120, 121, 123, 124, 126, 127, 129, 130, 132, 133, 135,
    137, 138, 140, 141, 143, 145, 146, 148, 149, 151, 153, 154, 156, 158, 159, 161,
    163, 165, 166, 168, 170, 172, 173, 175, 177, 179, 181, 182, 184, 186, 188, 190,
    192, 194, 196, 197, 199, 201, 203, 205, 207, 209, 211, 213, 215, 217, 219, 221,
    223, 225, 227, 229, 231, 234, 236, 238, 240, 242, 244, 246, 248, 251, 253, 255,
];

/// Apply gamma correction using the lookup table.
pub fn gamma_correct(value: u8) -> (c: u8)
    ensures
        c == GAMMA_LUT[value as int],
{
    GAMMA_LUT[value as usize]
}

/// Gamma correction never brightens a value and keeps black and full
/// brightness fixed, and it keeps the order of brightness: a brighter input
/// never gives a darker output.
pub proof fn gamma_lut_darkens_monotonically(a: u8, b: u8)
    requires
        a <= b,
    ensures
        GAMMA_LUT[a as int] <= GAMMA_LUT[b as int],
        GAMMA_LUT[a as int] <= a,
        GAMMA_LUT[0] == 0,
        GAMMA_LUT[255] == 255,
{
}

} // verus!
