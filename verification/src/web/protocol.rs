//! Binary frame protocol of the WebSocket view.
use crate::effects::Rgb;
use crate::output::wire::{led_bytes, leds_to_bytes, push_bytes};
use vstd::prelude::*;

verus! {

/// Most mel band levels a frame carries.
pub const MAX_MEL_BANDS: usize = 255;

/// Mel band levels a frame carries out of `count`.
pub open spec fn mel_count(count: int) -> int {
    if count < MAX_MEL_BANDS {
        count
    } else {
        MAX_MEL_BANDS as int
    }
}

/// A frame: a flags byte (bit 0 = beat active), the number N of mel band
/// levels, N levels (each quantized to 0..=255), then three bytes per LED.
pub open spec fn frame_bytes(leds: Seq<Rgb>, mel_levels: Seq<u8>, beat: bool) -> Seq<u8> {
    let m = mel_count(mel_levels.len() as int);
    seq![if beat { 1u8 } else { 0u8 }, m as u8] + mel_levels.take(m) + led_bytes(leds)
}

/// Serialize a frame into `buf`, replacing its contents. `mel_levels` are
/// the mel band energies already quantized to bytes; only the first 255
/// are sent.
pub fn encode_frame(leds: &[Rgb], mel_levels: &[u8], beat: bool, buf: &mut Vec<u8>)
    requires
        3 * leds@.len() <= usize::MAX,
    ensures
        final(buf)@ == frame_bytes(leds@, mel_levels@, beat),
        final(buf)@.len() == 2 + mel_count(mel_levels@.len() as int) + 3 * leds@.len(),
        forall|i: int|
            0 <= i < leds@.len() ==> {
                let at = 2 + mel_count(mel_levels@.len() as int) + 3 * i;
                &&& final(buf)@[at] == (#[trigger] leds@[i]).r
                &&& final(buf)@[at + 1] == leds@[i].g
                &&& final(buf)@[at + 2] == leds@[i].b
            },
{
    let m = if mel_levels.len() < MAX_MEL_BANDS { mel_levels.len() } else { MAX_MEL_BANDS };
    buf.clear();
    buf.push(if beat { 1 } else { 0 });
    buf.push(m as u8);
    push_bytes(buf, &mel_levels[0..m]);
    let rgb = leds_to_bytes(leds, leds.len());
    push_bytes(buf, &rgb);
    assert(leds@.take(leds@.len() as int) =~= leds@);
    assert(buf@ =~= frame_bytes(leds@, mel_levels@, beat));
    proof {
        frame_layout(leds@, mel_levels@, beat);
    }
}

/// What the browser finds in a frame: byte 0 is 1 exactly when a beat is
/// active, byte 1 is the number `m` of levels sent (all of them, up to 255),
/// the next `m` bytes are the first `m` levels in order, and the rest is
/// three bytes per LED, red, green and blue, for every LED of the strip.
pub proof fn frame_layout(leds: Seq<Rgb>, mel_levels: Seq<u8>, beat: bool)
    ensures
        ({
            let f = frame_bytes(leds, mel_levels, beat);
            let m = if mel_levels.len() < 255 { mel_levels.len() as int } else { 255 };
            &&& f.len() == 2 + m + 3 * leds.len()
            &&& f[0] == (if beat { 1u8 } else { 0u8 })
            &&& f[1] == m
            &&& forall|j: int| 0 <= j < m ==> f[2 + j] == #[trigger] mel_levels[j]
            &&& forall|i: int|
                0 <= i < leds.len() ==> {
                    &&& f[2 + m + 3 * i] == (#[trigger] leds[i]).r
                    &&& f[2 + m + 3 * i + 1] == leds[i].g
                    &&& f[2 + m + 3 * i + 2] == leds[i].b
                }
        }),
{
    let f = frame_bytes(leds, mel_levels, beat);
    let m = mel_count(mel_levels.len() as int);
    let lb = led_bytes(leds);
    assert forall|i: int| 0 <= i < leds.len() implies {
        &&& f[2 + m + 3 * i] == (#[trigger] leds[i]).r
        &&& f[2 + m + 3 * i + 1] == leds[i].g
        &&& f[2 + m + 3 * i + 2] == leds[i].b
    } by {
        let k = 3 * i;
        assert(k / 3 == i && (k + 1) / 3 == i && (k + 2) / 3 == i);
        assert(k % 3 == 0 && (k + 1) % 3 == 1 && (k + 2) % 3 == 2);
        assert(f[2 + m + k] == lb[k]);
        assert(f[2 + m + k + 1] == lb[k + 1]);
        assert(f[2 + m + k + 2] == lb[k + 2]);
    }
}

} // verus!
