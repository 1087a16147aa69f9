//! Splitting a long LED strip across consecutive E1.31 universes.
use crate::effects::Rgb;
use crate::output::e131::{e131_packet_bytes, min_leds, E131Encoder, LEDS_PER_UNIVERSE};
use crate::output::wire::led_bytes;
use vstd::prelude::*;

verus! {

/// Number of universes a strip of `num_leds` LEDs needs (170 LEDs each).
pub open spec fn universes_for(num_leds: int) -> int {
    (num_leds + LEDS_PER_UNIVERSE - 1) / (LEDS_PER_UNIVERSE as int)
}

/// Universe number of the `i`-th universe counted from `base` (the index is
/// taken as a 16-bit value, as the sender numbers them).
pub open spec fn nth_universe(base: u16, i: int) -> int {
    base + i % 0x1_0000
}

/// The LEDs that universe `i` carries: LEDs 170i..170(i+1) of the frame.
pub open spec fn universe_chunk(leds: Seq<Rgb>, i: int) -> Seq<Rgb> {
    let start = i * LEDS_PER_UNIVERSE;
    let end = if start + LEDS_PER_UNIVERSE < leds.len() {
        start + LEDS_PER_UNIVERSE
    } else {
        leds.len() as int
    };
    leds.subrange(start, end)
}

/// Packet source for an LED strip spread over consecutive universes.
pub struct MultiUniverseOutput {
    encoders: Vec<E131Encoder>,
    base_universe: u16,
    leds_per_universe: usize,
}

impl MultiUniverseOutput {
    /// The encoders, one per universe, in order.
    pub closed spec fn spec_encoders(self) -> Seq<E131Encoder> {
        self.encoders@
    }

    /// First universe.
    pub closed spec fn spec_base_universe(self) -> u16 {
        self.base_universe
    }

    /// The strip layout is consistent.
    pub closed spec fn wf(self) -> bool {
        self.leds_per_universe == LEDS_PER_UNIVERSE
    }

    /// Encoders for enough consecutive universes, starting at
    /// `base_universe`, to carry `num_leds` LEDs, 170 per universe. Each
    /// encoder draws a random component identifier, so this panics if the
    /// operating system's random source fails.
    pub fn new(base_universe: u16, num_leds: usize) -> (m: Self)
        requires
            num_leds <= usize::MAX - LEDS_PER_UNIVERSE,
            forall|i: int|
                0 <= i < universes_for(num_leds as int) ==> nth_universe(base_universe, i)
                    <= u16::MAX,
        ensures
            m.wf(),
            m.spec_base_universe() == base_universe,
            m.spec_encoders().len() == universes_for(num_leds as int),
            forall|i: int|
                0 <= i < m.spec_encoders().len() ==> {
                    &&& (#[trigger] m.spec_encoders()[i]).spec_universe() == nth_universe(
                        base_universe,
                        i,
                    )
                    &&& m.spec_encoders()[i].spec_sequence() == 0
                },
    {
        let leds_per_universe = LEDS_PER_UNIVERSE;
        let num_universes = (num_leds + leds_per_universe - 1) / leds_per_universe;
        let mut encoders: Vec<E131Encoder> = Vec::with_capacity(num_universes);
        let mut i: usize = 0;
        while i < num_universes
            invariant
                i <= num_universes,
                num_universes == universes_for(num_leds as int),
                forall|j: int|
                    0 <= j < num_universes ==> nth_universe(base_universe, j) <= u16::MAX,
                encoders@.len() == i,
                forall|j: int|
                    0 <= j < i ==> {
                        &&& (#[trigger] encoders@[j]).spec_universe() == nth_universe(
                            base_universe,
                            j,
                        )
                        &&& encoders@[j].spec_sequence() == 0
                    },
            decreases num_universes - i,
        {
            assert(nth_universe(base_universe, i as int) <= u16::MAX);
            let offset = #[verifier::truncate] (i as u16);
            assert(offset == i % 0x1_0000) by (bit_vector)
                requires
                    offset == #[verifier::truncate] (i as u16),
            ;
            let universe = base_universe + offset;
            encoders.push(E131Encoder::new(universe));
            i = i + 1;
        }
        MultiUniverseOutput { encoders, base_universe, leds_per_universe }
    }

    /// The first universe.
    pub fn base_universe(&self) -> (u: u16)
        ensures
            u == self.spec_base_universe(),
    {
        self.base_universe
    }

    /// Number of universes.
    pub fn num_universes(&self) -> (n: usize)
        ensures
            n == self.spec_encoders().len(),
    {
        self.encoders.len()
    }

    /// Number of universes a frame of `num_leds` LEDs is sent on: one per
    /// chunk of 170 LEDs, as long as there are universes for them.
    pub fn frame_universes(&self, num_leds: usize) -> (n: usize)
        requires
            self.wf(),
        ensures
            n == if universes_for(num_leds as int) < self.spec_encoders().len() {
                universes_for(num_leds as int)
            } else {
                self.spec_encoders().len() as int
            },
    {
        let chunks = num_leds / self.leds_per_universe + if num_leds % self.leds_per_universe == 0 {
            0
        } else {
            1
        };
        if chunks < self.encoders.len() {
            chunks
        } else {
            self.encoders.len()
        }
    }

    /// The packet of universe `i` for the frame `leds`: its chunk of 170 LEDs,
    /// from that universe's encoder, whose sequence number advances.
    pub fn universe_packet(&mut self, i: usize, leds: &[Rgb]) -> (packet: Vec<u8>)
        requires
            old(self).wf(),
            i < old(self).spec_encoders().len(),
            i < universes_for(leds@.len() as int),
        ensures
            final(self).wf(),
            final(self).spec_base_universe() == old(self).spec_base_universe(),
            final(self).spec_encoders().len() == old(self).spec_encoders().len(),
            forall|j: int|
                0 <= j < final(self).spec_encoders().len() && j != i ==> #[trigger] final(self).spec_encoders()[j] == old(self).spec_encoders()[j],
            final(self).spec_encoders()[i as int].spec_universe() == old(self).spec_encoders()[i as int].spec_universe(),
            final(self).spec_encoders()[i as int].spec_cid() == old(self).spec_encoders()[i as int].spec_cid(),
            final(self).spec_encoders()[i as int].spec_sequence() == old(self).spec_encoders()[i as int].spec_sequence().wrapping_add(1),
            packet@ == e131_packet_bytes(
                old(self).spec_encoders()[i as int].spec_cid(),
                old(self).spec_encoders()[i as int].spec_universe(),
                final(self).spec_encoders()[i as int].spec_sequence(),
                led_bytes(universe_chunk(leds@, i as int)),
            ),
    {
        assert(i * 170 < leds@.len()) by (nonlinear_arith)
            requires
                i < (leds@.len() + 169) / 170,
        ;
        let len = leds.len();
        assert(i * LEDS_PER_UNIVERSE < len);
        let start = i * LEDS_PER_UNIVERSE;
        let end = if leds.len() - start > LEDS_PER_UNIVERSE {
            start + LEDS_PER_UNIVERSE
        } else {
            leds.len()
        };
        let chunk = &leds[start..end];
        let ghost c = chunk@;
        assert(c.take(min_leds(c.len() as int)) =~= c);
        let mut enc = self.encoders.remove(i);
        let packet = enc.next_packet(chunk);
        self.encoders.insert(i, enc);
        packet
    }
}

/// The universes split a frame without gaps or overlap: LED `j` is sent in
/// universe `j / 170` at position `j % 170`, and every universe used carries
/// 170 LEDs except the last, which carries the rest (at least one).
pub proof fn universe_chunks_cover_frame(leds: Seq<Rgb>)
    ensures
        forall|j: int|
            0 <= j < leds.len() ==> {
                &&& 0 <= j / 170 < universes_for(leds.len() as int)
                &&& universe_chunk(leds, j / 170)[j % 170] == #[trigger] leds[j]
            },
        forall|i: int|
            0 <= i < universes_for(leds.len() as int) ==> {
                let c = #[trigger] universe_chunk(leds, i);
                &&& 1 <= c.len() <= 170
                &&& i < universes_for(leds.len() as int) - 1 ==> c.len() == 170
            },
{
    let len = leds.len() as int;
    let count = universes_for(len);
    assert(count == (len + 169) / 170);
    assert forall|i: int| 0 <= i < count implies {
        let c = #[trigger] universe_chunk(leds, i);
        &&& 1 <= c.len() <= 170
        &&& i < count - 1 ==> c.len() == 170
    } by {
        assert(170 * i < len) by (nonlinear_arith)
            requires
                0 <= i < count,
                count == (len + 169) / 170,
        ;
        if i < count - 1 {
            assert(170 * i + 170 <= len) by (nonlinear_arith)
                requires
                    0 <= i < count - 1,
                    count == (len + 169) / 170,
            ;
        }
    }
    assert forall|j: int| 0 <= j < len implies {
        &&& 0 <= j / 170 < count
        &&& universe_chunk(leds, j / 170)[j % 170] == #[trigger] leds[j]
    } by {
        let i = j / 170;
        assert(0 <= i && 170 * i <= j && j < 170 * i + 170) by (nonlinear_arith)
            requires
                0 <= j,
                i == j / 170,
        ;
        assert(i < count) by (nonlinear_arith)
            requires
                170 * i <= j,
                j < len,
                count == (len + 169) / 170,
                0 <= i,
        ;
        assert(j % 170 == j - 170 * i);
    }
}

} // verus!
