//! Art-Net (ArtDmx) packets.
use crate::effects::Rgb;
use crate::output::wire::{be16, le16, led_bytes, leds_to_bytes, push_be16, push_bytes, push_le16, push_zeros, zeros};
use vstd::prelude::*;

verus! {

/// Art-Net port.
pub const ARTNET_PORT: u16 = 6454;

/// ArtDmx header size.
pub const ARTNET_HEADER_SIZE: usize = 18;

/// Art-Net packet identifier, "Art-Net" and a zero byte.
pub open spec fn artnet_id() -> Seq<u8> {
    seq![0x41u8, 0x72, 0x74, 0x2d, 0x4e, 0x65, 0x74, 0x00]
}

/// DMX bytes an ArtDmx packet carries for `num_leds` LEDs: three per LED, at
/// most 512.
pub open spec fn artnet_data_len(num_leds: int) -> int {
    if 3 * num_leds < 512 {
        3 * num_leds
    } else {
        512
    }
}

/// An ArtDmx packet: identifier, opcode field (the bytes of 0x0050,
/// little-endian), protocol version 14, sequence number, physical port 0,
/// universe little-endian, data length big-endian, then the RGB bytes of as
/// many whole LEDs as fit, zero-padded to the data length.
pub open spec fn artnet_packet_bytes(leds: Seq<Rgb>, universe: u16, sequence: u8) -> Seq<u8> {
    let n = artnet_data_len(leds.len() as int);
    artnet_id() + le16(0x0050) + seq![0x00u8, 14u8, sequence, 0u8] + le16(universe) + be16(
        n as u16,
    ) + led_bytes(leds.take(n / 3)) + zeros((n - 3 * (n / 3)) as nat)
}

/// Art-Net packet source for one universe: keeps the sequence number.
pub struct ArtNetEncoder {
    universe: u16,
    sequence: u8,
}

impl ArtNetEncoder {
    /// Universe the packets are for.
    pub closed spec fn spec_universe(self) -> u16 {
        self.universe
    }

    /// Sequence number the next packet carries.
    pub closed spec fn spec_sequence(self) -> u8 {
        self.sequence
    }

    /// A new encoder for `universe`, starting at sequence number 0.
    pub fn new(universe: u16) -> (e: Self)
        ensures
            e.spec_universe() == universe,
            e.spec_sequence() == 0,
    {
        ArtNetEncoder { universe, sequence: 0 }
    }

    /// The ArtDmx packet for `leds`.
    pub fn packet(&self, leds: &[Rgb]) -> (packet: Vec<u8>)
        requires
            3 * leds@.len() <= usize::MAX,
        ensures
            packet@ == artnet_packet_bytes(leds@, self.spec_universe(), self.spec_sequence()),
    {
        let total = leds.len() * 3;
        let n = if total < 512 { total } else { 512 };
        let mut p: Vec<u8> = Vec::with_capacity(ARTNET_HEADER_SIZE + n);
        let id: [u8; 8] = [0x41, 0x72, 0x74, 0x2d, 0x4e, 0x65, 0x74, 0x00];
        assert(id@ =~= artnet_id());
        push_bytes(&mut p, &id);
        push_le16(&mut p, 0x0050);
        p.push(0x00);
        p.push(14);
        p.push(self.sequence);
        p.push(0);
        push_le16(&mut p, self.universe);
        push_be16(&mut p, n as u16);
        let data = leds_to_bytes(leds, n / 3);
        push_bytes(&mut p, &data);
        push_zeros(&mut p, n - 3 * (n / 3));
        assert(p@ =~= artnet_packet_bytes(leds@, self.universe, self.sequence));
        p
    }

    /// Advance the sequence number (wrapping) once a packet has been sent.
    pub fn packet_sent(&mut self)
        ensures
            final(self).spec_universe() == old(self).spec_universe(),
            final(self).spec_sequence() == old(self).spec_sequence().wrapping_add(1),
    {
        self.sequence = self.sequence.wrapping_add(1);
    }
}

} // verus!
