//! E1.31 (sACN) packets.
//!
//! An E1.31 data packet carries one DMX universe of at most 512 channels
//! after a 126-byte header made of the root, framing and DMP layers.
use crate::effects::Rgb;
use crate::output::wire::{be16, be32, led_bytes, leds_to_bytes, push_be16, push_be32, push_bytes, push_zeros, zeros};
use crate::util::chars_of;
use uuid::Uuid;
use vstd::prelude::*;

verus! {

/// E1.31 packet header size.
pub const E131_HEADER_SIZE: usize = 126;

/// Maximum DMX data size.
pub const DMX_MAX_SIZE: usize = 512;

/// E1.31 port.
pub const E131_PORT: u16 = 5568;

/// RGB LEDs that fit in one universe (510 of the 512 channels).
pub const LEDS_PER_UNIVERSE: usize = 170;

/// Priority sent in every packet.
pub const E131_PRIORITY: u8 = 100;

/// Calls `uuid::Uuid::new_v4` and takes its bytes. The bytes are random
/// apart from the version and variant bits that the crate sets: the high
/// nibble of byte 6 is 4 (random UUID) and the two high bits of byte 8 are
/// 10 (RFC 4122 variant). Nothing else is stated. (The crate panics if the
/// system's random source fails.)
#[verifier::external_body]
fn new_cid() -> (cid: [u8; 16])
    ensures
        cid@[6] / 16 == 4,
        cid@[8] / 64 == 2,
{
    Uuid::new_v4().into_bytes()
}

/// ACN packet identifier, "ASC-E1.17" padded with zeros to twelve bytes.
pub open spec fn acn_packet_id() -> Seq<u8> {
    seq![0x41u8, 0x53, 0x43, 0x2d, 0x45, 0x31, 0x2e, 0x31, 0x37, 0, 0, 0]
}

/// Source name field: "RustyLights" padded with zeros to 64 bytes.
pub open spec fn source_name_field() -> Seq<u8> {
    seq![0x52u8, 0x75, 0x73, 0x74, 0x79, 0x4c, 0x69, 0x67, 0x68, 0x74, 0x73] + zeros(53)
}

/// A PDU's flags-and-length field: flags 0x7 in the high four bits, the
/// length in the low twelve.
pub open spec fn flags_and_length(len: int) -> u16 {
    (0x7000 + len) as u16
}

/// DMX bytes a packet carries for `data`: at most 512.
pub open spec fn dmx_len(data: Seq<u8>) -> int {
    if data.len() < DMX_MAX_SIZE {
        data.len() as int
    } else {
        DMX_MAX_SIZE as int
    }
}

/// An E1.31 data packet from the component `cid` for `universe`, with
/// sequence number `sequence`, carrying (at most the first 512 bytes of)
/// `data` after the DMX start code 0.
pub open spec fn e131_packet_bytes(cid: Seq<u8>, universe: u16, sequence: u8, data: Seq<u8>) -> Seq<u8> {
    let n = dmx_len(data);
    let plen = E131_HEADER_SIZE + n;
    be16(0x0010) + be16(0) + acn_packet_id() + be16(flags_and_length(plen - 16)) + be32(4) + cid
        + be16(flags_and_length(plen - 38)) + be32(2) + source_name_field() + seq![E131_PRIORITY]
        + be16(0) + seq![sequence, 0u8] + be16(universe) + be16(flags_and_length(plen - 115))
        + seq![0x02u8, 0xa1u8] + be16(0) + be16(1) + be16((n + 1) as u16) + seq![0u8] + data.take(n)
}

/// Multicast group of a universe: 239.255.{high byte}.{low byte}.
pub open spec fn multicast_group(universe: u16) -> Seq<u8> {
    seq![239u8, 255u8, (universe / 256) as u8, (universe % 256) as u8]
}

/// Whether `target` asks for multicast output: it is "multicast" or starts
/// with "239.255.".
pub open spec fn names_multicast(target: Seq<char>) -> bool {
    target == seq!['m', 'u', 'l', 't', 'i', 'c', 'a', 's', 't'] || (target.len() >= 8
        && target.take(8) == seq!['2', '3', '9', '.', '2', '5', '5', '.'])
}

/// The multicast address of a universe.
pub fn universe_to_multicast(universe: u16) -> (addr: [u8; 4])
    ensures
        addr@ == multicast_group(universe),
{
    let addr = [239u8, 255u8, (universe / 256) as u8, (universe % 256) as u8];
    assert(addr@ =~= multicast_group(universe));
    addr
}

/// The multicast address to send to when `target` asks for multicast
/// ("multicast" or an address in 239.255.x.x, for which the universe's own
/// group is used); `None` when `target` is to be taken as a unicast address.
pub fn multicast_target(target: &str, universe: u16) -> (addr: Option<[u8; 4]>)
    ensures
        names_multicast(target@) ==> (addr matches Some(a) && a@ == multicast_group(universe)),
        !names_multicast(target@) ==> addr is None,
{
    let t = chars_of(target);
    let is_word = t.len() == 9 && t[0] == 'm' && t[1] == 'u' && t[2] == 'l' && t[3] == 't'
        && t[4] == 'i' && t[5] == 'c' && t[6] == 'a' && t[7] == 's' && t[8] == 't';
    let is_prefix = t.len() >= 8 && t[0] == '2' && t[1] == '3' && t[2] == '9' && t[3] == '.'
        && t[4] == '2' && t[5] == '5' && t[6] == '5' && t[7] == '.';
    proof {
        if t@.len() == 9 {
            assert(is_word == (t@ =~= seq!['m', 'u', 'l', 't', 'i', 'c', 'a', 's', 't']));
        }
        if t@.len() >= 8 {
            assert(is_prefix == (t@.take(8) =~= seq!['2', '3', '9', '.', '2', '5', '5', '.']));
        }
    }
    if is_word || is_prefix {
        Some(universe_to_multicast(universe))
    } else {
        None
    }
}

/// Build an E1.31 data packet.
pub fn e131_packet(cid: &[u8; 16], universe: u16, sequence: u8, data: &[u8]) -> (packet: Vec<u8>)
    ensures
        packet@ == e131_packet_bytes(cid@, universe, sequence, data@),
{
    let n = if data.len() < DMX_MAX_SIZE { data.len() } else { DMX_MAX_SIZE };
    let plen = E131_HEADER_SIZE + n;
    let mut p: Vec<u8> = Vec::with_capacity(plen);
    // Root layer
    push_be16(&mut p, 0x0010);
    push_be16(&mut p, 0x0000);
    let acn: [u8; 12] = [0x41, 0x53, 0x43, 0x2d, 0x45, 0x31, 0x2e, 0x31, 0x37, 0, 0, 0];
    assert(acn@ =~= acn_packet_id());
    push_bytes(&mut p, &acn);
    push_be16(&mut p, (0x7000 + (plen - 16)) as u16);
    push_be32(&mut p, 0x0000_0004);
    push_bytes(&mut p, cid);
    // Framing layer
    push_be16(&mut p, (0x7000 + (plen - 38)) as u16);
    push_be32(&mut p, 0x0000_0002);
    let name: [u8; 11] = [0x52, 0x75, 0x73, 0x74, 0x79, 0x4c, 0x69, 0x67, 0x68, 0x74, 0x73];
    push_bytes(&mut p, &name);
    push_zeros(&mut p, 53);
    p.push(E131_PRIORITY);
    push_be16(&mut p, 0x0000);
    p.push(sequence);
    p.push(0x00);
    push_be16(&mut p, universe);
    // DMP layer
    push_be16(&mut p, (0x7000 + (plen - 115)) as u16);
    p.push(0x02);
    p.push(0xa1);
    push_be16(&mut p, 0x0000);
    push_be16(&mut p, 0x0001);
    push_be16(&mut p, (n + 1) as u16);
    p.push(0x00);
    push_bytes(&mut p, &data[0..n]);
    assert(name@ + zeros(53) =~= source_name_field());
    assert(p@ =~= e131_packet_bytes(cid@, universe, sequence, data@));
    p
}

/// E1.31 packet source for one universe: keeps the component identifier
/// and the sequence number.
pub struct E131Encoder {
    cid: [u8; 16],
    universe: u16,
    sequence: u8,
}

impl E131Encoder {
    /// Component identifier sent in every packet.
    pub closed spec fn spec_cid(self) -> Seq<u8> {
        self.cid@
    }

    /// Universe the packets are for.
    pub closed spec fn spec_universe(self) -> u16 {
        self.universe
    }

    /// Sequence number of the last packet (0 before the first).
    pub closed spec fn spec_sequence(self) -> u8 {
        self.sequence
    }

    /// A new encoder for `universe`, with a fresh random (version 4)
    /// component identifier. Like `uuid::Uuid::new_v4`, which draws the
    /// identifier, it panics if the operating system's random source fails.
    pub fn new(universe: u16) -> (e: Self)
        ensures
            e.spec_universe() == universe,
            e.spec_sequence() == 0,
            e.spec_cid().len() == 16,
            e.spec_cid()[6] / 16 == 4,
            e.spec_cid()[8] / 64 == 2,
    {
        E131Encoder { cid: new_cid(), universe, sequence: 0 }
    }

    /// The universe.
    pub fn universe(&self) -> (u: u16)
        ensures
            u == self.spec_universe(),
    {
        self.universe
    }

    /// Advance the sequence number (wrapping) and build the packet carrying
    /// `dmx_data` (at most 512 bytes of it).
    pub fn next_dmx_packet(&mut self, dmx_data: &[u8]) -> (packet: Vec<u8>)
        ensures
            final(self).spec_sequence() == old(self).spec_sequence().wrapping_add(1),
            final(self).spec_cid() == old(self).spec_cid(),
            final(self).spec_universe() == old(self).spec_universe(),
            packet@ == e131_packet_bytes(
                old(self).spec_cid(),
                old(self).spec_universe(),
                final(self).spec_sequence(),
                dmx_data@,
            ),
    {
        self.sequence = self.sequence.wrapping_add(1);
        e131_packet(&self.cid, self.universe, self.sequence, dmx_data)
    }

    /// Advance the sequence number and build the packet for the first 170 of
    /// `leds`, as RGB triples.
    pub fn next_packet(&mut self, leds: &[Rgb]) -> (packet: Vec<u8>)
        ensures
            final(self).spec_sequence() == old(self).spec_sequence().wrapping_add(1),
            final(self).spec_cid() == old(self).spec_cid(),
            final(self).spec_universe() == old(self).spec_universe(),
            packet@ == e131_packet_bytes(
                old(self).spec_cid(),
                old(self).spec_universe(),
                final(self).spec_sequence(),
                led_bytes(leds@.take(min_leds(leds@.len() as int))),
            ),
    {
        let n = if leds.len() < LEDS_PER_UNIVERSE { leds.len() } else { LEDS_PER_UNIVERSE };
        let dmx = leds_to_bytes(leds, n);
        self.next_dmx_packet(&dmx)
    }
}

/// What a receiver finds in a packet: 126 header bytes followed by the DMX
/// data; the three PDU length fields each count the bytes from their own
/// position to the end of the packet; the component identifier, sequence
/// number and universe sit at their fixed offsets; the property count is the
/// data length plus the start code, and the start code is 0.
pub proof fn e131_packet_layout(cid: Seq<u8>, universe: u16, sequence: u8, data: Seq<u8>)
    requires
        cid.len() == 16,
    ensures
        ({
            let p = e131_packet_bytes(cid, universe, sequence, data);
            let n = dmx_len(data);
            &&& p.len() == E131_HEADER_SIZE + n
            &&& p.subrange(126, 126 + n) == data.take(n)
            &&& p.subrange(16, 18) == be16(flags_and_length(p.len() - 16))
            &&& p.subrange(38, 40) == be16(flags_and_length(p.len() - 38))
            &&& p.subrange(115, 117) == be16(flags_and_length(p.len() - 115))
            &&& p.subrange(22, 38) == cid
            &&& p[111] == sequence
            &&& p.subrange(113, 115) == be16(universe)
            &&& p.subrange(123, 125) == be16((n + 1) as u16)
            &&& p[125] == 0
        }),
{
    let p = e131_packet_bytes(cid, universe, sequence, data);
    let n = dmx_len(data);
    assert(p.len() == E131_HEADER_SIZE + n);
    assert(p.subrange(126, 126 + n) =~= data.take(n));
    assert(p.subrange(16, 18) =~= be16(flags_and_length(p.len() - 16)));
    assert(p.subrange(38, 40) =~= be16(flags_and_length(p.len() - 38)));
    assert(p.subrange(115, 117) =~= be16(flags_and_length(p.len() - 115)));
    assert(p.subrange(22, 38) =~= cid);
    assert(p.subrange(113, 115) =~= be16(universe));
    assert(p.subrange(123, 125) =~= be16((n + 1) as u16));
}

/// Universes get distinct multicast groups.
pub proof fn multicast_groups_distinct(u1: u16, u2: u16)
    requires
        u1 != u2,
    ensures
        multicast_group(u1) != multicast_group(u2),
{
    if multicast_group(u1) == multicast_group(u2) {
        assert(multicast_group(u1)[2] == multicast_group(u2)[2]);
        assert(multicast_group(u1)[3] == multicast_group(u2)[3]);
    }
}

/// LEDs of a frame that one universe carries.
pub open spec fn min_leds(len: int) -> int {
    if len < LEDS_PER_UNIVERSE {
        len
    } else {
        LEDS_PER_UNIVERSE as int
    }
}

} // verus!
