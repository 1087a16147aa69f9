//! DDP (Distributed Display Protocol) packets.
//!
//! DDP carries LED data over UDP with a ten-byte header. A frame larger than
//! one packet is split into fragments; the last fragment carries the PUSH
//! flag, which tells the receiver to show the frame.
use crate::effects::Rgb;
use crate::output::wire::{be16, be32, led_bytes, push_be16, push_be32, push_bytes, leds_to_bytes};
use vstd::prelude::*;

verus! {

/// DDP port.
pub const DDP_PORT: u16 = 4048;

/// DDP header size.
pub const DDP_HEADER_SIZE: usize = 10;

/// Maximum data per packet (a value that is safe for a typical MTU).
pub const DDP_MAX_DATA: usize = 1440;

/// Header flag: protocol version 1.
pub const FLAG_VER1: u8 = 0x40;

/// Header flag: last packet of a frame; show the data now.
pub const FLAG_PUSH: u8 = 0x01;

/// Data type: RGB, eight bits per channel.
pub const DATATYPE_RGB: u8 = 0x01;

/// LEDs that fit in one packet.
pub const DDP_MAX_LEDS_PER_PACKET: usize = DDP_MAX_DATA / 3;

/// Data bytes carried by a packet built from `data`.
pub open spec fn ddp_data_len(data: Seq<u8>) -> int {
    if data.len() < DDP_MAX_DATA {
        data.len() as int
    } else {
        DDP_MAX_DATA as int
    }
}

/// A DDP packet: flags (version 1, with PUSH on the last packet of a
/// frame), sequence number, data type RGB, device 0 (broadcast), the data
/// offset and length big-endian, then the data (at most 1440 bytes).
pub open spec fn ddp_packet_bytes(data: Seq<u8>, offset: u32, is_last: bool, sequence: u8) -> Seq<u8> {
    let n = ddp_data_len(data);
    seq![if is_last { (FLAG_VER1 + FLAG_PUSH) as u8 } else { FLAG_VER1 }, sequence, DATATYPE_RGB, 0u8]
        + be32(offset) + be16(n as u16) + data.take(n)
}

/// Number of packets a frame of `num_leds` LEDs is split into.
pub open spec fn ddp_packet_count(num_leds: int) -> int {
    (num_leds + DDP_MAX_LEDS_PER_PACKET - 1) / (DDP_MAX_LEDS_PER_PACKET as int)
}

/// Packet `k` of the frame `leds`: the bytes of LEDs 480k..480(k+1), at byte
/// offset 1440k (as a 32-bit value), PUSH on the last packet.
pub open spec fn ddp_frame_packet(leds: Seq<Rgb>, sequence: u8, k: int) -> Seq<u8> {
    let bytes = led_bytes(leds);
    let start = k * DDP_MAX_DATA;
    let end = if start + DDP_MAX_DATA < bytes.len() { start + DDP_MAX_DATA } else { bytes.len() as int };
    ddp_packet_bytes(
        bytes.subrange(start, end),
        (k * DDP_MAX_DATA) as u32,
        k == ddp_packet_count(leds.len() as int) - 1,
        sequence,
    )
}

/// Build one DDP packet from `data` (at most its first 1440 bytes).
pub fn ddp_packet(data: &[u8], offset: u32, is_last: bool, sequence: u8) -> (packet: Vec<u8>)
    ensures
        packet@ == ddp_packet_bytes(data@, offset, is_last, sequence),
        packet@.len() == DDP_HEADER_SIZE + ddp_data_len(data@),
        packet@.subrange(8, 10) == be16((packet@.len() - DDP_HEADER_SIZE) as u16),
{
    let n = if data.len() < DDP_MAX_DATA { data.len() } else { DDP_MAX_DATA };
    let mut packet: Vec<u8> = Vec::with_capacity(DDP_HEADER_SIZE + n);
    let flags = if is_last { FLAG_VER1 | FLAG_PUSH } else { FLAG_VER1 };
    assert((FLAG_VER1 | FLAG_PUSH) == FLAG_VER1 + FLAG_PUSH) by (bit_vector);
    packet.push(flags);
    packet.push(sequence);
    packet.push(DATATYPE_RGB);
    packet.push(0);
    push_be32(&mut packet, offset);
    push_be16(&mut packet, n as u16);
    push_bytes(&mut packet, &data[0..n]);
    assert(packet@ =~= ddp_packet_bytes(data@, offset, is_last, sequence));
    assert(packet@.subrange(8, 10) =~= be16(n as u16));
    packet
}

/// DDP packet source: keeps the sequence number of the frames.
pub struct DdpEncoder {
    sequence: u8,
}

impl DdpEncoder {
    /// Sequence number the next frame carries.
    pub closed spec fn spec_sequence(self) -> u8 {
        self.sequence
    }

    /// A new encoder; frames start at sequence number 0.
    pub fn new() -> (e: Self)
        ensures
            e.spec_sequence() == 0,
    {
        DdpEncoder { sequence: 0 }
    }

    /// The packets of one frame, split into fragments of at most 480 LEDs.
    pub fn frame_packets(&self, leds: &[Rgb]) -> (packets: Vec<Vec<u8>>)
        requires
            3 * leds@.len() <= usize::MAX,
        ensures
            packets@.len() == ddp_packet_count(leds@.len() as int),
            forall|k: int|
                0 <= k < packets@.len() ==> #[trigger] packets@[k]@ == ddp_frame_packet(
                    leds@,
                    self.spec_sequence(),
                    k,
                ),
            forall|k: int|
                0 <= k < packets@.len() ==> (#[trigger] packets@[k]@).subrange(8, 10) == be16(
                    (packets@[k]@.len() - DDP_HEADER_SIZE) as u16,
                ),
    {
        let total = leds.len() * 3;
        let bytes = leds_to_bytes(leds, leds.len());
        assert(leds@.take(leds@.len() as int) =~= leds@);
        let count = leds.len() / DDP_MAX_LEDS_PER_PACKET
            + if leds.len() % DDP_MAX_LEDS_PER_PACKET == 0 { 0 } else { 1 };
        assert(count == ddp_packet_count(leds@.len() as int));
        let mut packets: Vec<Vec<u8>> = Vec::new();
        let mut k: usize = 0;
        while k < count
            invariant
                k <= count,
                count == ddp_packet_count(leds@.len() as int),
                total == 3 * leds@.len(),
                bytes@ == led_bytes(leds@),
                packets@.len() == k,
                forall|j: int|
                    0 <= j < k ==> #[trigger] packets@[j]@ == ddp_frame_packet(
                        leds@,
                        self.sequence,
                        j,
                    ),
                forall|j: int|
                    0 <= j < k ==> (#[trigger] packets@[j]@).subrange(8, 10) == be16(
                        (packets@[j]@.len() - DDP_HEADER_SIZE) as u16,
                    ),
            decreases count - k,
        {
            assert(k * 480 < leds@.len() && k * 1440 < total) by (nonlinear_arith)
                requires
                    k < count,
                    count == (leds@.len() + 479) / 480,
                    total == 3 * leds@.len(),
            ;
            let start = k * DDP_MAX_DATA;
            let end = if total - start > DDP_MAX_DATA { start + DDP_MAX_DATA } else { total };
            let offset = #[verifier::truncate] (start as u32);
            let packet = ddp_packet(&bytes[start..end], offset, k == count - 1, self.sequence);
            packets.push(packet);
            k = k + 1;
        }
        packets
    }

    /// Advance the sequence number (wrapping) once a frame has been sent.
    pub fn frame_sent(&mut self)
        ensures
            final(self).spec_sequence() == old(self).spec_sequence().wrapping_add(1),
    {
        self.sequence = self.sequence.wrapping_add(1);
    }
}

/// Fragmentation loses and duplicates nothing: a receiver that copies each
/// packet's data to the offset in its header rebuilds the frame. Every byte
/// `b` of the frame's RGB data is carried by packet `b / 1440` at data
/// position `b % 1440`; each packet carries 1440 bytes except the last,
/// which carries the rest; every packet's length field is the number of data
/// bytes it carries; offsets are 1440 times the packet index; every packet
/// carries the frame's sequence number, data type RGB and device 0; and only
/// the last packet has the PUSH flag.
pub proof fn ddp_frame_reassembles(leds: Seq<Rgb>, sequence: u8)
    requires
        3 * leds.len() <= u32::MAX,
    ensures
        forall|b: int|
            0 <= b < 3 * leds.len() ==> {
                &&& 0 <= b / 1440 < ddp_packet_count(leds.len() as int)
                &&& (#[trigger] led_bytes(leds)[b]) == ddp_frame_packet(leds, sequence, b / 1440)[10
                    + b % 1440]
            },
        forall|k: int|
            0 <= k < ddp_packet_count(leds.len() as int) ==> {
                let p = #[trigger] ddp_frame_packet(leds, sequence, k);
                &&& p.len() == 10 + if k == ddp_packet_count(leds.len() as int) - 1 {
                    3 * leds.len() - 1440 * k
                } else {
                    1440
                }
                &&& p.subrange(4, 8) == be32((1440 * k) as u32)
                &&& p.subrange(8, 10) == be16((p.len() - 10) as u16)
                &&& p[1] == sequence
                &&& p[2] == DATATYPE_RGB
                &&& p[3] == 0
                &&& p[0] == if k == ddp_packet_count(leds.len() as int) - 1 {
                    FLAG_VER1 + FLAG_PUSH
                } else {
                    FLAG_VER1 as int
                }
            },
{
    let len = leds.len() as int;
    let total = 3 * len;
    let count = ddp_packet_count(len);
    let bytes = led_bytes(leds);
    assert(count == (len + 479) / 480);
    assert forall|k: int| 0 <= k < count implies {
        let p = #[trigger] ddp_frame_packet(leds, sequence, k);
        &&& p.len() == 10 + if k == count - 1 { total - 1440 * k } else { 1440 }
        &&& p.subrange(4, 8) == be32((1440 * k) as u32)
        &&& p.subrange(8, 10) == be16((p.len() - 10) as u16)
        &&& p[1] == sequence
        &&& p[2] == DATATYPE_RGB
        &&& p[3] == 0
        &&& p[0] == if k == count - 1 { FLAG_VER1 + FLAG_PUSH } else { FLAG_VER1 as int }
    } by {
        assert(480 * k < len) by (nonlinear_arith)
            requires
                0 <= k < count,
                count == (len + 479) / 480,
        ;
        assert(k == count - 1 <==> 1440 * k + 1440 >= total) by (nonlinear_arith)
            requires
                0 <= k < count,
                count == (len + 479) / 480,
                total == 3 * len,
                len >= 0,
        ;
        let p = ddp_frame_packet(leds, sequence, k);
        assert(p.subrange(4, 8) =~= be32((1440 * k) as u32));
        assert(p.subrange(8, 10) =~= be16((p.len() - 10) as u16));
    }
    assert forall|b: int| 0 <= b < total implies {
        &&& 0 <= b / 1440 < count
        &&& (#[trigger] led_bytes(leds)[b]) == ddp_frame_packet(leds, sequence, b / 1440)[10 + b
            % 1440]
    } by {
        let k = b / 1440;
        assert(0 <= k && 1440 * k <= b && b < 1440 * k + 1440) by (nonlinear_arith)
            requires
                0 <= b,
                k == b / 1440,
        ;
        assert(k < count) by (nonlinear_arith)
            requires
                1440 * k <= b,
                b < total,
                total == 3 * len,
                count == (len + 479) / 480,
                0 <= k,
        ;
        assert(b % 1440 == b - 1440 * k);
        let start = k * 1440;
        let end = if start + 1440 < total { start + 1440 } else { total };
        let data = bytes.subrange(start, end);
        assert(ddp_data_len(data) == end - start);
        assert(data[b - start] == bytes[b]);
    }
}

} // verus!
