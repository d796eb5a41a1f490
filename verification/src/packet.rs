//! Wire format of one stream datagram.
//!
//! A datagram is exactly [`PACKET_SIZE`] bytes long: two bytes of frame
//! sequence number, two bytes of part number, and [`PAYLOAD_SIZE`] bytes of
//! the frame's compressed bitstream.

use vstd::prelude::*;

verus! {

/// Length of every datagram, in bytes.
pub const PACKET_SIZE: usize = 1024;

/// Length of the header in front of the payload.
pub const HEADER_SIZE: usize = 4;

/// Length of the payload carried by one datagram.
pub const PAYLOAD_SIZE: usize = 1020;

/// Weight of the high part byte. The sender composes the part number with
/// 255, not 256, and the receiver has to agree with it.
pub const PART_RADIX: u16 = 0xFF;

/// Largest part number that still belongs to the body of a frame. Any
/// larger part number marks the last datagram of its frame.
pub const TERMINAL_THRESHOLD: u16 = 0x4000;

/// What a datagram means to the reassembly of a frame.
#[derive(Clone, Copy, Debug, PartialEq, Eq, Structural)]
pub enum PacketKind {
    /// Part number zero: the first datagram of a new frame.
    FrameStart,
    /// Part number in `1..=TERMINAL_THRESHOLD`: more bytes of the frame.
    Continuation,
    /// Part number above `TERMINAL_THRESHOLD`: the last bytes of the frame.
    Terminal,
}

/// The part number that a datagram carries in bytes 2 and 3.
pub open spec fn part_of(packet: Seq<u8>) -> int {
    packet[2] as int * 0xFF + packet[3] as int
}

/// The payload of a datagram: everything behind the four header bytes.
pub open spec fn payload_of(packet: Seq<u8>) -> Seq<u8> {
    packet.subrange(HEADER_SIZE as int, PACKET_SIZE as int)
}

/// The kind of a datagram, decided by its part number alone.
pub open spec fn kind_of(packet: Seq<u8>) -> PacketKind {
    if part_of(packet) == 0 {
        PacketKind::FrameStart
    } else if part_of(packet) <= TERMINAL_THRESHOLD {
        PacketKind::Continuation
    } else {
        PacketKind::Terminal
    }
}

/// Reads the part number of a datagram.
pub fn part_number(packet: &[u8; PACKET_SIZE]) -> (part: u16)
    ensures
        part == part_of(packet@),
{
    let high: u16 = packet[2] as u16;
    let low: u16 = packet[3] as u16;
    high * PART_RADIX + low
}

/// Borrows the payload of a datagram.
pub fn payload(packet: &[u8; PACKET_SIZE]) -> (bytes: &[u8])
    ensures
        bytes@ == payload_of(packet@),
        bytes@.len() == PAYLOAD_SIZE,
{
    vstd::slice::slice_subrange(packet.as_slice(), HEADER_SIZE, PACKET_SIZE)
}

/// Classifies a datagram by its part number.
pub fn classify(packet: &[u8; PACKET_SIZE]) -> (kind: PacketKind)
    ensures
        kind == kind_of(packet@),
{
    let part: u16 = part_number(packet);
    if part == 0 {
        PacketKind::FrameStart
    } else if part <= TERMINAL_THRESHOLD {
        PacketKind::Continuation
    } else {
        PacketKind::Terminal
    }
}

} // verus!
