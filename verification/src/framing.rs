//! Packets on a byte stream.
//!
//! A packet travels as the `VarInt` of its length in bytes followed by its
//! bytes. The codec gathers the bytes received and hands out each packet
//! once all of it has come.

use crate::wire::{read_var_int, var_int_at, var_int_bytes, write_var_int};
use vstd::prelude::*;

verus! {

/// The length from which on packets are compressed.
pub type CompressionThreshold = usize;

/// State to serialize and deserialize packets from a byte stream.
pub struct MinecraftCodec {
    /// If compression is enabled, then this is the compression threshold.
    compression: Option<CompressionThreshold>,
    /// A buffer of received bytes.
    received_buf: Vec<u8>,
}

/// The frame of a packet: its length, then its bytes.
pub open spec fn frame(packet: Seq<u8>) -> Seq<u8> {
    var_int_bytes(packet.len()) + packet
}

/// The first packet among the bytes received, with the number of bytes
/// that it takes with its length. There is none where the bytes do not
/// begin with a `VarInt` or fewer bytes have come than it tells.
pub open spec fn first_packet(received: Seq<u8>) -> Option<(Seq<u8>, int)> {
    match var_int_at(received, 0) {
        Some((length, start)) => if 0 <= length && start + length <= received.len() {
            Some((received.subrange(start, start + length), start + length))
        } else {
            None
        },
        None => None,
    }
}

impl MinecraftCodec {
    /// The compression threshold, if compression is enabled.
    pub closed spec fn compression(&self) -> Option<CompressionThreshold> {
        self.compression
    }

    /// The bytes received that no packet was made of yet.
    pub closed spec fn received(&self) -> Seq<u8> {
        self.received_buf@
    }

    pub fn new() -> (r: Self)
        ensures
            r.compression() is None,
            r.received().len() == 0,
    {
        MinecraftCodec { compression: None, received_buf: Vec::new() }
    }

    /// Enables compression with the provided compression threshold.
    pub fn enable_compression(&mut self, threshold: CompressionThreshold)
        ensures
            final(self).compression() == Some(threshold),
            final(self).received() == old(self).received(),
    {
        self.compression = Some(threshold);
    }

    /// Gets another `MinecraftCodec` with the same compression
    /// parameters and nothing received.
    pub fn clone_with_settings(&self) -> (r: MinecraftCodec)
        ensures
            r.compression() == self.compression(),
            r.received().len() == 0,
    {
        MinecraftCodec { compression: self.compression, received_buf: Vec::new() }
    }

    /// Whether the codec frames packets as they are.
    pub fn is_uncompressed(&self) -> (r: bool)
        ensures
            r == self.compression() is None,
    {
        self.compression.is_none()
    }

    /// Writes the frame of a packet into the provided output.
    pub fn encode(&self, packet: &[u8], output: &mut Vec<u8>)
        requires
            self.compression() is None,
            packet@.len() <= i32::MAX,
        ensures
            final(output)@ == old(output)@ + frame(packet@),
    {
        let length = packet.len() as i32;
        write_var_int(output, length);
        let ghost headed = output@;
        let mut i: usize = 0;
        while i < packet.len()
            invariant
                i <= packet@.len(),
                output@ == headed + packet@.subrange(0, i as int),
            decreases packet@.len() - i,
        {
            output.push(packet[i]);
            proof {
                assert(output@ =~= headed + packet@.subrange(0, i + 1));
            }
            i = i + 1;
        }
        proof {
            assert(packet@.subrange(0, packet@.len() as int) =~= packet@);
            assert(output@ =~= old(output)@ + frame(packet@));
        }
    }

    /// Accepts newly received bytes.
    pub fn accept(&mut self, bytes: &[u8])
        ensures
            final(self).received() == old(self).received() + bytes@,
            final(self).compression() == old(self).compression(),
    {
        let mut i: usize = 0;
        while i < bytes.len()
            invariant
                i <= bytes@.len(),
                self.compression == old(self).compression,
                self.received_buf@ == old(self).received_buf@ + bytes@.subrange(0, i as int),
            decreases bytes@.len() - i,
        {
            self.received_buf.push(bytes[i]);
            proof {
                assert(self.received_buf@ =~= old(self).received_buf@ + bytes@.subrange(0, i + 1));
            }
            i = i + 1;
        }
        proof {
            assert(bytes@.subrange(0, bytes@.len() as int) =~= bytes@);
        }
    }

    /// Gets the bytes of the next packet that was received, if any, and
    /// drops them with their length from the bytes received.
    pub fn next_packet(&mut self) -> (r: Option<Vec<u8>>)
        ensures
            final(self).compression() == old(self).compression(),
            match first_packet(old(self).received()) {
                Some((packet, taken)) => r matches Some(bytes) && bytes@ == packet
                    && final(self).received() == old(self).received().subrange(
                    taken,
                    old(self).received().len() as int,
                ),
                None => r is None && final(self).received() == old(self).received(),
            },
    {
        let (length, start) = match read_var_int(self.received_buf.as_slice(), 0) {
            Ok(read) => read,
            Err(_) => {
                return None;
            },
        };
        if length < 0 || self.received_buf.len() - start < length as usize {
            return None;
        }
        let end = start + length as usize;
        let rest = self.received_buf.split_off(end);
        let packet = self.received_buf.split_off(start);
        self.received_buf = rest;
        Some(packet)
    }
}

/// Framing round trip: a packet that was framed is the next packet of a
/// codec that has received the frame and nothing before it, whatever
/// follows the frame, and what follows is what stays received.
pub proof fn law_frame_round_trip(packet: Seq<u8>, after: Seq<u8>)
    requires
        packet.len() <= i32::MAX,
    ensures
        first_packet(frame(packet) + after) == Some(
            (packet, (var_int_bytes(packet.len()).len() + packet.len()) as int),
        ),
        (frame(packet) + after).subrange(
            (var_int_bytes(packet.len()).len() + packet.len()) as int,
            (frame(packet) + after).len() as int,
        ) == after,
{
    let head = var_int_bytes(packet.len());
    let received = frame(packet) + after;
    crate::wire::law_var_int_round_trip(Seq::empty(), packet.len() as i32, packet + after);
    assert(Seq::<u8>::empty() + head + (packet + after) =~= received);
    assert(received.subrange(head.len() as int, (head.len() + packet.len()) as int) =~= packet);
    assert(received.subrange((head.len() + packet.len()) as int, received.len() as int) =~= after);
}

} // verus!
