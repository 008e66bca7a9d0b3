//! The interface counters that the kernel reports in the statistics
//! attributes: packed records of little-endian numbers, all of one width.

use vstd::prelude::*;
use crate::deserialize::{deserialize_u32, deserialize_u64, le_u32, le_u64};
use crate::error::{Error, Result};

verus! {

/// Reads the `u32` that stands `offset` bytes into `bytes`.
fn u32_at(bytes: &[u8], offset: usize) -> (r: u32)
    requires
        offset + 4 <= bytes@.len() <= usize::MAX,
    ensures
        r == le_u32(bytes@.skip(offset as int)) as u32,
        r as int == le_u32(bytes@.skip(offset as int)),
{
    let word = vstd::slice::slice_subrange(bytes, offset, offset + 4);
    match deserialize_u32(word) {
        Ok(v) => v,
        Err(_) => 0,
    }
}

/// Reads the `u64` that stands `offset` bytes into `bytes`.
fn u64_at(bytes: &[u8], offset: usize) -> (r: u64)
    requires
        offset + 8 <= bytes@.len() <= usize::MAX,
    ensures
        r == le_u64(bytes@.skip(offset as int)) as u64,
        r as int == le_u64(bytes@.skip(offset as int)),
{
    let word = vstd::slice::slice_subrange(bytes, offset, offset + 8);
    match deserialize_u64(word) {
        Ok(v) => v,
        Err(_) => 0,
    }
}

/// The 32-bit counters of an interface, in the kernel's order.
#[derive(Clone, Copy, Debug, Default, PartialEq, Eq, Structural)]
pub struct LinkStats {
    pub rx_packets: u32,
    pub tx_packets: u32,
    pub rx_bytes: u32,
    pub tx_bytes: u32,
    pub rx_errors: u32,
    pub tx_errors: u32,
    pub rx_dropped: u32,
    pub tx_dropped: u32,
    pub multicast: u32,
    pub collisions: u32,
    pub rx_length_errors: u32,
    pub rx_over_errors: u32,
    pub rx_crc_errors: u32,
    pub rx_frame_errors: u32,
    pub rx_fifo_errors: u32,
    pub rx_missed_errors: u32,
    pub tx_aborted_errors: u32,
    pub tx_carrier_errors: u32,
    pub tx_fifo_errors: u32,
    pub tx_heartbeat_errors: u32,
    pub tx_window_errors: u32,
    pub rx_compressed: u32,
    pub tx_compressed: u32,
    pub rx_nohandler: u32,
}

impl LinkStats {
    /// The number of bytes that the record takes on the wire.
    pub const SIZE: usize = 96;

    /// The record that the first 96 bytes of `bytes` hold.
    pub open spec fn decode(bytes: Seq<u8>) -> LinkStats {
        LinkStats {
            rx_packets: le_u32(bytes.skip(0)) as u32,
            tx_packets: le_u32(bytes.skip(4)) as u32,
            rx_bytes: le_u32(bytes.skip(8)) as u32,
            tx_bytes: le_u32(bytes.skip(12)) as u32,
            rx_errors: le_u32(bytes.skip(16)) as u32,
            tx_errors: le_u32(bytes.skip(20)) as u32,
            rx_dropped: le_u32(bytes.skip(24)) as u32,
            tx_dropped: le_u32(bytes.skip(28)) as u32,
            multicast: le_u32(bytes.skip(32)) as u32,
            collisions: le_u32(bytes.skip(36)) as u32,
            rx_length_errors: le_u32(bytes.skip(40)) as u32,
            rx_over_errors: le_u32(bytes.skip(44)) as u32,
            rx_crc_errors: le_u32(bytes.skip(48)) as u32,
            rx_frame_errors: le_u32(bytes.skip(52)) as u32,
            rx_fifo_errors: le_u32(bytes.skip(56)) as u32,
            rx_missed_errors: le_u32(bytes.skip(60)) as u32,
            tx_aborted_errors: le_u32(bytes.skip(64)) as u32,
            tx_carrier_errors: le_u32(bytes.skip(68)) as u32,
            tx_fifo_errors: le_u32(bytes.skip(72)) as u32,
            tx_heartbeat_errors: le_u32(bytes.skip(76)) as u32,
            tx_window_errors: le_u32(bytes.skip(80)) as u32,
            rx_compressed: le_u32(bytes.skip(84)) as u32,
            tx_compressed: le_u32(bytes.skip(88)) as u32,
            rx_nohandler: le_u32(bytes.skip(92)) as u32,
        }
    }

    /// Reads the record from the front of `payload`.
    pub fn deserialize(payload: &[u8]) -> (r: Result<LinkStats>)
        ensures
            payload@.len() >= 96 ==> r == Ok::<LinkStats, Error>(LinkStats::decode(payload@)),
            payload@.len() < 96 ==> r == Err::<LinkStats, Error>(Error::ErrUnexpectedEof),
    {
        if payload.len() < 96 {
            return Err(Error::ErrUnexpectedEof);
        }
        Ok(LinkStats {
            rx_packets: u32_at(payload, 0),
            tx_packets: u32_at(payload, 4),
            rx_bytes: u32_at(payload, 8),
            tx_bytes: u32_at(payload, 12),
            rx_errors: u32_at(payload, 16),
            tx_errors: u32_at(payload, 20),
            rx_dropped: u32_at(payload, 24),
            tx_dropped: u32_at(payload, 28),
            multicast: u32_at(payload, 32),
            collisions: u32_at(payload, 36),
            rx_length_errors: u32_at(payload, 40),
            rx_over_errors: u32_at(payload, 44),
            rx_crc_errors: u32_at(payload, 48),
            rx_frame_errors: u32_at(payload, 52),
            rx_fifo_errors: u32_at(payload, 56),
            rx_missed_errors: u32_at(payload, 60),
            tx_aborted_errors: u32_at(payload, 64),
            tx_carrier_errors: u32_at(payload, 68),
            tx_fifo_errors: u32_at(payload, 72),
            tx_heartbeat_errors: u32_at(payload, 76),
            tx_window_errors: u32_at(payload, 80),
            rx_compressed: u32_at(payload, 84),
            tx_compressed: u32_at(payload, 88),
            rx_nohandler: u32_at(payload, 92),
        })
    }
}

/// The 64-bit counters of an interface, in the kernel's order.
#[derive(Clone, Copy, Debug, Default, PartialEq, Eq, Structural)]
pub struct Stats64 {
    pub rx_packets: u64,
    pub tx_packets: u64,
    pub rx_bytes: u64,
    pub tx_bytes: u64,
    pub rx_errors: u64,
    pub tx_errors: u64,
    pub rx_dropped: u64,
    pub tx_dropped: u64,
    pub multicast: u64,
    pub collisions: u64,
    pub rx_length_errors: u64,
    pub rx_over_errors: u64,
    pub rx_crc_errors: u64,
    pub rx_frame_errors: u64,
    pub rx_fifo_errors: u64,
    pub rx_missed_errors: u64,
    pub tx_aborted_errors: u64,
    pub tx_carrier_errors: u64,
    pub tx_fifo_errors: u64,
    pub tx_heartbeat_errors: u64,
    pub tx_window_errors: u64,
    pub rx_compressed: u64,
    pub tx_compressed: u64,
    pub rx_nohandler: u64,
    pub rx_otherhost_dropped: u64,
}

impl Stats64 {
    /// The number of bytes that the record takes on the wire.
    pub const SIZE: usize = 200;

    /// The record that the first 200 bytes of `bytes` hold.
    pub open spec fn decode(bytes: Seq<u8>) -> Stats64 {
        Stats64 {
            rx_packets: le_u64(bytes.skip(0)) as u64,
            tx_packets: le_u64(bytes.skip(8)) as u64,
            rx_bytes: le_u64(bytes.skip(16)) as u64,
            tx_bytes: le_u64(bytes.skip(24)) as u64,
            rx_errors: le_u64(bytes.skip(32)) as u64,
            tx_errors: le_u64(bytes.skip(40)) as u64,
            rx_dropped: le_u64(bytes.skip(48)) as u64,
            tx_dropped: le_u64(bytes.skip(56)) as u64,
            multicast: le_u64(bytes.skip(64)) as u64,
            collisions: le_u64(bytes.skip(72)) as u64,
            rx_length_errors: le_u64(bytes.skip(80)) as u64,
            rx_over_errors: le_u64(bytes.skip(88)) as u64,
            rx_crc_errors: le_u64(bytes.skip(96)) as u64,
            rx_frame_errors: le_u64(bytes.skip(104)) as u64,
            rx_fifo_errors: le_u64(bytes.skip(112)) as u64,
            rx_missed_errors: le_u64(bytes.skip(120)) as u64,
            tx_aborted_errors: le_u64(bytes.skip(128)) as u64,
            tx_carrier_errors: le_u64(bytes.skip(136)) as u64,
            tx_fifo_errors: le_u64(bytes.skip(144)) as u64,
            tx_heartbeat_errors: le_u64(bytes.skip(152)) as u64,
            tx_window_errors: le_u64(bytes.skip(160)) as u64,
            rx_compressed: le_u64(bytes.skip(168)) as u64,
            tx_compressed: le_u64(bytes.skip(176)) as u64,
            rx_nohandler: le_u64(bytes.skip(184)) as u64,
            rx_otherhost_dropped: le_u64(bytes.skip(192)) as u64,
        }
    }

    /// Reads the record from the front of `payload`.
    pub fn deserialize(payload: &[u8]) -> (r: Result<Stats64>)
        ensures
            payload@.len() >= 200 ==> r == Ok::<Stats64, Error>(Stats64::decode(payload@)),
            payload@.len() < 200 ==> r == Err::<Stats64, Error>(Error::ErrUnexpectedEof),
    {
        if payload.len() < 200 {
            return Err(Error::ErrUnexpectedEof);
        }
        Ok(Stats64 {
            rx_packets: u64_at(payload, 0),
            tx_packets: u64_at(payload, 8),
            rx_bytes: u64_at(payload, 16),
            tx_bytes: u64_at(payload, 24),
            rx_errors: u64_at(payload, 32),
            tx_errors: u64_at(payload, 40),
            rx_dropped: u64_at(payload, 48),
            tx_dropped: u64_at(payload, 56),
            multicast: u64_at(payload, 64),
            collisions: u64_at(payload, 72),
            rx_length_errors: u64_at(payload, 80),
            rx_over_errors: u64_at(payload, 88),
            rx_crc_errors: u64_at(payload, 96),
            rx_frame_errors: u64_at(payload, 104),
            rx_fifo_errors: u64_at(payload, 112),
            rx_missed_errors: u64_at(payload, 120),
            tx_aborted_errors: u64_at(payload, 128),
            tx_carrier_errors: u64_at(payload, 136),
            tx_fifo_errors: u64_at(payload, 144),
            tx_heartbeat_errors: u64_at(payload, 152),
            tx_window_errors: u64_at(payload, 160),
            rx_compressed: u64_at(payload, 168),
            tx_compressed: u64_at(payload, 176),
            rx_nohandler: u64_at(payload, 184),
            rx_otherhost_dropped: u64_at(payload, 192),
        })
    }
}

} // verus!
