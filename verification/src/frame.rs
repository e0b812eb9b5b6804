//! TCP stream packet framing codec.
//!
//! Frames protocol messages using a 4-byte magic header (`0xF2B49E2C`)
//! and a 4-byte little-endian length prefix:
//! `[magic (4B)][length (4B)][payload]`.

use vstd::prelude::*;
use vstd::slice::slice_subrange;

use crate::wire::{
    copy_range, le_bytes, le_value, lemma_le_round_trip, lemma_le_value_bound, lemma_pow256_values,
    push_all, push_le, read_le,
};

verus! {

/// Magic header for RODECaster protocol packets (little-endian on the wire).
pub const MAGIC_HEADER: u32 = 0xF2B49E2C;

/// A length-prefixed protocol packet.
#[derive(Debug, Clone)]
pub struct Packet {
    pub header: u32,
    pub length: u32,
    pub payload: Vec<u8>,
}

/// Result of scanning a byte buffer for a leading frame without allocating.
#[derive(Debug, Clone, Copy, PartialEq, Eq, Structural)]
pub enum FrameScan {
    /// Exactly one complete frame of `len` bytes starts at offset 0.
    Complete { len: usize },
    /// Valid magic header, but the full frame has not arrived yet.
    Incomplete,
    /// Offset 0 does not match the magic header.
    Desync,
}

/// The wire form of a packet: header and length, each four bytes
/// little-endian, then the payload.
pub open spec fn spec_packet_bytes(header: u32, length: u32, payload: Seq<u8>) -> Seq<u8> {
    le_bytes(header as nat, 4) + le_bytes(length as nat, 4) + payload
}

/// The length field of a buffer of at least eight bytes.
pub open spec fn spec_length_field(d: Seq<u8>) -> nat {
    le_value(d.subrange(4, 8))
}

/// What [`scan_frame`] reports for a buffer.
pub open spec fn spec_scan_frame(d: Seq<u8>) -> FrameScan {
    if d.len() < 8 {
        FrameScan::Incomplete
    } else if le_value(d.subrange(0, 4)) != MAGIC_HEADER {
        FrameScan::Desync
    } else if d.len() < 8 + spec_length_field(d) {
        FrameScan::Incomplete
    } else {
        FrameScan::Complete { len: (8 + spec_length_field(d)) as usize }
    }
}

impl Packet {
    pub fn new(payload: Vec<u8>) -> (r: Self)
        ensures
            r.header == MAGIC_HEADER,
            r.length == payload@.len() as u32,
            r.payload@ == payload@,
    {
        let length = payload.len() as u32;
        Packet { header: MAGIC_HEADER, length, payload }
    }

    pub fn to_bytes(&self) -> (r: Vec<u8>)
        ensures
            r@ == spec_packet_bytes(self.header, self.length, self.payload@),
    {
        let mut out: Vec<u8> = Vec::new();
        push_le(&mut out, self.header as u64, 4);
        push_le(&mut out, self.length as u64, 4);
        push_all(&mut out, self.payload.as_slice());
        out
    }

    /// Parse a packet from bytes, returning it and the total bytes consumed.
    pub fn from_bytes(data: &[u8]) -> (r: Option<(Self, usize)>)
        ensures
            match spec_scan_frame(data@) {
                FrameScan::Complete { len } => r matches Some((p, n)) && n == len && p.header
                    == MAGIC_HEADER && p.length as nat == spec_length_field(data@) && p.payload@
                    == data@.subrange(8, len as int),
                _ => r is None,
            },
    {
        match scan_frame(data) {
            FrameScan::Complete { len } => {
                let length = read_le(data, 4, 4) as u32;
                proof {
                    lemma_le_value_bound(data@.subrange(4, 8));
                    lemma_pow256_values();
                }
                let payload = copy_range(data, 8, len);
                Some((Packet { header: MAGIC_HEADER, length, payload }, len))
            },
            _ => None,
        }
    }
}

/// Scan `buf` for a complete frame at offset 0 without allocating.
pub fn scan_frame(buf: &[u8]) -> (r: FrameScan)
    ensures
        r == spec_scan_frame(buf@),
        r matches FrameScan::Complete { len } ==> len as int == 8 + spec_length_field(buf@)
            && len <= buf@.len(),
{
    if buf.len() < 8 {
        return FrameScan::Incomplete;
    }
    let header = read_le(buf, 0, 4);
    if header != MAGIC_HEADER as u64 {
        return FrameScan::Desync;
    }
    let length = read_le(buf, 4, 4);
    proof {
        lemma_le_value_bound(buf@.subrange(4, 8));
        lemma_pow256_values();
    }
    if ((buf.len() - 8) as u64) < length {
        return FrameScan::Incomplete;
    }
    FrameScan::Complete { len: 8 + length as usize }
}

/// Borrow the payload of one complete frame at offset 0 without copying.
pub fn frame_payload(buf: &[u8]) -> (r: Option<&[u8]>)
    ensures
        match spec_scan_frame(buf@) {
            FrameScan::Complete { len } => r matches Some(p) && p@ == buf@.subrange(8, len as int),
            _ => r is None,
        },
{
    match scan_frame(buf) {
        FrameScan::Complete { len } => Some(slice_subrange(buf, 8, len)),
        _ => None,
    }
}

/// A packet's wire form, followed by anything, scans as one complete frame
/// that ends exactly where the packet's bytes end, and its payload is the
/// packet's payload: a reader stops at the first frame boundary.
pub proof fn lemma_packet_scan(payload: Seq<u8>, rest: Seq<u8>)
    requires
        payload.len() < 0x1_0000_0000,
        8 + payload.len() <= usize::MAX,
    ensures
        spec_scan_frame(spec_packet_bytes(MAGIC_HEADER, payload.len() as u32, payload) + rest)
            == (FrameScan::Complete { len: (8 + payload.len()) as usize }),
        (spec_packet_bytes(MAGIC_HEADER, payload.len() as u32, payload) + rest).subrange(
            8,
            8 + payload.len() as int,
        ) == payload,
{
    let d = spec_packet_bytes(MAGIC_HEADER, payload.len() as u32, payload) + rest;
    lemma_pow256_values();
    lemma_le_round_trip(MAGIC_HEADER as nat, 4);
    lemma_le_round_trip(payload.len(), 4);
    assert(d.subrange(0, 4) =~= le_bytes(MAGIC_HEADER as nat, 4));
    assert(d.subrange(4, 8) =~= le_bytes(payload.len(), 4));
    assert(d.subrange(8, 8 + payload.len() as int) =~= payload);
}

} // verus!
