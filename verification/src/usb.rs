//! USB HID transport framing and report chunking.
//!
//! When communicating with a RØDECaster over USB, messages are split into
//! fixed [`REPORT_SIZE`]-byte HID reports. Each report begins with a report ID
//! byte ([`REPORT_ID_OUT`] host-to-device, [`REPORT_ID_IN`] device-to-host)
//! followed by up to [`REPORT_PAYLOAD`] bytes of data.
//!
//! A message on the wire is `[u32 LE body length][body]`, cut into
//! [`REPORT_PAYLOAD`]-byte pieces; byte `k` of that framed message sits at
//! [`spec_wire_index`]`(k)` of the report stream.

use vstd::prelude::*;
use vstd::slice::slice_subrange;
use vstd::arithmetic::div_mod::{lemma_fundamental_div_mod, lemma_fundamental_div_mod_converse};

pub use crate::frame::FrameScan;
use crate::wire::{
    copy_range, le_bytes, le_value, lemma_le_round_trip, lemma_le_value_bound, lemma_pow256_values,
    push_all, push_le, read_le,
};

verus! {

/// HID report id for host -> device (output) reports.
pub const REPORT_ID_OUT: u8 = 0x03;

/// HID report id for device -> host (input) reports.
pub const REPORT_ID_IN: u8 = 0x04;

/// Total HID report size on the wire: one report-id byte plus the payload.
pub const REPORT_SIZE: usize = 256;

/// Usable payload bytes per HID report ([`REPORT_SIZE`] minus the report-id
/// byte). The length-prefixed message is chunked into pieces this large.
pub const REPORT_PAYLOAD: usize = 255;

/// Sanity cap on a decoded message body (1 MiB). A corrupt length prefix would
/// otherwise wedge a streaming reader on an impossible frame; past this,
/// [`scan_frame`] reports [`FrameScan::Desync`].
pub const MAX_MESSAGE_LEN: usize = 1048576;

/// The 4-byte body the device expects as the first message after connect to
/// start a full-state sync. Send [`handshake_bytes`]; on the wire it is the
/// framed form `[04 00 00 00][AD 10 A7 B0]` in one report.
pub const HANDSHAKE_BODY: [u8; 4] = [0xAD, 0x10, 0xA7, 0xB0];

/// A USB HID message: the inner `body` plus its length, framed and chunked into
/// HID reports on the wire. The USB counterpart to [`crate::frame::Packet`] (no
/// magic header).
#[derive(Debug, Clone, PartialEq, Eq)]
pub struct Packet {
    pub length: u32,
    pub payload: Vec<u8>,
}

// ---------------------------------------------------------------------------
// Wire format

/// The length-prefixed message: the length as four little-endian bytes, then
/// the body.
pub open spec fn spec_framed(length: u32, payload: Seq<u8>) -> Seq<u8> {
    le_bytes(length as nat, 4) + payload
}

/// Reports needed for `n` framed bytes (at least one).
pub open spec fn spec_report_count(n: nat) -> nat {
    if n == 0 {
        1
    } else {
        ((n + 254) / 255) as nat
    }
}

/// Byte `j` of the report stream carrying `framed`: a report id at the start
/// of every report, framed bytes in order after it, zeros past the end.
pub open spec fn spec_wire_byte(framed: Seq<u8>, j: int) -> u8 {
    if j % 256 == 0 {
        REPORT_ID_OUT
    } else {
        let k = (j / 256) * 255 + j % 256 - 1;
        if k < framed.len() {
            framed[k]
        } else {
            0
        }
    }
}

/// The report stream carrying `framed`.
pub open spec fn spec_wire(framed: Seq<u8>) -> Seq<u8> {
    Seq::new(spec_report_count(framed.len()) * 256, |j: int| spec_wire_byte(framed, j))
}

/// Where byte `k` of a framed message sits in its report stream.
pub open spec fn spec_wire_index(k: int) -> int {
    (k / 255) * 256 + k % 255 + 1
}

/// The body length read from the first report.
pub open spec fn spec_body_len(d: Seq<u8>) -> nat {
    le_value(d.subrange(1, 5))
}

/// What [`scan_frame`] reports for a buffer of raw reports.
pub open spec fn spec_scan_frame(d: Seq<u8>) -> FrameScan {
    if d.len() < 256 {
        FrameScan::Incomplete
    } else if spec_body_len(d) == 0 || spec_body_len(d) > MAX_MESSAGE_LEN {
        FrameScan::Desync
    } else if d.len() < spec_report_count(4 + spec_body_len(d)) * 256 {
        FrameScan::Incomplete
    } else {
        FrameScan::Complete { len: (spec_report_count(4 + spec_body_len(d)) * 256) as usize }
    }
}

/// The body of the message at the front of `d`: the framed bytes after the
/// length prefix, report ids and padding left out.
pub open spec fn spec_body(d: Seq<u8>) -> Seq<u8> {
    Seq::new(spec_body_len(d), |i: int| d[spec_wire_index(4 + i)])
}

// ---------------------------------------------------------------------------
// Arithmetic facts

proof fn lemma_split(j: int, d: int, q: int, r: int)
    requires
        d > 0,
        0 <= r < d,
        j == q * d + r,
    ensures
        j / d == q,
        j % d == r,
{
    lemma_fundamental_div_mod_converse(j, d, q, r);
}

proof fn lemma_report_count(n: nat)
    requires
        n > 0,
    ensures
        spec_report_count(n) >= 1,
        spec_report_count(n) * 255 >= n,
        (spec_report_count(n) - 1) * 255 < n,
{
    let c = spec_report_count(n);
    lemma_fundamental_div_mod((n + 254) as int, 255);
    let r = (n + 254) % 255;
    assert(0 <= r < 255);
    assert(n + 254 == 255 * c + r);
    assert(c * 255 >= n) by (nonlinear_arith)
        requires
            n + 254 == 255 * c + r,
            r < 255,
    ;
    assert((c - 1) * 255 < n) by (nonlinear_arith)
        requires
            n + 254 == 255 * c + r,
            r >= 0,
    ;
}

proof fn lemma_mul_step(i: int, n: int, w: int)
    requires
        0 <= i < n,
        w >= 0,
    ensures
        i * w + w <= n * w,
        0 <= i * w,
{
    assert(i * w + w <= n * w) by (nonlinear_arith)
        requires
            i < n,
            w >= 0,
    ;
    assert(0 <= i * w) by (nonlinear_arith)
        requires
            i >= 0,
            w >= 0,
    ;
}

/// Byte `k` of a framed message lies within its reports.
proof fn lemma_wire_index_bound(k: int, count: int)
    requires
        0 <= k < count * 255,
    ensures
        1 <= spec_wire_index(k),
        spec_wire_index(k) < count * 256,
        spec_wire_index(k) % 256 == k % 255 + 1,
        spec_wire_index(k) / 256 == k / 255,
        (k / 255) * 255 + k % 255 == k,
{
    lemma_fundamental_div_mod(k, 255);
    let q = k / 255;
    let r = k % 255;
    assert(0 <= r < 255);
    assert(0 <= q) by (nonlinear_arith)
        requires
            k == 255 * q + r,
            k >= 0,
            r < 255,
    ;
    assert(q < count) by (nonlinear_arith)
        requires
            k == 255 * q + r,
            k < count * 255,
            r >= 0,
    ;
    lemma_mul_step(q, count, 256);
    lemma_split(spec_wire_index(k), 256, q, r + 1);
}

// ---------------------------------------------------------------------------
// Executable codec

impl Packet {
    pub fn new(payload: Vec<u8>) -> (r: Self)
        ensures
            r.length == payload@.len() as u32,
            r.payload@ == payload@,
    {
        let length = payload.len() as u32;
        Packet { length, payload }
    }

    /// Serialize to the full HID wire form: `[u32 LE len][body]` chunked into
    /// [`REPORT_PAYLOAD`]-byte pieces, each prefixed with [`REPORT_ID_OUT`] and
    /// the last zero-padded to [`REPORT_SIZE`]. Write it to the device in
    /// [`REPORT_SIZE`]-byte chunks, one report per HID write.
    pub fn to_bytes(&self) -> (r: Vec<u8>)
        requires
            spec_report_count(4 + self.payload@.len()) * 256 <= usize::MAX,
        ensures
            r@ == spec_wire(spec_framed(self.length, self.payload@)),
    {
        let mut framed: Vec<u8> = Vec::new();
        push_le(&mut framed, self.length as u64, 4);
        push_all(&mut framed, self.payload.as_slice());
        let ghost f = framed@;
        proof {
            crate::wire::lemma_le_bytes_len(self.length as nat, 4);
            assert(f =~= spec_framed(self.length, self.payload@));
            lemma_report_count(f.len());
        }
        let flen = framed.len();
        let n_reports: usize = if flen % REPORT_PAYLOAD == 0 {
            flen / REPORT_PAYLOAD
        } else {
            flen / REPORT_PAYLOAD + 1
        };
        proof {
            lemma_fundamental_div_mod(flen as int, 255);
            lemma_fundamental_div_mod((flen + 254) as int, 255);
            lemma_split(
                (flen + 254) as int,
                255,
                n_reports as int,
                if flen % 255 == 0 { 254int } else { flen % 255 - 1 },
            );
            assert(n_reports == spec_report_count(f.len()));
        }
        let mut out: Vec<u8> = Vec::new();
        let mut i: usize = 0;
        while i < n_reports
            invariant
                i <= n_reports,
                framed@ == f,
                flen == f.len(),
                n_reports == spec_report_count(f.len()),
                n_reports * 256 <= usize::MAX,
                out@.len() == i * 256,
                forall|j: int| 0 <= j < out@.len() ==> #[trigger] out@[j] == spec_wire_byte(f, j),
            decreases n_reports - i,
        {
            proof {
                lemma_mul_step(i as int, n_reports as int, 256);
                lemma_mul_step(i as int, n_reports as int, 255);
            }
            let base = i * REPORT_SIZE;
            proof {
                lemma_split(base as int, 256, i as int, 0);
            }
            out.push(REPORT_ID_OUT);
            let mut o: usize = 1;
            while o < REPORT_SIZE
                invariant
                    1 <= o <= 256,
                    i < n_reports,
                    base == i * 256,
                    i * 255 + 255 <= n_reports * 255,
                    framed@ == f,
                    flen == f.len(),
                    n_reports * 256 <= usize::MAX,
                    out@.len() == base + o,
                    forall|j: int|
                        0 <= j < out@.len() ==> #[trigger] out@[j] == spec_wire_byte(f, j),
                decreases 256 - o,
            {
                let k = i * REPORT_PAYLOAD + o - 1;
                let b = if k < flen {
                    framed[k]
                } else {
                    0
                };
                proof {
                    lemma_split((base + o) as int, 256, i as int, o as int);
                }
                out.push(b);
                o = o + 1;
            }
            i = i + 1;
        }
        proof {
            assert(out@ =~= spec_wire(f));
        }
        out
    }

    /// Parse one message from a buffer of raw HID reports (each [`REPORT_SIZE`]
    /// bytes as read from the device), returning it and the raw byte count to
    /// drain (a whole number of reports). `None` unless `buf` begins with a
    /// complete, valid message. The report-id byte of each report is ignored, so
    /// this decodes both [`REPORT_ID_OUT`] and [`REPORT_ID_IN`] streams.
    pub fn from_bytes(buf: &[u8]) -> (r: Option<(Self, usize)>)
        ensures
            match spec_scan_frame(buf@) {
                FrameScan::Complete { len } => r matches Some((p, n)) && n == len && p.length as nat
                    == spec_body_len(buf@) && p.payload@ == spec_body(buf@),
                _ => r is None,
            },
    {
        let total = match scan_frame(buf) {
            FrameScan::Complete { len } => len,
            _ => {
                return None;
            },
        };
        let body_len = frame_len_unchecked(buf);
        let n_reports = total / REPORT_SIZE;
        let ghost count = spec_report_count(4 + body_len as nat);
        proof {
            lemma_split(total as int, 256, count as int, 0);
            lemma_report_count(4 + body_len as nat);
        }
        // De-chunk: concatenate each report's payload (skipping the report-id
        // byte), then take the body that follows the 4-byte length prefix.
        let mut framed: Vec<u8> = Vec::new();
        let mut i: usize = 0;
        while i < n_reports
            invariant
                i <= n_reports,
                n_reports == count,
                n_reports * 256 == total,
                total <= buf@.len(),
                framed@.len() == i * 255,
                forall|k: int|
                    0 <= k < framed@.len() ==> #[trigger] framed@[k] == buf@[spec_wire_index(k)],
            decreases n_reports - i,
        {
            proof {
                lemma_mul_step(i as int, n_reports as int, 256);
                lemma_mul_step(i as int, n_reports as int, 255);
            }
            let base = i * REPORT_SIZE;
            let ghost before = framed@;
            push_all(&mut framed, slice_subrange(buf, base + 1, base + REPORT_SIZE));
            proof {
                assert forall|k: int| 0 <= k < framed@.len() implies #[trigger] framed@[k]
                    == buf@[spec_wire_index(k)] by {
                    if k >= before.len() {
                        let r = k - i * 255;
                        lemma_split(k, 255, i as int, r);
                    }
                }
            }
            i = i + 1;
        }
        let body = copy_range(framed.as_slice(), 4, 4 + body_len);
        proof {
            assert(body@ =~= spec_body(buf@));
        }
        Some((Packet { length: body_len as u32, payload: body }, total))
    }
}

/// Read the 4-byte length prefix from the first report's payload.
fn frame_len_unchecked(buf: &[u8]) -> (r: usize)
    requires
        buf@.len() >= 5,
    ensures
        r as nat == spec_body_len(buf@),
{
    proof {
        lemma_le_value_bound(buf@.subrange(1, 5));
        lemma_pow256_values();
    }
    let v = read_le(buf, 1, 4);
    proof {
        assert(v < 0x1_0000_0000);
    }
    v as u32 as usize
}

/// Scan a raw HID report buffer for a complete leading message without copying
/// the body. The USB counterpart to [`crate::frame::scan_frame`]; `len` in
/// [`FrameScan::Complete`] is the raw byte count to drain (a whole number of
/// [`REPORT_SIZE`] reports). [`FrameScan::Desync`] means the length prefix is
/// impossible (zero or over [`MAX_MESSAGE_LEN`]); drop one report and rescan.
pub fn scan_frame(buf: &[u8]) -> (r: FrameScan)
    ensures
        r == spec_scan_frame(buf@),
        r matches FrameScan::Complete { len } ==> len as int == spec_report_count(
            4 + spec_body_len(buf@),
        ) * 256 && len <= buf@.len(),
{
    if buf.len() < REPORT_SIZE {
        return FrameScan::Incomplete;
    }
    let body_len = frame_len_unchecked(buf);
    if body_len == 0 || body_len > MAX_MESSAGE_LEN {
        return FrameScan::Desync;
    }
    let n_reports = (4 + body_len + 254) / REPORT_PAYLOAD;
    let total_raw = n_reports * REPORT_SIZE;
    if buf.len() < total_raw {
        return FrameScan::Incomplete;
    }
    FrameScan::Complete { len: total_raw }
}

/// Decode the payload of one complete message at the front of a raw HID report
/// buffer. Returns an owned `Vec<u8>` with report IDs and padding stripped.
pub fn frame_payload(buf: &[u8]) -> (r: Option<Vec<u8>>)
    ensures
        match spec_scan_frame(buf@) {
            FrameScan::Complete { .. } => r matches Some(p) && p@ == spec_body(buf@),
            _ => r is None,
        },
{
    match Packet::from_bytes(buf) {
        Some((p, _)) => Some(p.payload),
        None => None,
    }
}

/// The HID wire bytes (one [`REPORT_SIZE`] report) carrying the startup
/// handshake ([`HANDSHAKE_BODY`]).
pub fn handshake_bytes() -> (r: Vec<u8>)
    ensures
        r@ == spec_wire(spec_framed(4, seq![0xADu8, 0x10u8, 0xA7u8, 0xB0u8])),
{
    let mut body: Vec<u8> = Vec::new();
    body.push(HANDSHAKE_BODY[0]);
    body.push(HANDSHAKE_BODY[1]);
    body.push(HANDSHAKE_BODY[2]);
    body.push(HANDSHAKE_BODY[3]);
    proof {
        assert(body@ =~= seq![0xADu8, 0x10u8, 0xA7u8, 0xB0u8]);
    }
    let p = Packet::new(body);
    proof {
        lemma_pow256_values();
        reveal_with_fuel(le_bytes, 5);
    }
    p.to_bytes()
}

// ---------------------------------------------------------------------------
// Round trip

/// A message written by [`Packet::to_bytes`], received with any report id
/// in front of each report (a device sends [`REPORT_ID_IN`]) and followed
/// by anything, scans as one complete message that ends exactly where its
/// reports end, and decodes to the body that was written: a reader stops at
/// the first message boundary, and the report ids do not matter.
pub proof fn lemma_packet_round_trip(payload: Seq<u8>, received: Seq<u8>, rest: Seq<u8>)
    requires
        1 <= payload.len() <= MAX_MESSAGE_LEN,
        received.len() == spec_wire(spec_framed(payload.len() as u32, payload)).len(),
        forall|j: int|
            0 <= j < received.len() && j % 256 != 0 ==> #[trigger] received[j] == spec_wire(
                spec_framed(payload.len() as u32, payload),
            )[j],
    ensures
        ({
            let w = spec_wire(spec_framed(payload.len() as u32, payload));
            &&& w.len() % 256 == 0
            &&& spec_scan_frame(received + rest) == (FrameScan::Complete { len: w.len() as usize })
            &&& spec_body_len(received + rest) == payload.len()
            &&& spec_body(received + rest) == payload
        }),
{
    let l = payload.len();
    let f = spec_framed(l as u32, payload);
    let w = spec_wire(f);
    let d = received + rest;
    lemma_pow256_values();
    crate::wire::lemma_le_bytes_len(l, 4);
    lemma_le_round_trip(l, 4);
    assert(f.len() == 4 + l);
    lemma_report_count(f.len());
    let count = spec_report_count(f.len());
    assert(count * 256 >= 256) by (nonlinear_arith)
        requires
            count >= 1,
    ;
    assert((count * 256) % 256 == 0) by (nonlinear_arith);
    assert forall|j: int| 1 <= j < 5 implies #[trigger] d[j] == f[j - 1] by {
        lemma_split(j, 256, 0, j);
        assert(received[j] == w[j]);
    }
    assert(d.subrange(1, 5) =~= le_bytes(l, 4));
    assert(spec_body_len(d) == l);
    assert forall|i: int| 0 <= i < l implies #[trigger] d[spec_wire_index(4 + i)] == payload[i] by {
        lemma_wire_index_bound(4 + i, count as int);
        assert(received[spec_wire_index(4 + i)] == w[spec_wire_index(4 + i)]);
    }
    assert(spec_body(d) =~= payload);
    assert(count * 256 <= usize::MAX) by (nonlinear_arith)
        requires
            count * 255 < 4 + l + 255,
            l <= 1048576,
    ;
}

} // verus!
