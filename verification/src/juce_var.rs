//! The JUCE `juce::var` wire codec, in both directions.
//!
//! The Rodecaster protocol speaks `juce::ValueTreeSynchroniser` on the wire, so
//! every value (the full-sync initial state, incremental `propertyChanged`
//! updates, and outgoing commands) is a `juce::var` framed by JUCE's
//! `writeCompressedInt`. Reading and writing live side by side here, and
//! [`lemma_value_round_trip`] proves that every well-formed value written by
//! [`Value::write_to_stream`] reads back unchanged through [`read_value`].
//!
//! Frame shape (`juce::var::writeToStream`): `writeCompressedInt(1 + payload)`,
//! then a marker byte, then the payload. `writeCompressedInt(n)` is a size byte
//! (low 7 bits = number of little-endian value bytes, capped at 4; high bit =
//! sign) followed by that many value bytes.
//!
//! A double travels as its 8 IEEE 754 bytes; this crate keeps it as those
//! raw bits (`Value::Double(bits)`), so the codec never computes with floats.

use vstd::prelude::*;
use vstd::utf8::*;
use vstd::string::*;
use vstd::slice::slice_subrange;

use crate::text::{ends_with_nul, lemma_encode_no_trailing_zero, lemma_valid_iff_stripped_valid, lemma_zeros_valid, padded_text, str_bytes, strip_trailing_zeros, utf8_str};
use crate::wire::{copy_range, le_bytes, le_value, lemma_le_bytes_len, lemma_le_round_trip, lemma_le_value_bound, lemma_pow256_positive, pow256, lemma_pow256_mono, lemma_pow256_values, push_all, push_le, read_le, tail};

pub mod marker;

verus! {

/// A decoded `juce::var`. One type shared by every reader and writer.
#[derive(Debug, PartialEq)]
pub enum Value {
    Bool(bool),
    /// 32-bit int (marker [`marker::INT`]); JUCE writes a fixed 4 bytes. Stored
    /// widened to `i64` so it can share an accessor with [`Value::Int64`].
    Int(i64),
    /// 64-bit int (marker [`marker::INT64`]).
    Int64(i64),
    /// Double (marker [`marker::DOUBLE`]), held as its IEEE 754 bit pattern.
    Double(u64),
    /// String (marker [`marker::STRING`]). The trailing NUL is stripped on read
    /// and re-added on write.
    String(String),
    /// Array of values (marker [`marker::ARRAY`]).
    Array(Vec<Value>),
    /// Binary blob (marker [`marker::BINARY`]).
    Binary(Vec<u8>),
    /// Void var (marker [`marker::UNDEFINED`], or an empty length frame).
    Undefined,
    /// Unparsed marker; raw payload preserved so the cursor stays aligned.
    Unknown { type_id: u8, data: Vec<u8> },
}

/// The mathematical content of a [`Value`].
pub enum VarModel {
    Bool(bool),
    Int(i64),
    Int64(i64),
    Double(u64),
    Str(Seq<char>),
    Array(Seq<VarModel>),
    Binary(Seq<u8>),
    Undefined,
    Unknown { type_id: u8, data: Seq<u8> },
}

pub open spec fn var_model(v: Value) -> VarModel
    decreases v,
{
    match v {
        Value::Bool(b) => VarModel::Bool(b),
        Value::Int(i) => VarModel::Int(i),
        Value::Int64(i) => VarModel::Int64(i),
        Value::Double(d) => VarModel::Double(d),
        Value::String(s) => VarModel::Str(s@),
        Value::Array(vs) => VarModel::Array(var_models(vs@)),
        Value::Binary(d) => VarModel::Binary(d@),
        Value::Undefined => VarModel::Undefined,
        Value::Unknown { type_id, data } => VarModel::Unknown { type_id, data: data@ },
    }
}

pub open spec fn var_models(vs: Seq<Value>) -> Seq<VarModel>
    decreases vs,
{
    if vs.len() == 0 {
        Seq::empty()
    } else {
        var_models(vs.drop_last()).push(var_model(vs.last()))
    }
}

impl View for Value {
    type V = VarModel;

    open spec fn view(&self) -> VarModel {
        var_model(*self)
    }
}

pub proof fn lemma_var_models(vs: Seq<Value>)
    ensures
        var_models(vs).len() == vs.len(),
        forall|i: int| 0 <= i < vs.len() ==> #[trigger] var_models(vs)[i] == var_model(vs[i]),
    decreases vs.len(),
{
    if vs.len() > 0 {
        lemma_var_models(vs.drop_last());
    }
}

impl Clone for Value {
    /// A deep copy with the same content.
    fn clone(&self) -> (r: Value)
        ensures
            r@ == self@,
        decreases self,
    {
        match self {
            Value::Bool(b) => Value::Bool(*b),
            Value::Int(i) => Value::Int(*i),
            Value::Int64(i) => Value::Int64(*i),
            Value::Double(d) => Value::Double(*d),
            Value::String(s) => Value::String(s.clone()),
            Value::Array(vs) => {
                let mut out: Vec<Value> = Vec::new();
                let mut i: usize = 0;
                proof {
                    assert(decreases_to!(*self => *vs));
                }
                while i < vs.len()
                    invariant
                        i <= vs@.len(),
                        decreases_to!(*self => *vs),
                        var_models(out@) == var_models(vs@.subrange(0, i as int)),
                    decreases vs@.len() - i,
                {
                    proof {
                        assert(decreases_to!(*vs => vs@[i as int]));
                    }
                    let c = vs[i].clone();
                    let ghost before = out@;
                    out.push(c);
                    proof {
                        assert(out@.drop_last() =~= before);
                        assert(vs@.subrange(0, i + 1).drop_last() =~= vs@.subrange(0, i as int));
                    }
                    i = i + 1;
                }
                proof {
                    assert(vs@.subrange(0, vs@.len() as int) =~= vs@);
                }
                Value::Array(out)
            },
            Value::Binary(d) => Value::Binary(d.clone()),
            Value::Undefined => Value::Undefined,
            Value::Unknown { type_id, data } => Value::Unknown { type_id: *type_id, data: data.clone() },
        }
    }
}

// ---------------------------------------------------------------------------
// Compressed ints

/// How many value bytes `writeCompressedInt` emits for a magnitude: the
/// significant bytes, at most `cap`.
pub open spec fn sig_bytes(m: nat, cap: nat) -> nat
    decreases cap,
{
    if m == 0 || cap == 0 {
        0
    } else {
        1 + sig_bytes(m / 256, (cap - 1) as nat)
    }
}

pub open spec fn abs(v: int) -> nat {
    if v < 0 {
        (-v) as nat
    } else {
        v as nat
    }
}

/// The bytes of `writeCompressedInt(v)`.
pub open spec fn spec_compressed_int(v: int) -> Seq<u8> {
    let n = sig_bytes(abs(v), 4);
    seq![(n + if v < 0 { 128int } else { 0int }) as u8] + le_bytes(abs(v), n)
}

/// `readCompressedInt` on the bytes `s`: the value and the bytes consumed.
pub open spec fn spec_read_compressed_int(s: Seq<u8>) -> Option<(int, int)> {
    if s.len() == 0 {
        None
    } else {
        let n = (s[0] % 128) as int;
        if n == 0 {
            Some((0, 1))
        } else if n > 4 || s.len() < 1 + n {
            None
        } else {
            let m = le_value(s.subrange(1, 1 + n)) as int;
            Some((if s[0] >= 128 { -m } else { m }, 1 + n))
        }
    }
}

// ---------------------------------------------------------------------------
// Strings

/// Index of the first NUL byte in `s`.
pub open spec fn first_nul(s: Seq<u8>) -> Option<int>
    decreases s.len(),
{
    if s.len() == 0 {
        None
    } else if s[0] == 0 {
        Some(0)
    } else {
        match first_nul(s.drop_first()) {
            Some(k) => Some(k + 1),
            None => None,
        }
    }
}

/// `OutputStream::writeString` read back: text up to the first NUL, and the
/// bytes consumed (including the NUL).
pub open spec fn spec_read_cstring(s: Seq<u8>) -> Option<(Seq<char>, int)> {
    match first_nul(s) {
        Some(k) => if valid_utf8(s.subrange(0, k)) {
            Some((decode_utf8(s.subrange(0, k)), k + 1))
        } else {
            None
        },
        None => None,
    }
}

/// `OutputStream::writeString`: the UTF-8 bytes, then a NUL.
pub open spec fn spec_cstring(cs: Seq<char>) -> Seq<u8> {
    encode_utf8(cs) + seq![0u8]
}

// ---------------------------------------------------------------------------
// Values

/// Two's complement reading of 32 bits.
pub open spec fn from_u32_bits(u: nat) -> int {
    if u >= 0x8000_0000 {
        u - 0x1_0000_0000
    } else {
        u as int
    }
}

/// Two's complement reading of 64 bits.
pub open spec fn from_u64_bits(u: nat) -> int {
    if u >= 0x8000_0000_0000_0000 {
        u - 0x1_0000_0000_0000_0000
    } else {
        u as int
    }
}

/// The low bits of `i` in two's complement: `i` modulo `m`.
pub open spec fn low_bits(i: int, m: nat) -> nat {
    (i % (m as int)) as nat
}

/// `var::readFromStream` on the bytes `s`: the value and the bytes consumed.
pub open spec fn spec_read_value(s: Seq<u8>) -> Option<(VarModel, int)>
    decreases s.len(), 0int, 0nat,
{
    match spec_read_compressed_int(s) {
        None => None,
        Some((len, c)) => if len <= 0 {
            Some((VarModel::Undefined, c))
        } else if s.len() <= c {
            None
        } else {
            let ty = s[c];
            let h = c + 1;
            let p = s.subrange(h, s.len() as int);
            let value_len = len - 1;
            if ty == marker::INT {
                if p.len() < 4 {
                    None
                } else {
                    Some((VarModel::Int(from_u32_bits(le_value(p.subrange(0, 4))) as i64), h + 4))
                }
            } else if ty == marker::BOOL_TRUE {
                Some((VarModel::Bool(true), h))
            } else if ty == marker::BOOL_FALSE {
                Some((VarModel::Bool(false), h))
            } else if ty == marker::DOUBLE {
                if p.len() < 8 {
                    None
                } else {
                    Some((VarModel::Double(le_value(p.subrange(0, 8)) as u64), h + 8))
                }
            } else if ty == marker::STRING {
                if p.len() < value_len {
                    None
                } else {
                    match padded_text(p.subrange(0, value_len)) {
                        Some(cs) => Some((VarModel::Str(cs), h + value_len)),
                        None => None,
                    }
                }
            } else if ty == marker::INT64 {
                if p.len() < 8 {
                    None
                } else {
                    Some(
                        (
                            VarModel::Int64(from_u64_bits(le_value(p.subrange(0, 8))) as i64),
                            h + 8,
                        ),
                    )
                }
            } else if ty == marker::ARRAY {
                match spec_read_compressed_int(p) {
                    None => None,
                    Some((count, c2)) => if count < 0 {
                        None
                    } else {
                        match spec_read_values(p.subrange(c2, p.len() as int), count as nat) {
                            Some((vs, k)) => Some((VarModel::Array(vs), h + c2 + k)),
                            None => None,
                        }
                    },
                }
            } else if ty == marker::BINARY {
                if p.len() < value_len {
                    None
                } else {
                    Some((VarModel::Binary(p.subrange(0, value_len)), h + value_len))
                }
            } else if ty == marker::UNDEFINED {
                Some((VarModel::Undefined, h))
            } else {
                if p.len() < value_len {
                    None
                } else {
                    Some(
                        (
                            VarModel::Unknown { type_id: ty, data: p.subrange(0, value_len) },
                            h + value_len,
                        ),
                    )
                }
            }
        },
    }
}

/// `n` values read one after another from `s`.
pub open spec fn spec_read_values(s: Seq<u8>, n: nat) -> Option<(Seq<VarModel>, int)>
    decreases s.len(), 1int, n,
{
    if n == 0 {
        Some((Seq::empty(), 0))
    } else {
        match spec_read_value(s) {
            None => None,
            Some((v, c)) => if 0 <= c <= s.len() {
                match spec_read_values(s.subrange(c, s.len() as int), (n - 1) as nat) {
                    Some((vs, k)) => Some((seq![v] + vs, c + k)),
                    None => None,
                }
            } else {
                None
            },
        }
    }
}

/// How far a read of one value moves the cursor, whether it succeeds (then
/// by the bytes the value takes) or fails (then to where reading stopped:
/// after the parts read whole before the one that did not fit or decode).
pub open spec fn spec_value_stop(s: Seq<u8>) -> int
    decreases s.len(), 0int, 0nat,
{
    match spec_read_compressed_int(s) {
        None => spec_compressed_int_stop(s),
        Some((len, c)) => if len <= 0 {
            c
        } else if s.len() <= c {
            c
        } else {
            let ty = s[c];
            let h = c + 1;
            let p = s.subrange(h, s.len() as int);
            let value_len = len - 1;
            if ty == marker::INT {
                if p.len() < 4 {
                    h
                } else {
                    h + 4
                }
            } else if ty == marker::BOOL_TRUE || ty == marker::BOOL_FALSE || ty == marker::UNDEFINED {
                h
            } else if ty == marker::DOUBLE || ty == marker::INT64 {
                if p.len() < 8 {
                    h
                } else {
                    h + 8
                }
            } else if ty == marker::ARRAY {
                match spec_read_compressed_int(p) {
                    None => h + spec_compressed_int_stop(p),
                    Some((count, c2)) => if count < 0 {
                        h + c2
                    } else {
                        h + c2 + spec_values_stop(p.subrange(c2, p.len() as int), count as nat)
                    },
                }
            } else {
                if p.len() < value_len {
                    h
                } else {
                    h + value_len
                }
            }
        },
    }
}

/// How far a read of `n` values one after another moves the cursor.
pub open spec fn spec_values_stop(s: Seq<u8>, n: nat) -> int
    decreases s.len(), 1int, n,
{
    if n == 0 {
        0
    } else {
        match spec_read_value(s) {
            None => spec_value_stop(s),
            Some((v, c)) => if 0 <= c <= s.len() {
                c + spec_values_stop(s.subrange(c, s.len() as int), (n - 1) as nat)
            } else {
                c
            },
        }
    }
}

/// `var::writeToStream`.
pub open spec fn spec_write_value(v: VarModel) -> Seq<u8>
    decreases v,
{
    match v {
        VarModel::Bool(b) => spec_compressed_int(1) + seq![
            if b {
                marker::BOOL_TRUE
            } else {
                marker::BOOL_FALSE
            },
        ],
        VarModel::Int(i) => spec_compressed_int(5) + seq![marker::INT] + le_bytes(
            low_bits(i as int, 0x1_0000_0000),
            4,
        ),
        VarModel::Int64(i) => spec_compressed_int(9) + seq![marker::INT64] + le_bytes(
            low_bits(i as int, 0x1_0000_0000_0000_0000),
            8,
        ),
        VarModel::Double(bits) => spec_compressed_int(9) + seq![marker::DOUBLE] + le_bytes(
            bits as nat,
            8,
        ),
        VarModel::Str(cs) => spec_compressed_int((1 + encode_utf8(cs).len() + 1) as int) + seq![
            marker::STRING,
        ] + spec_cstring(cs),
        VarModel::Array(vs) => {
            let body = spec_compressed_int(vs.len() as int) + spec_write_values(vs);
            spec_compressed_int((1 + body.len()) as int) + seq![marker::ARRAY] + body
        },
        VarModel::Binary(d) => spec_compressed_int((1 + d.len()) as int) + seq![marker::BINARY] + d,
        VarModel::Undefined => spec_compressed_int(1) + seq![marker::UNDEFINED],
        VarModel::Unknown { type_id, data } => spec_compressed_int((1 + data.len()) as int) + seq![type_id]
            + data,
    }
}

/// The values of `vs` written one after another.
pub open spec fn spec_write_values(vs: Seq<VarModel>) -> Seq<u8>
    decreases vs,
{
    if vs.len() == 0 {
        Seq::empty()
    } else {
        spec_write_value(vs[0]) + spec_write_values(vs.drop_first())
    }
}

/// Whether `m` is one of the `juce::var` markers this codec understands.
pub open spec fn is_known_marker(m: u8) -> bool {
    1 <= m <= 9
}

/// A frame length `writeCompressedInt` carries without truncation.
pub open spec fn frame_fits(n: int) -> bool {
    0 <= n < 0x1_0000_0000
}

/// A value that survives a write/read round trip: ints fit their wire width,
/// strings do not end in NUL, unknown markers are not known ones, and every
/// length fits a compressed int.
pub open spec fn var_round_trips(v: VarModel) -> bool
    decreases v,
{
    match v {
        VarModel::Int(i) => -0x8000_0000 <= i < 0x8000_0000,
        VarModel::Str(cs) => !ends_with_nul(cs) && frame_fits((1 + encode_utf8(cs).len() + 1) as int),
        VarModel::Array(vs) => frame_fits(vs.len() as int) && frame_fits(
            (1 + spec_compressed_int(vs.len() as int).len() + spec_write_values(vs).len()) as int,
        ) && vars_round_trip(vs),
        VarModel::Binary(d) => frame_fits((1 + d.len()) as int),
        VarModel::Unknown { type_id, data } => !is_known_marker(type_id) && frame_fits(
            (1 + data.len()) as int,
        ),
        _ => true,
    }
}

pub open spec fn vars_round_trip(vs: Seq<VarModel>) -> bool
    decreases vs,
{
    vs.len() > 0 ==> var_round_trips(vs[0]) && vars_round_trip(vs.drop_first())
}

// ---------------------------------------------------------------------------
// Executable codec

impl Value {
    /// Extract a bool, if this var is one.
    pub fn as_bool(&self) -> (r: Option<bool>)
        ensures
            r == (match self@ {
                VarModel::Bool(b) => Some(b),
                _ => None::<bool>,
            }),
    {
        match self {
            Value::Bool(b) => Some(*b),
            _ => None,
        }
    }

    /// Extract an integer, widening `Int`/`Int64` to `i64`.
    pub fn as_int(&self) -> (r: Option<i64>)
        ensures
            r == spec_as_int(self@),
    {
        match self {
            Value::Int(i) => Some(*i),
            Value::Int64(i) => Some(*i),
            _ => None,
        }
    }

    /// Encode as `juce::var::writeToStream`: `writeCompressedInt(1 + payload)`,
    /// the marker byte, then the payload.
    pub fn write_to_stream(&self, out: &mut Vec<u8>)
        requires
            spec_write_value(self@).len() <= i64::MAX,
        ensures
            final(out)@ == old(out)@ + spec_write_value(self@),
        decreases self,
    {
        match self {
            Value::Bool(b) => {
                write_compressed_int(out, 1);
                out.push(
                    if *b {
                        marker::BOOL_TRUE
                    } else {
                        marker::BOOL_FALSE
                    },
                );
                proof {
                    assert(out@ =~= old(out)@ + spec_write_value(self@));
                }
            },
            Value::Int(i) => {
                write_compressed_int(out, 5);
                out.push(marker::INT);
                push_le(out, low_bits_u32(*i), 4);
                proof {
                    assert(out@ =~= old(out)@ + spec_write_value(self@));
                }
            },
            Value::Int64(i) => {
                write_compressed_int(out, 9);
                out.push(marker::INT64);
                push_le(out, low_bits_u64(*i), 8);
                proof {
                    assert(out@ =~= old(out)@ + spec_write_value(self@));
                }
            },
            Value::Double(d) => {
                write_compressed_int(out, 9);
                out.push(marker::DOUBLE);
                push_le(out, *d, 8);
                proof {
                    assert(out@ =~= old(out)@ + spec_write_value(self@));
                }
            },
            Value::String(s) => {
                let bytes = str_bytes(s.as_str());
                proof {
                    lemma_compressed_int_len((1 + bytes@.len() + 1) as int);
                }
                // Payload is UTF-8 plus a trailing NUL; the frame counts both.
                write_compressed_int(out, 1 + bytes.len() as i64 + 1);
                out.push(marker::STRING);
                push_all(out, bytes);
                out.push(0);
                proof {
                    assert(out@ =~= old(out)@ + spec_write_value(self@));
                }
            },
            Value::Binary(data) => {
                proof {
                    lemma_compressed_int_len((1 + data@.len()) as int);
                }
                write_compressed_int(out, 1 + data.len() as i64);
                out.push(marker::BINARY);
                push_all(out, data.as_slice());
                proof {
                    assert(out@ =~= old(out)@ + spec_write_value(self@));
                }
            },
            Value::Array(values) => {
                // Serialize the body first so the length frame can count it.
                let ghost ms = var_models(values@);
                let ghost total = spec_write_value(self@);
                proof {
                    lemma_var_models(values@);
                    lemma_write_values_len(ms);
                    lemma_compressed_int_len(ms.len() as int);
                    lemma_compressed_int_len(
                        (1 + spec_compressed_int(ms.len() as int).len() + spec_write_values(
                            ms,
                        ).len()) as int,
                    );
                }
                let mut body: Vec<u8> = Vec::new();
                write_compressed_int(&mut body, values.len() as i64);
                proof {
                    assert(spec_write_values(ms).len() <= total.len());
                }
                let ghost header = body@;
                let mut i: usize = 0;
                proof {
                    assert(ms.subrange(0, ms.len() as int) =~= ms);
                }
                proof {
                    assert(decreases_to!(*self => *values));
                }
                while i < values.len()
                    invariant
                        i <= values@.len(),
                        decreases_to!(*self => *values),
                        ms == var_models(values@),
                        ms.len() == values@.len(),
                        forall|j: int| 0 <= j < values@.len() ==> #[trigger] ms[j] == var_model(values@[j]),
                        header + spec_write_values(ms) == body@ + spec_write_values(
                            ms.subrange(i as int, ms.len() as int),
                        ),
                        spec_write_values(ms).len() <= i64::MAX,
                        body@.len() >= header.len(),
                    decreases values@.len() - i,
                {
                    let v = &values[i];
                    proof {
                        assert(decreases_to!(*values => values@[i as int]));
                    }
                    let ghost rest = ms.subrange(i as int, ms.len() as int);
                    proof {
                        assert(rest[0] == ms[i as int]);
                        assert(rest.drop_first() =~= ms.subrange(i + 1, ms.len() as int));
                        lemma_write_values_suffix_len(ms, i as int);
                        assert(v@ == ms[i as int]);
                        let sfx = spec_write_values(ms.subrange(i as int, ms.len() as int));
                        assert((header + spec_write_values(ms)).len() == (body@ + sfx).len());
                        assert(sfx.len() <= spec_write_values(ms).len());
                        assert(spec_write_value(v@).len() <= sfx.len());
                    }
                    v.write_to_stream(&mut body);
                    i = i + 1;
                    proof {
                        assert(header + spec_write_values(ms) =~= body@ + spec_write_values(
                            ms.subrange(i as int, ms.len() as int),
                        ));
                    }
                }
                proof {
                    assert(ms.subrange(ms.len() as int, ms.len() as int) =~= Seq::<VarModel>::empty());
                    assert(body@ =~= header + spec_write_values(ms));
                }
                write_compressed_int(out, 1 + body.len() as i64);
                out.push(marker::ARRAY);
                push_all(out, body.as_slice());
                proof {
                    assert(out@ =~= old(out)@ + spec_write_value(self@));
                }
            },
            Value::Undefined => {
                write_compressed_int(out, 1);
                out.push(marker::UNDEFINED);
                proof {
                    assert(out@ =~= old(out)@ + spec_write_value(self@));
                }
            },
            Value::Unknown { type_id, data } => {
                proof {
                    lemma_compressed_int_len((1 + data@.len()) as int);
                }
                write_compressed_int(out, 1 + data.len() as i64);
                out.push(*type_id);
                push_all(out, data.as_slice());
                proof {
                    assert(out@ =~= old(out)@ + spec_write_value(self@));
                }
            },
        }
    }
}

pub open spec fn spec_as_int(v: VarModel) -> Option<i64> {
    match v {
        VarModel::Int(i) => Some(i),
        VarModel::Int64(i) => Some(i),
        _ => None,
    }
}

/// `i as i32` as an unsigned 32-bit pattern.
fn low_bits_u32(i: i64) -> (r: u64)
    ensures
        r as nat == low_bits(i as int, 0x1_0000_0000),
        r < 0x1_0000_0000,
{
    if i >= 0 {
        (i as u64) % 0x1_0000_0000
    } else {
        let k = (-(i + 1)) as u64;
        proof {
            let q = k as int / 0x1_0000_0000;
            let r = k as int % 0x1_0000_0000;
            assert(k as int == q * 0x1_0000_0000 + r);
            assert(i as int == (-(q + 1)) * 0x1_0000_0000 + (0xffff_ffff - r));
            assert((i as int) % 0x1_0000_0000 == 0xffff_ffff - r) by (nonlinear_arith)
                requires
                    i as int == (-(q + 1)) * 0x1_0000_0000 + (0xffff_ffff - r),
                    0 <= r < 0x1_0000_0000,
            ;
        }
        0xffff_ffff - k % 0x1_0000_0000
    }
}

/// `i` as an unsigned 64-bit pattern.
fn low_bits_u64(i: i64) -> (r: u64)
    ensures
        r as nat == low_bits(i as int, 0x1_0000_0000_0000_0000),
{
    if i >= 0 {
        i as u64
    } else {
        let k = (-(i + 1)) as u64;
        proof {
            assert(i as int == (-1) * 0x1_0000_0000_0000_0000 + (0xffff_ffff_ffff_ffff - k));
            assert((i as int) % 0x1_0000_0000_0000_0000 == 0xffff_ffff_ffff_ffff - k) by (nonlinear_arith)
                requires
                    i as int == (-1) * 0x1_0000_0000_0000_0000 + (0xffff_ffff_ffff_ffff - k),
                    0 <= k < 0x8000_0000_0000_0000,
            ;
        }
        0xffff_ffff_ffff_ffff - k
    }
}

pub proof fn lemma_compressed_int_len(v: int)
    ensures
        spec_compressed_int(v).len() == 1 + sig_bytes(abs(v), 4),
        1 <= spec_compressed_int(v).len() <= 5,
{
    lemma_sig_bytes_cap(abs(v), 4);
    lemma_le_bytes_len(abs(v), sig_bytes(abs(v), 4));
}

pub proof fn lemma_sig_bytes_cap(m: nat, cap: nat)
    ensures
        sig_bytes(m, cap) <= cap,
    decreases cap,
{
    if m != 0 && cap != 0 {
        lemma_sig_bytes_cap(m / 256, (cap - 1) as nat);
    }
}

proof fn lemma_write_values_len(vs: Seq<VarModel>)
    ensures
        spec_write_values(vs).len() >= vs.len(),
    decreases vs.len(),
{
    if vs.len() > 0 {
        lemma_write_values_len(vs.drop_first());
        lemma_write_value_nonempty(vs[0]);
    }
}

pub proof fn lemma_write_value_nonempty(v: VarModel)
    ensures
        spec_write_value(v).len() >= 2,
{
    match v {
        VarModel::Bool(b) => lemma_compressed_int_len(1),
        VarModel::Int(i) => lemma_compressed_int_len(5),
        VarModel::Int64(i) => lemma_compressed_int_len(9),
        VarModel::Double(d) => lemma_compressed_int_len(9),
        VarModel::Str(cs) => lemma_compressed_int_len((1 + encode_utf8(cs).len() + 1) as int),
        VarModel::Array(vs) => {
            let body = spec_compressed_int(vs.len() as int) + spec_write_values(vs);
            lemma_compressed_int_len((1 + body.len()) as int);
        },
        VarModel::Binary(d) => lemma_compressed_int_len((1 + d.len()) as int),
        VarModel::Undefined => lemma_compressed_int_len(1),
        VarModel::Unknown { type_id, data } => lemma_compressed_int_len((1 + data.len()) as int),
    }
}

/// Every suffix of a value list is written after its prefix.
proof fn lemma_write_values_suffix_len(ms: Seq<VarModel>, i: int)
    requires
        0 <= i < ms.len(),
    ensures
        spec_write_values(ms.subrange(i, ms.len() as int)) == spec_write_value(ms[i])
            + spec_write_values(ms.subrange(i + 1, ms.len() as int)),
{
    let rest = ms.subrange(i, ms.len() as int);
    assert(rest.drop_first() =~= ms.subrange(i + 1, ms.len() as int));
}

/// Write a JUCE `writeCompressedInt` (the inverse of [`read_compressed_int`]).
pub fn write_compressed_int(out: &mut Vec<u8>, value: i64)
    ensures
        final(out)@ == old(out)@ + spec_compressed_int(value as int),
{
    let negative = value < 0;
    let magnitude: u64 = if value < 0 {
        if value == i64::MIN {
            0x8000_0000_0000_0000
        } else {
            (-value) as u64
        }
    } else {
        value as u64
    };
    let mut rest = magnitude;
    let mut num_bytes: usize = 0;
    while rest != 0 && num_bytes < 4
        invariant
            num_bytes <= 4,
            sig_bytes(magnitude as nat, 4) == num_bytes + sig_bytes(
                rest as nat,
                (4 - num_bytes) as nat,
            ),
        decreases 4 - num_bytes,
    {
        rest = rest / 256;
        num_bytes = num_bytes + 1;
    }
    proof {
        assert(magnitude as nat == abs(value as int));
        assert(sig_bytes(rest as nat, (4 - num_bytes) as nat) == 0);
    }
    let size_byte: u8 = if negative {
        num_bytes as u8 + 0x80
    } else {
        num_bytes as u8
    };
    out.push(size_byte);
    push_le(out, magnitude, num_bytes);
    proof {
        assert(out@ =~= old(out)@ + spec_compressed_int(value as int));
    }
}

/// Take one byte at the cursor.
fn take_u8(data: &[u8], pos: &mut usize) -> (r: Option<u8>)
    ensures
        match r {
            Some(b) => *old(pos) < data@.len() && b == data@[*old(pos) as int] && *final(pos)
                == *old(pos) + 1,
            None => *old(pos) >= data@.len() && *final(pos) == *old(pos),
        },
{
    if *pos < data.len() {
        let b = data[*pos];
        *pos = *pos + 1;
        Some(b)
    } else {
        None
    }
}

/// Take `n` bytes at the cursor.
fn take_bytes<'a>(data: &'a [u8], pos: &mut usize, n: usize) -> (r: Option<&'a [u8]>)
    ensures
        match r {
            Some(b) => *old(pos) + n <= data@.len() && b@ == data@.subrange(
                *old(pos) as int,
                *old(pos) + n,
            ) && *final(pos) == *old(pos) + n,
            None => *old(pos) + n > data@.len() && *final(pos) == *old(pos),
        },
{
    let start = *pos;
    if start <= data.len() && n <= data.len() - start {
        let slice = slice_subrange(data, start, start + n);
        *pos = start + n;
        Some(slice)
    } else {
        None
    }
}

/// How far a failed compressed-int read moves the cursor: past the size
/// byte, when there is one.
pub open spec fn spec_compressed_int_stop(s: Seq<u8>) -> int {
    if s.len() == 0 {
        0
    } else {
        1
    }
}

/// Read a JUCE `writeCompressedInt`: one size byte (low 7 bits = value byte
/// count, capped at 4; high bit = sign) then that many little-endian bytes.
pub fn read_compressed_int(data: &[u8], pos: &mut usize) -> (r: Option<i64>)
    ensures
        match spec_read_compressed_int(tail(data@, *old(pos) as int)) {
            Some((v, c)) => r == Some(v as i64) && v == r.unwrap() as int && *final(pos)
                == *old(pos) + c,
            None => r is None && *final(pos) == *old(pos) + spec_compressed_int_stop(
                tail(data@, *old(pos) as int),
            ),
        },
        *final(pos) >= *old(pos),
        r matches Some(v) ==> -0x1_0000_0000 < v < 0x1_0000_0000,
{
    let ghost s = tail(data@, *old(pos) as int);
    let size_byte = match take_u8(data, pos) {
        Some(b) => b,
        None => {
            return None;
        },
    };
    proof {
        assert(s[0] == size_byte);
    }
    let num_bytes = (size_byte % 128) as usize;
    if num_bytes == 0 {
        return Some(0);
    }
    if num_bytes > 4 {
        // JUCE treats this as corrupt data and bails.
        return None;
    }
    let start = *pos;
    if num_bytes > data.len() - start {
        return None;
    }
    let m = read_le(data, start, num_bytes);
    proof {
        assert(s.subrange(1, 1 + num_bytes as int) =~= data@.subrange(
            start as int,
            start + num_bytes,
        ));
        lemma_le_value_bound(data@.subrange(start as int, start + num_bytes));
        lemma_pow256_mono(num_bytes as nat, 4);
        lemma_pow256_values();
    }
    *pos = start + num_bytes;
    let value: i64 = if size_byte >= 128 {
        -(m as i64)
    } else {
        m as i64
    };
    Some(value)
}

/// Read a NUL-terminated UTF-8 string (`juce::OutputStream::writeString`).
pub fn read_cstring<'a>(data: &'a [u8], pos: &mut usize) -> (r: Option<&'a str>)
    ensures
        match spec_read_cstring(tail(data@, *old(pos) as int)) {
            Some((cs, c)) => r matches Some(s) && s@ == cs && *final(pos) == *old(pos) + c,
            None => r is None && *final(pos) == *old(pos),
        },
{
    let ghost s = tail(data@, *old(pos) as int);
    let start = *pos;
    if start > data.len() {
        return None;
    }
    let mut i = start;
    while i < data.len() && data[i] != 0
        invariant
            start <= i <= data@.len(),
            s == data@.subrange(start as int, data@.len() as int),
            first_nul(s) == match first_nul(data@.subrange(i as int, data@.len() as int)) {
                Some(k) => Some(k + (i - start)),
                None => None,
            },
        decreases data@.len() - i,
    {
        proof {
            let t = data@.subrange(i as int, data@.len() as int);
            assert(t.drop_first() =~= data@.subrange(i + 1, data@.len() as int));
        }
        i = i + 1;
    }
    if i == data.len() {
        proof {
            assert(data@.subrange(i as int, data@.len() as int).len() == 0);
        }
        return None;
    }
    proof {
        let t = data@.subrange(i as int, data@.len() as int);
        assert(t[0] == 0);
        assert(s.subrange(0, i - start) =~= data@.subrange(start as int, i as int));
    }
    let text = match utf8_str(slice_subrange(data, start, i)) {
        Some(t) => t,
        None => {
            return None;
        },
    };
    *pos = i + 1;  // skip the NUL
    Some(text)
}

/// Read a single `juce::var` (`var::readFromStream`).
///
/// A `writeCompressedInt` length frame (`1 + payload_len`), then the marker
/// byte, then the payload. A zero-length frame is a void var.
#[verifier::rlimit(80)]
pub fn read_value(data: &[u8], pos: &mut usize) -> (r: Option<Value>)
    ensures
        match spec_read_value(tail(data@, *old(pos) as int)) {
            Some((m, c)) => r matches Some(v) && v@ == m && *final(pos) == *old(pos) + c,
            None => r is None && *final(pos) == *old(pos) + spec_value_stop(tail(data@, *old(pos) as int)),
        },
        *final(pos) >= *old(pos),
    decreases data@.len() - *old(pos),
{
    let ghost s = tail(data@, *old(pos) as int);
    let start = *pos;
    let data_len = match read_compressed_int(data, pos) {
        Some(v) => v,
        None => {
            proof {
                assert(spec_value_stop(s) == *pos - start);
            }
            return None;
        },
    };
    if data_len <= 0 {
        // numBytes == 0 -> JUCE returns a void var.
        proof {
            assert(spec_read_value(s) == Some((VarModel::Undefined, *pos - start)));
        }
        return Some(Value::Undefined);
    }
    let after_len = *pos;
    let type_byte = match take_u8(data, pos) {
        Some(b) => b,
        None => {
            proof {
                assert(spec_value_stop(s) == *pos - start);
            }
            return None;
        },
    };
    let h = *pos;
    let ghost c = after_len - start;
    let ghost p = s.subrange(c + 1, s.len() as int);
    proof {
        assert(s[c] == type_byte);
        assert(p =~= tail(data@, h as int));
    }
    let value_len = (data_len - 1) as usize;
    if type_byte == marker::INT {
        // JUCE writes a fixed 4-byte `writeInt`.
        match take_bytes(data, pos, 4) {
            Some(b) => {
                let u = read_le(b, 0, 4);
                proof {
                    assert(b@.subrange(0, 4) =~= p.subrange(0, 4));
                    lemma_pow256_values();
                    lemma_le_value_bound(b@.subrange(0, 4));
                }
                let i: i64 = if u >= 0x8000_0000 {
                    u as i64 - 0x1_0000_0000
                } else {
                    u as i64
                };
                proof {
                    assert(spec_read_value(s) == Some((VarModel::Int(i), c + 1 + 4)));
                }
                Some(Value::Int(i))
            },
            None => {
                proof {
                    assert(spec_read_value(s) is None);
                    assert(spec_value_stop(s) == *pos - start);
                }
                None
            },
        }
    } else if type_byte == marker::BOOL_TRUE {
        proof {
            assert(spec_read_value(s) == Some((VarModel::Bool(true), c + 1)));
        }
        Some(Value::Bool(true))
    } else if type_byte == marker::BOOL_FALSE {
        proof {
            assert(spec_read_value(s) == Some((VarModel::Bool(false), c + 1)));
        }
        Some(Value::Bool(false))
    } else if type_byte == marker::DOUBLE {
        match take_bytes(data, pos, 8) {
            Some(b) => {
                let u = read_le(b, 0, 8);
                proof {
                    assert(b@.subrange(0, 8) =~= p.subrange(0, 8));
                }
                proof {
                    assert(spec_read_value(s) == Some((VarModel::Double(u), c + 1 + 8)));
                }
                Some(Value::Double(u))
            },
            None => {
                proof {
                    assert(spec_read_value(s) is None);
                    assert(spec_value_stop(s) == *pos - start);
                }
                None
            },
        }
    } else if type_byte == marker::STRING {
        match take_bytes(data, pos, value_len) {
            Some(b) => {
                proof {
                    assert(b@ =~= p.subrange(0, value_len as int));
                }
                match read_padded_text(b) {
                    Some(text) => {
                        proof {
                            assert(spec_read_value(s) == Some((VarModel::Str(text@), c + 1 + value_len)));
                        }
                        Some(Value::String(text))
                    },
                    None => {
                        proof {
                    assert(spec_read_value(s) is None);
                    assert(spec_value_stop(s) == *pos - start);
                }
                        None
                    },
                }
            },
            None => {
                proof {
                    assert(spec_read_value(s) is None);
                    assert(spec_value_stop(s) == *pos - start);
                }
                None
            },
        }
    } else if type_byte == marker::INT64 {
        match take_bytes(data, pos, 8) {
            Some(b) => {
                let u = read_le(b, 0, 8);
                proof {
                    assert(b@.subrange(0, 8) =~= p.subrange(0, 8));
                }
                let i: i64 = if u < 0x8000_0000_0000_0000 {
                    u as i64
                } else {
                    i64::MIN + (u - 0x8000_0000_0000_0000) as i64
                };
                proof {
                    assert(spec_read_value(s) == Some((VarModel::Int64(i), c + 1 + 8)));
                }
                Some(Value::Int64(i))
            },
            None => {
                proof {
                    assert(spec_read_value(s) is None);
                    assert(spec_value_stop(s) == *pos - start);
                }
                None
            },
        }
    } else if type_byte == marker::ARRAY {
        let count = match read_compressed_int(data, pos) {
            Some(v) => v,
            None => {
                proof {
                    assert(tail(data@, h as int) =~= p);
                    assert(spec_value_stop(s) == *pos - start);
                }
                return None;
            },
        };
        if count < 0 {
            proof {
                assert(tail(data@, h as int) =~= p);
                assert(spec_value_stop(s) == *pos - start);
            }
            return None;
        }
        let count = count as usize;
        let items_start = *pos;
        let ghost c2 = items_start - h;
        let ghost items = p.subrange(c2, p.len() as int);
        proof {
            assert(items =~= tail(data@, items_start as int));
        }
        let mut values: Vec<Value> = Vec::new();
        let mut i: usize = 0;
        proof {
            assert(spec_read_value(s) == match spec_read_values(items, count as nat) {
                Some((vs, k)) => Some((VarModel::Array(vs), (items_start - start) + k)),
                None => None,
            });
            assert(spec_value_stop(s) == (items_start - start) + spec_values_stop(items, count as nat));
        }
        while i < count
            invariant
                i <= count,
                spec_read_value(s) == match spec_read_values(items, count as nat) {
                    Some((vs, k)) => Some((VarModel::Array(vs), (items_start - start) + k)),
                    None => None,
                },
                spec_value_stop(s) == (items_start - start) + spec_values_stop(items, count as nat),
                spec_values_stop(items, count as nat) == (*pos - items_start) + spec_values_stop(
                    tail(data@, *pos as int),
                    (count - i) as nat,
                ),
                s == tail(data@, start as int),
                items_start <= *pos <= data@.len(),
                start < items_start,
                *old(pos) == start,
                items == tail(data@, items_start as int),
                spec_read_values(items, count as nat) == match spec_read_values(
                    tail(data@, *pos as int),
                    (count - i) as nat,
                ) {
                    Some((vs, k)) => Some((var_models(values@) + vs, (*pos - items_start) + k)),
                    None => None,
                },
            decreases count - i,
        {
            let here = *pos;
            proof {
                let t = tail(data@, here as int);
                reveal_with_fuel(spec_read_values, 2);
                assert(spec_read_values(t, (count - i) as nat) == match spec_read_value(t) {
                    None => None,
                    Some((v, c)) => if 0 <= c <= t.len() {
                        match spec_read_values(t.subrange(c, t.len() as int), (count - i - 1) as nat) {
                            Some((vs, k)) => Some((seq![v] + vs, c + k)),
                            None => None,
                        }
                    } else {
                        None
                    },
                });
            }
            let v = match read_value(data, pos) {
                Some(v) => v,
                None => {
                    proof {
                        let t = tail(data@, here as int);
                        assert(spec_values_stop(t, (count - i) as nat) == spec_value_stop(t));
                        assert(spec_value_stop(s) == *pos - start);
                    }
                    return None;
                },
            };
            proof {
                let t = tail(data@, here as int);
                lemma_read_value_consumes(t);
                let c = *pos - here;
                assert(t.subrange(c, t.len() as int) =~= tail(data@, *pos as int));
                assert(spec_values_stop(t, (count - i) as nat) == c + spec_values_stop(
                    tail(data@, *pos as int),
                    (count - i - 1) as nat,
                ));
                let ghost old_models = var_models(values@);
                assert(var_models(values@.push(v)) == old_models.push(v@)) by {
                    assert(values@.push(v).drop_last() =~= values@);
                }
                match spec_read_values(tail(data@, *pos as int), (count - i - 1) as nat) {
                    Some((vs, k)) => {
                        assert(old_models + (seq![v@] + vs) =~= old_models.push(v@) + vs);
                    },
                    None => {},
                }
            }
            values.push(v);
            i = i + 1;
        }
        proof {
            assert(var_models(values@) + Seq::<VarModel>::empty() =~= var_models(values@));
        }
        proof {
            assert(spec_read_values(items, count as nat) == Some((var_models(values@), *pos - items_start)));
            assert(spec_read_value(s) == Some((VarModel::Array(var_models(values@)), *pos - start)));
        }
        Some(Value::Array(values))
    } else if type_byte == marker::BINARY {
        match take_bytes(data, pos, value_len) {
            Some(b) => {
                proof {
                    assert(b@ =~= p.subrange(0, value_len as int));
                }
                let d = copy_range(b, 0, b.len());
                proof {
                    assert(d@ =~= b@);
                    assert(spec_read_value(s) == Some((VarModel::Binary(d@), c + 1 + value_len)));
                }
                Some(Value::Binary(d))
            },
            None => {
                proof {
                    assert(spec_read_value(s) is None);
                    assert(spec_value_stop(s) == *pos - start);
                }
                None
            },
        }
    } else if type_byte == marker::UNDEFINED {
        proof {
            assert(spec_read_value(s) == Some((VarModel::Undefined, c + 1)));
        }
        Some(Value::Undefined)
    } else {
        match take_bytes(data, pos, value_len) {
            Some(b) => {
                proof {
                    assert(b@ =~= p.subrange(0, value_len as int));
                }
                let d = copy_range(b, 0, b.len());
                proof {
                    assert(d@ =~= b@);
                    assert(spec_read_value(s) == Some((VarModel::Unknown { type_id: type_byte, data: d@ }, c + 1 + value_len)));
                }
                Some(Value::Unknown { type_id: type_byte, data: d })
            },
            None => {
                proof {
                    assert(spec_read_value(s) is None);
                    assert(spec_value_stop(s) == *pos - start);
                }
                None
            },
        }
    }
}

/// Decode a NUL-padded UTF-8 payload, dropping the trailing NULs.
fn read_padded_text(bytes: &[u8]) -> (r: Option<String>)
    ensures
        match padded_text(bytes@) {
            Some(cs) => r matches Some(s) && s@ == cs,
            None => r is None,
        },
{
    let mut k = bytes.len();
    proof {
        assert(bytes@.subrange(0, k as int) =~= bytes@);
    }
    while k > 0 && bytes[k - 1] == 0
        invariant
            k <= bytes@.len(),
            strip_trailing_zeros(bytes@) == strip_trailing_zeros(bytes@.subrange(0, k as int)),
        decreases k,
    {
        proof {
            assert(bytes@.subrange(0, k as int).drop_last() =~= bytes@.subrange(0, k - 1));
        }
        k = k - 1;
    }
    proof {
        let t = bytes@.subrange(0, k as int);
        assert(strip_trailing_zeros(t) == t);
        lemma_valid_iff_stripped_valid(bytes@);
    }
    match utf8_str(slice_subrange(bytes, 0, k)) {
        Some(s) => Some(s.to_owned()),
        None => None,
    }
}

/// A successful read consumes at least one byte and stays inside the input.
pub proof fn lemma_read_value_consumes(s: Seq<u8>)
    ensures
        spec_read_value(s) matches Some((m, c)) ==> 1 <= c <= s.len(),
    decreases s.len(), 0int, 0nat,
{
    match spec_read_compressed_int(s) {
        None => {},
        Some((len, c)) => {
            if len > 0 && s.len() > c {
                let h = c + 1;
                let p = s.subrange(h, s.len() as int);
                if s[c] == marker::ARRAY {
                    match spec_read_compressed_int(p) {
                        None => {},
                        Some((count, c2)) => {
                            if count >= 0 {
                                lemma_read_values_consumes(
                                    p.subrange(c2, p.len() as int),
                                    count as nat,
                                );
                            }
                        },
                    }
                }
            }
        },
    }
}

pub proof fn lemma_read_values_consumes(s: Seq<u8>, n: nat)
    ensures
        spec_read_values(s, n) matches Some((vs, k)) ==> 0 <= k <= s.len() && vs.len() == n,
    decreases s.len(), 1int, n,
{
    if n > 0 {
        lemma_read_value_consumes(s);
        match spec_read_value(s) {
            None => {},
            Some((v, c)) => {
                if 0 <= c <= s.len() {
                    lemma_read_values_consumes(s.subrange(c, s.len() as int), (n - 1) as nat);
                }
            },
        }
    }
}

/// A position-tracking reader over a byte slice: the shared cursor for the
/// `juce::var` decode (the full ValueTree walk in [`crate::valuetree`]).
pub struct Reader<'a> {
    data: &'a [u8],
    pos: usize,
}

impl<'a> Reader<'a> {
    /// The bytes being read.
    pub closed spec fn bytes(&self) -> Seq<u8> {
        self.data@
    }

    /// The cursor position.
    pub closed spec fn position(&self) -> int {
        self.pos as int
    }

    /// The unread bytes.
    pub open spec fn rest(&self) -> Seq<u8> {
        tail(self.bytes(), self.position())
    }

    /// The cursor is never negative, and a `usize`.
    pub proof fn lemma_position_bounds(&self)
        ensures
            0 <= self.position() <= usize::MAX,
    {
    }

    pub fn new(data: &'a [u8]) -> (r: Self)
        ensures
            r.bytes() == data@,
            r.position() == 0,
    {
        Self { data, pos: 0 }
    }

    /// Bytes left from the current position.
    pub fn remaining(&self) -> (r: usize)
        ensures
            0 <= self.position(),
            r == self.rest().len(),
            r as int == if self.position() <= self.bytes().len() {
                self.bytes().len() - self.position()
            } else {
                0
            },
    {
        if self.pos <= self.data.len() {
            self.data.len() - self.pos
        } else {
            0
        }
    }

    pub fn read_u8(&mut self) -> (r: Option<u8>)
        ensures
            0 <= old(self).position(),
            final(self).bytes() == old(self).bytes(),
            match r {
                Some(b) => old(self).rest().len() > 0 && b == old(self).rest()[0]
                    && final(self).position() == old(self).position() + 1,
                None => old(self).rest().len() == 0 && final(self).position() == old(self).position(),
            },
    {
        take_u8(self.data, &mut self.pos)
    }

    pub fn read_compressed_int(&mut self) -> (r: Option<i64>)
        ensures
            final(self).bytes() == old(self).bytes(),
            final(self).position() >= old(self).position(),
            r matches Some(v) ==> -0x1_0000_0000 < v < 0x1_0000_0000,
            match spec_read_compressed_int(old(self).rest()) {
                Some((v, c)) => r == Some(v as i64) && v == r.unwrap() as int && final(self).position() == old(self).position() + c,
                None => r is None && final(self).position() == old(self).position()
                    + spec_compressed_int_stop(old(self).rest()),
            },
    {
        read_compressed_int(self.data, &mut self.pos)
    }

    pub fn read_cstring(&mut self) -> (r: Option<&'a str>)
        ensures
            final(self).bytes() == old(self).bytes(),
            match spec_read_cstring(old(self).rest()) {
                Some((cs, c)) => r matches Some(s) && s@ == cs && final(self).position() == old(self).position() + c,
                None => r is None && final(self).position() == old(self).position(),
            },
    {
        read_cstring(self.data, &mut self.pos)
    }

    pub fn read_value(&mut self) -> (r: Option<Value>)
        ensures
            final(self).bytes() == old(self).bytes(),
            final(self).position() >= old(self).position(),
            match spec_read_value(old(self).rest()) {
                Some((m, c)) => r matches Some(v) && v@ == m && final(self).position() == old(self).position() + c,
                None => r is None && final(self).position() == old(self).position()
                    + spec_value_stop(old(self).rest()),
            },
    {
        read_value(self.data, &mut self.pos)
    }
}

} // verus!

verus! {

// ---------------------------------------------------------------------------
// Round trips

proof fn lemma_sig_bytes_fit(m: nat, cap: nat)
    requires
        m < pow256(cap),
    ensures
        m < pow256(sig_bytes(m, cap)),
        sig_bytes(m, cap) == 0 <==> m == 0 || cap == 0,
    decreases cap,
{
    lemma_pow256_positive(sig_bytes(m, cap));
    if m != 0 && cap != 0 {
        lemma_sig_bytes_fit(m / 256, (cap - 1) as nat);
    }
}

/// `readCompressedInt` gives back what `writeCompressedInt` wrote, whatever
/// follows it, for every value whose magnitude fits the four value bytes.
pub proof fn lemma_compressed_int_round_trip(v: int, rest: Seq<u8>)
    requires
        -0x1_0000_0000 < v < 0x1_0000_0000,
    ensures
        spec_read_compressed_int(spec_compressed_int(v) + rest) == Some(
            (v, spec_compressed_int(v).len() as int),
        ),
{
    let m = abs(v);
    let n = sig_bytes(m, 4);
    lemma_pow256_values();
    lemma_sig_bytes_fit(m, 4);
    lemma_sig_bytes_cap(m, 4);
    lemma_le_round_trip(m, n);
    let w = spec_compressed_int(v);
    let s = w + rest;
    assert(s[0] == w[0]);
    assert(w[0] as int == n + if v < 0 { 128int } else { 0int });
    assert(s[0] % 128 == n);
    if n > 0 {
        assert(s.subrange(1, 1 + n as int) =~= le_bytes(m, n));
    }
}

proof fn lemma_low_bits_32(i: i64)
    requires
        -0x8000_0000 <= i < 0x8000_0000,
    ensures
        low_bits(i as int, 0x1_0000_0000) < 0x1_0000_0000,
        from_u32_bits(low_bits(i as int, 0x1_0000_0000)) == i,
{
    if i < 0 {
        assert((i as int) % 0x1_0000_0000 == i + 0x1_0000_0000) by (nonlinear_arith)
            requires
                -0x8000_0000 <= i < 0,
        ;
    } else {
        assert((i as int) % 0x1_0000_0000 == i) by (nonlinear_arith)
            requires
                0 <= i < 0x8000_0000,
        ;
    }
}

proof fn lemma_low_bits_64(i: i64)
    ensures
        low_bits(i as int, 0x1_0000_0000_0000_0000) < 0x1_0000_0000_0000_0000,
        from_u64_bits(low_bits(i as int, 0x1_0000_0000_0000_0000)) == i,
{
    if i < 0 {
        assert((i as int) % 0x1_0000_0000_0000_0000 == i + 0x1_0000_0000_0000_0000) by (nonlinear_arith)
            requires
                -0x8000_0000_0000_0000 <= i < 0,
        ;
    } else {
        assert((i as int) % 0x1_0000_0000_0000_0000 == i) by (nonlinear_arith)
            requires
                0 <= i < 0x8000_0000_0000_0000,
        ;
    }
}

/// The framing every value shares: the length frame reads back, then the marker.
proof fn lemma_frame(len: int, ty: u8, payload: Seq<u8>, rest: Seq<u8>)
    requires
        0 < len < 0x1_0000_0000,
    ensures
        ({
            let s = spec_compressed_int(len) + seq![ty] + payload + rest;
            let c = spec_compressed_int(len).len() as int;
            &&& spec_read_compressed_int(s) == Some((len, c))
            &&& s.len() > c
            &&& s[c] == ty
            &&& s.subrange(c + 1, s.len() as int) == payload + rest
        }),
{
    let s = spec_compressed_int(len) + seq![ty] + payload + rest;
    let c = spec_compressed_int(len).len() as int;
    lemma_compressed_int_round_trip(len, seq![ty] + payload + rest);
    assert(s =~= spec_compressed_int(len) + (seq![ty] + payload + rest));
    assert(s.subrange(c + 1, s.len() as int) =~= payload + rest);
}

proof fn lemma_round_trip_fixed(v: VarModel, rest: Seq<u8>)
    requires
        var_round_trips(v),
        v is Int || v is Int64 || v is Double || v is Bool || v is Undefined,
    ensures
        spec_read_value(spec_write_value(v) + rest) == Some(
            (v, spec_write_value(v).len() as int),
        ),
{
    lemma_pow256_values();
    match v {
        VarModel::Bool(b) => {
            let tag = if b { marker::BOOL_TRUE } else { marker::BOOL_FALSE };
            lemma_frame(1, tag, Seq::empty(), rest);
            assert(spec_write_value(v) =~= spec_compressed_int(1) + seq![tag] + Seq::<u8>::empty());
        },
        VarModel::Undefined => {
            lemma_frame(1, marker::UNDEFINED, Seq::empty(), rest);
            assert(spec_write_value(v) =~= spec_compressed_int(1) + seq![marker::UNDEFINED] + Seq::<u8>::empty());
        },
        VarModel::Int(i) => {
            let x = low_bits(i as int, 0x1_0000_0000);
            let payload = le_bytes(x, 4);
            lemma_low_bits_32(i);
            lemma_le_round_trip(x, 4);
            lemma_frame(5, marker::INT, payload, rest);
            assert((payload + rest).subrange(0, 4) =~= payload);
        },
        VarModel::Int64(i) => {
            let x = low_bits(i as int, 0x1_0000_0000_0000_0000);
            let payload = le_bytes(x, 8);
            lemma_low_bits_64(i);
            lemma_le_round_trip(x, 8);
            lemma_frame(9, marker::INT64, payload, rest);
            assert((payload + rest).subrange(0, 8) =~= payload);
        },
        VarModel::Double(bits) => {
            let payload = le_bytes(bits as nat, 8);
            lemma_le_round_trip(bits as nat, 8);
            lemma_frame(9, marker::DOUBLE, payload, rest);
            assert((payload + rest).subrange(0, 8) =~= payload);
        },
        _ => {},
    }
}

proof fn lemma_round_trip_bytes(v: VarModel, rest: Seq<u8>)
    requires
        var_round_trips(v),
        v is Str || v is Binary || v is Unknown,
    ensures
        spec_read_value(spec_write_value(v) + rest) == Some(
            (v, spec_write_value(v).len() as int),
        ),
{
    match v {
        VarModel::Str(cs) => {
            let e = encode_utf8(cs);
            let payload = spec_cstring(cs);
            let len = (1 + e.len() + 1) as int;
            lemma_frame(len, marker::STRING, payload, rest);
            assert((payload + rest).subrange(0, len - 1) =~= payload);
            encode_utf8_valid_utf8(cs);
            lemma_zeros_valid(seq![0u8]);
            valid_utf8_concat(e, seq![0u8]);
            lemma_encode_no_trailing_zero(cs);
            encode_utf8_decode_utf8(cs);
        },
        VarModel::Binary(d) => {
            let len = (1 + d.len()) as int;
            lemma_frame(len, marker::BINARY, d, rest);
            assert((d + rest).subrange(0, len - 1) =~= d);
        },
        VarModel::Unknown { type_id, data } => {
            let len = (1 + data.len()) as int;
            lemma_frame(len, type_id, data, rest);
            assert((data + rest).subrange(0, len - 1) =~= data);
        },
        _ => {},
    }
}

/// Every well-formed value written by `var::writeToStream` reads back
/// unchanged through `var::readFromStream`, consuming exactly its own bytes.
#[verifier::spinoff_prover]
#[verifier::rlimit(30)]
pub proof fn lemma_value_round_trip(v: VarModel, rest: Seq<u8>)
    requires
        var_round_trips(v),
    ensures
        spec_read_value(spec_write_value(v) + rest) == Some(
            (v, spec_write_value(v).len() as int),
        ),
    decreases v,
{
    match v {
        VarModel::Array(vs) => {
            let n = vs.len() as int;
            let items = spec_write_values(vs);
            let body = spec_compressed_int(n) + items;
            let len = (1 + body.len()) as int;
            lemma_frame(len, marker::ARRAY, body, rest);
            let p = body + rest;
            assert(p =~= spec_compressed_int(n) + (items + rest));
            lemma_compressed_int_round_trip(n, items + rest);
            let c2 = spec_compressed_int(n).len() as int;
            assert(p.subrange(c2, p.len() as int) =~= items + rest);
            lemma_values_round_trip(vs, rest);
        },
        VarModel::Str(_) => lemma_round_trip_bytes(v, rest),
        VarModel::Binary(_) => lemma_round_trip_bytes(v, rest),
        VarModel::Unknown { .. } => lemma_round_trip_bytes(v, rest),
        _ => lemma_round_trip_fixed(v, rest),
    }
}

/// A run of well-formed values reads back as written.
#[verifier::spinoff_prover]
#[verifier::rlimit(30)]
pub proof fn lemma_values_round_trip(vs: Seq<VarModel>, rest: Seq<u8>)
    requires
        vars_round_trip(vs),
    ensures
        spec_read_values(spec_write_values(vs) + rest, vs.len()) == Some(
            (vs, spec_write_values(vs).len() as int),
        ),
    decreases vs,
{
    if vs.len() == 0 {
        assert(spec_write_values(vs) + rest =~= rest);
    } else {
        let first = spec_write_value(vs[0]);
        let others = spec_write_values(vs.drop_first());
        let s = spec_write_values(vs) + rest;
        lemma_value_round_trip(vs[0], others + rest);
        assert(s =~= first + (others + rest));
        assert(s.subrange(first.len() as int, s.len() as int) =~= others + rest);
        lemma_values_round_trip(vs.drop_first(), rest);
        assert(seq![vs[0]] + vs.drop_first() =~= vs);
    }
}

} // verus!
