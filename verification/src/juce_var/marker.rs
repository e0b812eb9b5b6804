//! `juce::var` `VariantStreamMarkers`: the byte after a value's length frame.

use vstd::prelude::*;

verus! {

/// 32-bit int. JUCE always writes a fixed 4-byte `writeInt`.
pub const INT: u8 = 0x01;

pub const BOOL_TRUE: u8 = 0x02;

pub const BOOL_FALSE: u8 = 0x03;

/// Double, 8 bytes IEEE 754.
pub const DOUBLE: u8 = 0x04;

/// String, UTF-8 with a trailing NUL inside the frame.
pub const STRING: u8 = 0x05;

/// 64-bit int, 8 bytes.
pub const INT64: u8 = 0x06;

/// Array: a compressed-int element count, then that many values.
pub const ARRAY: u8 = 0x07;

/// Binary blob / `MemoryBlock`: the rest of the frame, raw.
pub const BINARY: u8 = 0x08;

pub const UNDEFINED: u8 = 0x09;

} // verus!
