//! Momentary two-boolean virtual button and trigger pulses.
//!
//! Many action and request properties on RØDECaster devices (such as
//! `mixLinkRequest`, `mixUnlinkRequest`, `padProgressRequestSignal`, and
//! `sipSlotCallDisconnect`) follow a momentary button-pulse pattern.
//!
//! On the wire, these properties encode two serialized booleans:
//! - Press (asserted): `(true, true)` -> `[0x01, 0x01, 0x02, 0x01, 0x01, 0x02]`
//! - Release (idle): `(false, false)` -> `[0x01, 0x01, 0x03, 0x01, 0x01, 0x03]`
//!
//! Physical interactions emit [`TriggerPhase::Press`] on touch-down and
//! [`TriggerPhase::Release`] on touch-up. Commands assert `Press`, and the
//! device resets the property with a `Release` acknowledgment.

use vstd::prelude::*;

use crate::juce_var::marker;
use crate::juce_var::{spec_write_value, Value, VarModel};

verus! {

/// The marker byte of a serialized boolean.
pub open spec fn bool_marker(b: bool) -> u8 {
    if b {
        marker::BOOL_TRUE
    } else {
        marker::BOOL_FALSE
    }
}

/// Two serialized booleans, each a one-byte length frame and its marker.
pub open spec fn spec_bool_pair(a: bool, b: bool) -> Seq<u8> {
    seq![0x01u8, 0x01u8, bool_marker(a), 0x01u8, 0x01u8, bool_marker(b)]
}

/// What [`decode_bool_pair`] makes of a payload.
pub open spec fn spec_decode_bool_pair(s: Seq<u8>) -> Option<(bool, bool)> {
    if s.len() == 6 && s[0] == 0x01 && s[1] == 0x01 && s[3] == 0x01 && s[4] == 0x01 && (s[2]
        == marker::BOOL_TRUE || s[2] == marker::BOOL_FALSE) && (s[5] == marker::BOOL_TRUE || s[5]
        == marker::BOOL_FALSE) {
        Some((s[2] == marker::BOOL_TRUE, s[5] == marker::BOOL_TRUE))
    } else {
        None
    }
}

/// Encode two booleans into the canonical 6-byte JUCE payload.
pub fn bool_pair(a: bool, b: bool) -> (r: [u8; 6])
    ensures
        r@ == spec_bool_pair(a, b),
{
    let byte_a = if a {
        marker::BOOL_TRUE
    } else {
        marker::BOOL_FALSE
    };
    let byte_b = if b {
        marker::BOOL_TRUE
    } else {
        marker::BOOL_FALSE
    };
    let r = [0x01, 0x01, byte_a, 0x01, 0x01, byte_b];
    proof {
        assert(r@ =~= spec_bool_pair(a, b));
    }
    r
}

/// The 6-byte trigger payload when asserting a press: `(true, true)`.
pub const PRESS_BYTES: [u8; 6] = [0x01, 0x01, 0x02, 0x01, 0x01, 0x02];

/// The 6-byte trigger payload when releasing / idle: `(false, false)`.
pub const RELEASE_BYTES: [u8; 6] = [0x01, 0x01, 0x03, 0x01, 0x01, 0x03];

/// Build a `Value::Binary` containing the `(true, true)` press payload.
pub fn press_value() -> (r: Value)
    ensures
        r@ == VarModel::Binary(spec_bool_pair(true, true)),
{
    let bytes = bool_pair(true, true);
    Value::Binary(bytes_to_vec(&bytes))
}

/// Build a `Value::Binary` containing the `(false, false)` release payload.
pub fn release_value() -> (r: Value)
    ensures
        r@ == VarModel::Binary(spec_bool_pair(false, false)),
{
    let bytes = bool_pair(false, false);
    Value::Binary(bytes_to_vec(&bytes))
}

fn bytes_to_vec(bytes: &[u8; 6]) -> (r: Vec<u8>)
    ensures
        r@ == bytes@,
{
    let mut v: Vec<u8> = Vec::new();
    let mut i: usize = 0;
    while i < 6
        invariant
            i <= 6,
            v@ == bytes@.subrange(0, i as int),
        decreases 6 - i,
    {
        v.push(bytes[i]);
        proof {
            assert(v@ =~= bytes@.subrange(0, i + 1));
        }
        i = i + 1;
    }
    proof {
        assert(bytes@.subrange(0, 6) =~= bytes@);
    }
    v
}

/// Decode a 6-byte payload into its two boolean values.
///
/// Returns `None` if the payload does not match the 6-byte two-boolean JUCE format.
pub fn decode_bool_pair(bytes: &[u8]) -> (r: Option<(bool, bool)>)
    ensures
        r == spec_decode_bool_pair(bytes@),
{
    if bytes.len() != 6 {
        return None;
    }
    if bytes[0] != 0x01 || bytes[1] != 0x01 || bytes[3] != 0x01 || bytes[4] != 0x01 {
        return None;
    }
    let a = if bytes[2] == marker::BOOL_TRUE {
        true
    } else if bytes[2] == marker::BOOL_FALSE {
        false
    } else {
        return None;
    };
    let b = if bytes[5] == marker::BOOL_TRUE {
        true
    } else if bytes[5] == marker::BOOL_FALSE {
        false
    } else {
        return None;
    };
    Some((a, b))
}

/// Phase of a momentary button press or trigger pulse.
#[derive(Debug, Clone, Copy, PartialEq, Eq, Structural)]
pub enum TriggerPhase {
    /// Button pressed down / trigger asserted (`(true, true)`).
    Press,
    /// Button released / trigger idle (`(false, false)`).
    Release,
}

/// Backward-compatible type alias for [`TriggerPhase`].
pub type TriggerOrigin = TriggerPhase;

/// What [`decode_phase`] makes of a value: the first boolean of a valid pair
/// says press or release.
pub open spec fn spec_decode_phase(v: VarModel) -> Option<TriggerPhase> {
    match v {
        VarModel::Binary(d) => match spec_decode_bool_pair(d) {
            Some((a, _)) => Some(
                if a {
                    TriggerPhase::Press
                } else {
                    TriggerPhase::Release
                },
            ),
            None => None,
        },
        _ => None,
    }
}

/// Decode the trigger phase from a `Value`.
///
/// Returns `Some(TriggerPhase)` if the value is a valid 6-byte two-boolean payload.
pub fn decode_phase(value: &Value) -> (r: Option<TriggerPhase>)
    ensures
        r == spec_decode_phase(value@),
{
    let bytes = match value {
        Value::Binary(b) => b,
        _ => {
            return None;
        },
    };
    let (a, _b) = match decode_bool_pair(bytes.as_slice()) {
        Some(p) => p,
        None => {
            return None;
        },
    };
    if a {
        Some(TriggerPhase::Press)
    } else {
        Some(TriggerPhase::Release)
    }
}

/// Every pair of booleans decodes to itself, and a payload decodes to a pair
/// only when it is exactly that pair's encoding.
pub proof fn lemma_bool_pair_round_trip(a: bool, b: bool, s: Seq<u8>)
    ensures
        spec_decode_bool_pair(spec_bool_pair(a, b)) == Some((a, b)),
        spec_decode_bool_pair(s) == Some((a, b)) ==> s == spec_bool_pair(a, b),
{
    if spec_decode_bool_pair(s) == Some((a, b)) {
        assert(s =~= spec_bool_pair(a, b));
    }
}

/// The pair is two `juce::var` booleans written back to back.
pub proof fn lemma_bool_pair_is_two_vars(a: bool, b: bool)
    ensures
        spec_bool_pair(a, b) == spec_write_value(VarModel::Bool(a)) + spec_write_value(
            VarModel::Bool(b),
        ),
{
    reveal_with_fuel(crate::juce_var::sig_bytes, 2);
    reveal_with_fuel(crate::wire::le_bytes, 2);
    assert(spec_bool_pair(a, b) =~= spec_write_value(VarModel::Bool(a)) + spec_write_value(
        VarModel::Bool(b),
    ));
}

/// A press value reads as a press and a release value as a release.
pub proof fn lemma_phase_values()
    ensures
        spec_decode_phase(VarModel::Binary(spec_bool_pair(true, true))) == Some(
            TriggerPhase::Press,
        ),
        spec_decode_phase(VarModel::Binary(spec_bool_pair(false, false))) == Some(
            TriggerPhase::Release,
        ),
{
}

} // verus!
