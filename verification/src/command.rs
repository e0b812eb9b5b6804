//! The command-encoding interface.

use vstd::prelude::*;

verus! {

/// A command that can be encoded into a RODECaster protocol payload.
///
/// Implementors build the inner `juce::var` payload (see [`crate::juce_var`]);
/// wrap the result in a [`crate::frame::Packet`] for the transport. The
/// trait promises nothing of the payload: each implementor owns its format.
pub trait RodeCommand {
    fn build_payload(&self, session_id: &[u8]) -> Vec<u8>;
}

} // verus!
