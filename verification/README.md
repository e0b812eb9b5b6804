# rodecaster protocol, verified

A library for the binary protocol of the RØDECaster Pro II and RØDECaster Duo
consoles (JUCE `ValueTreeSynchroniser` change frames carrying `juce::var`
values), written in Verus: every executable function in `src/` carries a
contract, and the laws that tie the codecs together are proof functions.

Layout:

- `src/juce_var.rs`, `src/valuetree.rs`, `src/change_frame.rs`: the value,
  tree and change-frame codecs, each with a read-after-write law.
- `src/frame.rs`, `src/usb.rs`: TCP and USB HID framing, with their
  scan/reassembly laws.
- `src/names.rs`, `src/names/`: the typed vocabulary (models, sources, mix
  outputs, faders, and one parameter family per node kind).
- `src/layout.rs`: where each node family sits in a full sync.
- `src/commands.rs`, `src/events.rs`: typed writes and reads; their contracts
  are spec functions over the layout's view.
- `src/round_trip.rs`: a command written on a layout is read back as the
  event naming the same address and value.
- `src/session.rs`, `src/capabilities.rs`: the connection lifecycle.
- `src/text.rs`, `src/wire.rs`: UTF-8, decimal text and little-endian helpers;
  the only trusted items (`str::from_utf8` and `str::to_lowercase`) are in
  `src/text.rs`.
- `app/`: what stays outside the verified library: floating-point rendering
  of values, the standard error traits, and the `Send + Sync` assertion.
- `tests/`: the test suites.
