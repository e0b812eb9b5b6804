//! What a command writes is what the device's echo of it reads back.
//!
//! A command that encodes on a layout yields `propertyChanged` payloads; each
//! payload decodes, on the same layout, to the event that names the same
//! logical address (strip or mix cell) and the same value. These laws tie
//! [`crate::commands`] to [`crate::change_frame`] and [`crate::events`].
//!
//! The decoder tries dedicated rules in a fixed order before it falls back to
//! the node family a path lands on. A parameter write reads back as written
//! when no earlier rule claims its property name on that path; the laws for
//! parameter families say so in their hypotheses ([`claimed_by_rule`],
//! [`claimed_before`]). The fallback families need a layout built from a
//! tree, where distinct families sit on differently named nodes.

use vstd::prelude::*;

use crate::change_frame::{
    lemma_property_changed_decodes, lemma_property_changed_round_trip, spec_decode,
    spec_encode_property_changed, FrameModel,
};
use crate::commands::{spec_encode, spec_trigger, Command, EncodeFailure};
use crate::events::{
    EventModel, MixLinkDirection, ParamTarget, rule_app, rule_audio, rule_build, rule_channel,
    rule_current_show, rule_echo, rule_emergency, rule_encoder, rule_fader, rule_fallback,
    rule_fx_preset, rule_hardware, rule_meter, rule_mix, rule_mix_minuses, rule_network,
    rule_pad_recorder, rule_radio, rule_radio_rx, rule_radio_tx, rule_rcsync_mix, rule_recording,
    rule_recordings, rule_show, rule_show_control, rule_sip_advanced, rule_sip_call_slots,
    rule_sip_calling, rule_sip_registration, rule_storage_volume, rule_streamerx_mix_preset,
    rule_streamerx_stream_mix, rule_test, rule_theme, rule_wifi_scan_result,
    spec_decode_change_frame, spec_decode_property, spec_last_index, spec_resolve_target,
};
use crate::juce_var::{var_round_trips, Value, VarModel};
use crate::layout::{
    lemma_first_named, lemma_indexed_round_trip, lemma_mix_cell_round_trip, lemma_two_level_round_trip,
    spec_build, spec_discover_run, spec_discover_two_level, spec_first_named, spec_position,
    spec_run_len, LayoutView, Singleton,
};
use crate::valuetree::NodeModel;
use crate::names::{
    AppParam, AudioParam, BuildParam, ChannelParam, CurrentShowParam, DuckerParam, EffectsParam,
    Fader, FxPresetParam, GuiParam, HeadphoneParam, InputSourceParam, MasterParam, MixMinusesParam,
    MixOutput, NetworkParam, OutputParam, PadParam, PadRecorderParam, PlayerParam, RadioParam,
    RadioRxParam, RadioTxParam, RcSyncMixParam, RecorderParam, RecordingParam, RecordingsParam,
    ShowControlParam, ShowParam, SipAdvancedParam, SipCallSlotsParam, SipCallingParam,
    SipRegistrationParam, Source, StreamerXMixPresetParam, StreamerXStreamMixParam, SystemParam,
    TestParam, ThemeParam, WifiScanResultParam, lemma_app_param_name_round_trip,
    lemma_audio_param_name_round_trip, lemma_build_param_name_round_trip,
    lemma_current_show_param_name_round_trip, lemma_fader_index_round_trip,
    lemma_fx_preset_param_name_round_trip, lemma_mix_minuses_param_name_round_trip,
    lemma_mix_output_protocol_round_trip, lemma_network_param_name_round_trip,
    lemma_pad_recorder_param_name_round_trip, lemma_radio_param_name_round_trip,
    lemma_radio_rx_param_name_round_trip, lemma_radio_tx_param_name_round_trip,
    lemma_rc_sync_mix_param_name_round_trip, lemma_recording_param_name_round_trip,
    lemma_recordings_param_name_round_trip, lemma_show_control_param_name_round_trip,
    lemma_show_param_name_round_trip, lemma_sip_advanced_param_name_round_trip,
    lemma_sip_call_slots_param_name_round_trip, lemma_sip_calling_param_name_round_trip,
    lemma_sip_registration_param_name_round_trip, lemma_source_protocol_round_trip,
    lemma_streamer_x_mix_preset_param_name_round_trip,
    lemma_streamer_x_stream_mix_param_name_round_trip, lemma_test_param_name_round_trip,
    lemma_theme_param_name_round_trip, lemma_wifi_scan_result_param_name_round_trip,
};
use crate::names::{
    lemma_channel_param_name_round_trip, lemma_input_source_param_name_round_trip, lemma_master_param_name_round_trip, lemma_output_param_name_round_trip, lemma_ducker_param_name_round_trip, lemma_recorder_param_name_round_trip, lemma_player_param_name_round_trip, lemma_gui_param_name_round_trip, lemma_system_param_name_round_trip, lemma_headphone_param_name_round_trip, lemma_effects_param_name_round_trip, lemma_pad_param_name_round_trip,
};
use crate::text::no_nul;
use crate::trigger::{spec_bool_pair, spec_decode_bool_pair, spec_decode_phase, TriggerPhase};

verus! {

/// `frame` is a change frame that decodes, on layout `l`, to event `e`.
pub open spec fn decodes_to(frame: Seq<u8>, l: LayoutView, e: EventModel) -> bool {
    spec_decode(frame) matches Some(f) && spec_decode_change_frame(f, l) == e
}

/// The property names the fader and mix commands write, and the facts about
/// them the decoder's rule order depends on: none holds a NUL, and they are
/// pairwise distinct.
proof fn lemma_property_names()
    ensures
        no_nul("channelOutputMute"@),
        no_nul("channelCueEnable"@),
        no_nul("channelInputSource"@),
        no_nul("faderLevel"@),
        no_nul("mixDisabled"@),
        no_nul("mixMute"@),
        no_nul("mixLinkRequest"@),
        no_nul("mixUnlinkRequest"@),
        "channelOutputMute"@ != "channelCueEnable"@,
        "channelOutputMute"@ != "channelInputSource"@,
        "channelCueEnable"@ != "channelInputSource"@,
        "faderLevel"@ != "channelOutputMute"@,
        "faderLevel"@ != "channelCueEnable"@,
        "faderLevel"@ != "channelInputSource"@,
        "mixDisabled"@ != "channelOutputMute"@,
        "mixDisabled"@ != "channelCueEnable"@,
        "mixDisabled"@ != "channelInputSource"@,
        "mixDisabled"@ != "faderLevel"@,
        "mixDisabled"@ != "mixMute"@,
        "mixMute"@ != "channelOutputMute"@,
        "mixMute"@ != "channelCueEnable"@,
        "mixMute"@ != "channelInputSource"@,
        "mixMute"@ != "faderLevel"@,
        "mixLinkRequest"@ != "channelOutputMute"@,
        "mixLinkRequest"@ != "channelCueEnable"@,
        "mixLinkRequest"@ != "channelInputSource"@,
        "mixLinkRequest"@ != "faderLevel"@,
        "mixLinkRequest"@ != "mixMute"@,
        "mixLinkRequest"@ != "mixDisabled"@,
        "mixLinkRequest"@ != "mixLink"@,
        "mixLinkRequest"@ != "mixLevelWithAnchor"@,
        "mixUnlinkRequest"@ != "channelOutputMute"@,
        "mixUnlinkRequest"@ != "channelCueEnable"@,
        "mixUnlinkRequest"@ != "channelInputSource"@,
        "mixUnlinkRequest"@ != "faderLevel"@,
        "mixUnlinkRequest"@ != "mixMute"@,
        "mixUnlinkRequest"@ != "mixDisabled"@,
        "mixUnlinkRequest"@ != "mixLink"@,
        "mixUnlinkRequest"@ != "mixLevelWithAnchor"@,
        "mixUnlinkRequest"@ != "mixLinkRequest"@,
        "mixDisabled"@ != "mixLink"@,
        "mixMute"@ != "mixLink"@,
{
    reveal_strlit("channelOutputMute");
    reveal_strlit("channelCueEnable");
    reveal_strlit("channelInputSource");
    reveal_strlit("faderLevel");
    reveal_strlit("mixDisabled");
    reveal_strlit("mixMute");
    reveal_strlit("mixLink");
    reveal_strlit("mixLinkRequest");
    reveal_strlit("mixUnlinkRequest");
    reveal_strlit("mixLevelWithAnchor");
    assert("channelOutputMute"@.len() == 17);
    assert("channelCueEnable"@.len() == 16);
    assert("channelInputSource"@.len() == 18);
    assert("faderLevel"@.len() == 10);
    assert("mixDisabled"@.len() == 11);
    assert("mixMute"@.len() == 7);
    assert("mixLink"@.len() == 7);
    assert("mixLinkRequest"@.len() == 14);
    assert("mixUnlinkRequest"@.len() == 16);
    assert("mixLevelWithAnchor"@.len() == 18);
    assert("mixMute"@[3] != "mixLink"@[3]);
    assert("mixUnlinkRequest"@[0] != "channelCueEnable"@[0]);
    assert("channelInputSource"@[7] != "mixLevelWithAnchor"@[7]);
}

/// A property change on `path` round-trips through the change-frame codec.
proof fn lemma_frame(path: Seq<u32>, name: Seq<char>, value: VarModel)
    requires
        1 <= path.len() <= 2,
        no_nul(name),
        value matches VarModel::Bool(_) || value == spec_trigger() || (value matches VarModel::Int(i) && -0x8000_0000 <= i < 0x8000_0000),
    ensures
        spec_decode(spec_encode_property_changed(path, name, value)) == Some(
            FrameModel::PropertyChanged { path, name, value },
        ),
{
    lemma_property_changed_round_trip(path, name, value);
}

/// The trigger a link or unlink request writes reads back as a press.
proof fn lemma_trigger_is_press()
    ensures
        spec_decode_phase(spec_trigger()) == Some(TriggerPhase::Press),
{
    assert(spec_decode_bool_pair(spec_bool_pair(true, true)) == Some((true, true)));
}

/// A link or unlink request written to a cell's path is recognized by the
/// mix rule, after the strip rules let it pass.
proof fn lemma_request_rules(l: LayoutView, source: Source, mix: MixOutput, name: Seq<char>)
    requires
        l.spec_mix_cell_path(source.index(), mix.index()) is Some,
        name == "mixLinkRequest"@ || name == "mixUnlinkRequest"@,
    ensures
        ({
            let p = l.spec_mix_cell_path(source.index(), mix.index()).unwrap();
            let v = Some(spec_trigger());
            &&& rule_channel(p, name, v, l) is None
            &&& rule_fader(p, name, v, l) is None
            &&& rule_mix(p, name, v, l) == Some(
                EventModel::MixLinkRequested {
                    source,
                    mix,
                    direction: if name == "mixLinkRequest"@ {
                        MixLinkDirection::Link
                    } else {
                        MixLinkDirection::Unlink
                    },
                    origin: TriggerPhase::Press,
                },
            )
        }),
{
    lemma_property_names();
    lemma_mix_cell(l, source, mix);
    lemma_trigger_is_press();
}

/// Setting a strip's mute is read back as that strip's mute change.
pub proof fn lemma_fader_mute_round_trip(l: LayoutView, fader: Fader, mute: bool)
    requires
        spec_encode(Command::SetFaderMute { fader, mute }, l) is Ok,
    ensures
        ({
            let frames = spec_encode(Command::SetFaderMute { fader, mute }, l)->Ok_0;
            &&& frames.len() == 1
            &&& decodes_to(frames[0], l, EventModel::FaderMuteChanged { fader, muted: mute })
        }),
{
    lemma_property_names();
    let idx = fader.spec_index(l.model).unwrap();
    let p = l.channel.spec_path(idx).unwrap();
    lemma_indexed_round_trip(l.channel, idx, p);
    lemma_fader_index_round_trip(l.model, fader, idx);
    lemma_frame(p, "channelOutputMute"@, VarModel::Bool(mute));
}

/// Setting a strip's cue is read back as that strip's cue change.
pub proof fn lemma_fader_cue_round_trip(l: LayoutView, fader: Fader, enable: bool)
    requires
        spec_encode(Command::SetFaderCue { fader, enable }, l) is Ok,
    ensures
        ({
            let frames = spec_encode(Command::SetFaderCue { fader, enable }, l)->Ok_0;
            &&& frames.len() == 1
            &&& decodes_to(frames[0], l, EventModel::FaderCueChanged { fader, enabled: enable })
        }),
{
    lemma_property_names();
    let idx = fader.spec_index(l.model).unwrap();
    let p = l.channel.spec_path(idx).unwrap();
    lemma_indexed_round_trip(l.channel, idx, p);
    lemma_fader_index_round_trip(l.model, fader, idx);
    lemma_frame(p, "channelCueEnable"@, VarModel::Bool(enable));
}

/// Assigning a source to a strip (or clearing it) is read back as the same
/// assignment.
pub proof fn lemma_fader_source_round_trip(l: LayoutView, fader: Fader, source: Option<Source>)
    requires
        spec_encode(Command::AssignFaderSource { fader, source }, l) is Ok,
    ensures
        ({
            let frames = spec_encode(Command::AssignFaderSource { fader, source }, l)->Ok_0;
            &&& frames.len() == 1
            &&& decodes_to(frames[0], l, EventModel::FaderAssignmentChanged { fader, source })
        }),
{
    lemma_property_names();
    let idx = fader.spec_index(l.model).unwrap();
    let p = l.channel.spec_path(idx).unwrap();
    lemma_indexed_round_trip(l.channel, idx, p);
    lemma_fader_index_round_trip(l.model, fader, idx);
    let raw: i64 = match source {
        Some(s) => s.index() as i64,
        None => -1i64,
    };
    if let Some(s) = source {
        lemma_source_protocol_round_trip(s, s.index());
    }
    lemma_frame(p, "channelInputSource"@, VarModel::Int(raw));
}

/// Setting a strip's level is read back as the same level clamped to the
/// MIDI range `0..=127`: a level above 127 reads back as 127.
pub proof fn lemma_fader_level_round_trip(l: LayoutView, fader: Fader, level: u8)
    requires
        spec_encode(Command::SetFaderLevel { fader, level }, l) is Ok,
    ensures
        ({
            let frames = spec_encode(Command::SetFaderLevel { fader, level }, l)->Ok_0;
            &&& frames.len() == 1
            &&& decodes_to(
                frames[0],
                l,
                EventModel::FaderLevelChanged { fader, level: if level <= 127 { level } else { 127 } },
            )
        }),
{
    lemma_property_names();
    let idx = fader.spec_index(l.model).unwrap();
    let p = l.fader.spec_path(idx).unwrap();
    lemma_two_level_round_trip(l.fader, idx, p);
    lemma_fader_index_round_trip(l.model, fader, idx);
    lemma_frame(p, "faderLevel"@, VarModel::Int(level as i64));
}

/// The strip, property name and value of a command that writes one property
/// of a strip's `CHANNEL` node; `None` for every other command.
pub open spec fn channel_write(cmd: Command) -> Option<(Fader, Seq<char>, VarModel)> {
    match cmd {
        Command::SetFaderMute { fader, mute } => Some((fader, "channelOutputMute"@, VarModel::Bool(mute))),
        Command::SetFaderCue { fader, enable } => Some((fader, "channelCueEnable"@, VarModel::Bool(enable))),
        Command::AssignFaderSource { fader, source } => Some(
            (
                fader,
                "channelInputSource"@,
                VarModel::Int(
                    match source {
                        Some(s) => s.index() as i64,
                        None => -1i64,
                    },
                ),
            ),
        ),
        Command::SetChannelParam { fader, param, value } => Some((fader, param.wire_name(), value@)),
        _ => None,
    }
}

/// A command that writes a strip's `CHANNEL` node fails with
/// `FaderNotOnModel` when the strip is not on the layout's model, with
/// `OutOfRange` (what `"fader"`, the strip's index, the channel count) when
/// the strip has no `CHANNEL` node, and otherwise writes exactly one frame,
/// which, whenever `decode` accepts it, is a property change on the strip's
/// channel path (of that name, when the name has no NUL), and which decodes
/// to exactly that property change whenever the name has no NUL and the value
/// survives the codec.
pub proof fn lemma_channel_command_encoding(l: LayoutView, cmd: Command)
    requires
        channel_write(cmd) is Some,
    ensures
        ({
            let (fader, name, value) = channel_write(cmd).unwrap();
            match fader.spec_index(l.model) {
                None => spec_encode(cmd, l) == Err::<Seq<Seq<u8>>, EncodeFailure>(
                    EncodeFailure::FaderNotOnModel { fader, model: l.model },
                ),
                Some(i) => {
                    &&& i >= l.channel.count ==> l.channel.spec_path(i) is None
                    &&& match l.channel.spec_path(i) {
                        None => spec_encode(cmd, l) == Err::<Seq<Seq<u8>>, EncodeFailure>(
                            EncodeFailure::OutOfRange {
                                what: "fader"@,
                                index: i as u32,
                                bound: l.channel.count as u32,
                            },
                        ),
                        Some(p) => spec_encode(cmd, l) matches Ok(frames) && frames.len() == 1
                            && (spec_decode(frames[0]) matches Some(f) ==> (
                            f matches FrameModel::PropertyChanged { path: q, name: n, .. } && q == p
                                && (no_nul(name) ==> n == name)))
                            && (no_nul(name) && var_round_trips(value) ==> spec_decode(frames[0])
                            == Some(FrameModel::PropertyChanged { path: p, name, value })),
                    }
                },
            }
        }),
{
    let (fader, name, value) = channel_write(cmd).unwrap();
    if let Some(i) = fader.spec_index(l.model) {
        if let Some(p) = l.channel.spec_path(i) {
            lemma_property_changed_decodes(p, name, value);
            if no_nul(name) && var_round_trips(value) {
                lemma_property_changed_round_trip(p, name, value);
            }
        }
    }
}

/// The named cell of a mix-matrix path, and the codec round trip of a write
/// to it.
proof fn lemma_mix_cell(l: LayoutView, source: Source, mix: MixOutput)
    requires
        l.spec_mix_cell_path(source.index(), mix.index()) is Some,
    ensures
        ({
            let p = l.spec_mix_cell_path(source.index(), mix.index()).unwrap();
            &&& l.spec_mix_cell(p) == Some((source.index(), mix.index()))
            &&& p.len() == 1
            &&& Source::at_index(source.index()) == Some(source)
            &&& MixOutput::at_index(mix.index()) == Some(mix)
        }),
{
    let p = l.spec_mix_cell_path(source.index(), mix.index()).unwrap();
    lemma_mix_cell_round_trip(l, source.index(), mix.index(), p);
    lemma_source_protocol_round_trip(source, source.index());
    lemma_mix_output_protocol_round_trip(mix, mix.index());
}

/// Disabling or enabling a routing cell is read back as that cell's change.
pub proof fn lemma_mix_disabled_round_trip(l: LayoutView, source: Source, mix: MixOutput, disabled: bool)
    requires
        spec_encode(Command::SetMixDisabled { source, mix, disabled }, l) is Ok,
    ensures
        ({
            let frames = spec_encode(Command::SetMixDisabled { source, mix, disabled }, l)->Ok_0;
            &&& frames.len() == 1
            &&& decodes_to(frames[0], l, EventModel::MixDisabledChanged { source, mix, disabled })
        }),
{
    lemma_property_names();
    lemma_mix_cell(l, source, mix);
    let p = l.spec_mix_cell_path(source.index(), mix.index()).unwrap();
    lemma_frame(p, "mixDisabled"@, VarModel::Bool(disabled));
}

/// Muting or unmuting a routing cell is read back as that cell's change.
pub proof fn lemma_mix_mute_round_trip(l: LayoutView, source: Source, mix: MixOutput, mute: bool)
    requires
        spec_encode(Command::SetMixMute { source, mix, mute }, l) is Ok,
    ensures
        ({
            let frames = spec_encode(Command::SetMixMute { source, mix, mute }, l)->Ok_0;
            &&& frames.len() == 1
            &&& decodes_to(frames[0], l, EventModel::MixMuteChanged { source, mix, muted: mute })
        }),
{
    lemma_property_names();
    lemma_mix_cell(l, source, mix);
    let p = l.spec_mix_cell_path(source.index(), mix.index()).unwrap();
    lemma_frame(p, "mixMute"@, VarModel::Bool(mute));
}

/// Linking a routing cell writes three frames, read back in order as: the
/// cell enabled, the cell unmuted, and a link request pressed on the cell.
#[verifier::spinoff_prover]
#[verifier::rlimit(40)]
pub proof fn lemma_link_mix_round_trip(l: LayoutView, source: Source, mix: MixOutput)
    requires
        spec_encode(Command::LinkMix { source, mix }, l) is Ok,
    ensures
        ({
            let frames = spec_encode(Command::LinkMix { source, mix }, l)->Ok_0;
            &&& frames.len() == 3
            &&& decodes_to(frames[0], l, EventModel::MixDisabledChanged { source, mix, disabled: false })
            &&& decodes_to(frames[1], l, EventModel::MixMuteChanged { source, mix, muted: false })
            &&& decodes_to(
                frames[2],
                l,
                EventModel::MixLinkRequested {
                    source,
                    mix,
                    direction: MixLinkDirection::Link,
                    origin: TriggerPhase::Press,
                },
            )
        }),
{
    let p = l.spec_mix_cell_path(source.index(), mix.index()).unwrap();
    let frames = spec_encode(Command::LinkMix { source, mix }, l)->Ok_0;
    assert(frames == seq![
        spec_encode_property_changed(p, "mixDisabled"@, VarModel::Bool(false)),
        spec_encode_property_changed(p, "mixMute"@, VarModel::Bool(false)),
        spec_encode_property_changed(p, "mixLinkRequest"@, spec_trigger()),
    ]);
    assert(decodes_to(frames[0], l, EventModel::MixDisabledChanged { source, mix, disabled: false })) by {
        lemma_mix_disabled_round_trip(l, source, mix, false);
    }
    assert(decodes_to(frames[1], l, EventModel::MixMuteChanged { source, mix, muted: false })) by {
        lemma_mix_mute_round_trip(l, source, mix, false);
    }
    assert(decodes_to(
        frames[2],
        l,
        EventModel::MixLinkRequested {
            source,
            mix,
            direction: MixLinkDirection::Link,
            origin: TriggerPhase::Press,
        },
    )) by {
        lemma_property_names();
        lemma_mix_cell(l, source, mix);
        lemma_frame(p, "mixLinkRequest"@, spec_trigger());
        lemma_request_rules(l, source, mix, "mixLinkRequest"@);
    }
}

/// Unlinking a routing cell writes one frame, read back as an unlink request
/// pressed on the cell.
pub proof fn lemma_unlink_mix_round_trip(l: LayoutView, source: Source, mix: MixOutput)
    requires
        spec_encode(Command::UnlinkMix { source, mix }, l) is Ok,
    ensures
        ({
            let frames = spec_encode(Command::UnlinkMix { source, mix }, l)->Ok_0;
            &&& frames.len() == 1
            &&& decodes_to(
                frames[0],
                l,
                EventModel::MixLinkRequested {
                    source,
                    mix,
                    direction: MixLinkDirection::Unlink,
                    origin: TriggerPhase::Press,
                },
            )
        }),
{
    lemma_property_names();
    lemma_mix_cell(l, source, mix);
    let p = l.spec_mix_cell_path(source.index(), mix.index()).unwrap();
    lemma_frame(p, "mixUnlinkRequest"@, spec_trigger());
    lemma_request_rules(l, source, mix, "mixUnlinkRequest"@);
}


// ---------------------------------------------------------------------------
// Parameter families

/// Whether a dedicated decoding rule (a strip, fader, mix, encoder, echo,
/// hardware or emergency property, or a known name of a name-addressed
/// family) claims a property change before the family fallback sees it.
pub open spec fn claimed_by_rule(path: Seq<u32>, name: Seq<char>, value: Option<VarModel>, l: LayoutView) -> bool {
    ||| rule_channel(path, name, value, l) is Some
    ||| rule_fader(path, name, value, l) is Some
    ||| rule_mix(path, name, value, l) is Some
    ||| rule_encoder(path, name, value, l) is Some
    ||| rule_echo(path, name, value, l) is Some
    ||| rule_hardware(path, name, value, l) is Some
    ||| rule_emergency(path, name, value) is Some
    ||| rule_network(path, name, value, l) is Some
    ||| rule_recordings(path, name, value, l) is Some
    ||| rule_recording(path, name, value, l) is Some
    ||| rule_storage_volume(path, name, value, l) is Some
    ||| rule_audio(path, name, value, l) is Some
    ||| rule_build(path, name, value, l) is Some
    ||| rule_app(path, name, value, l) is Some
    ||| rule_theme(path, name, value, l) is Some
    ||| rule_current_show(path, name, value, l) is Some
    ||| rule_show_control(path, name, value, l) is Some
    ||| rule_show(path, name, value, l) is Some
    ||| rule_meter(path, name, value, l) is Some
    ||| rule_sip_calling(path, name, value, l) is Some
    ||| rule_sip_advanced(path, name, value, l) is Some
    ||| rule_sip_registration(path, name, value, l) is Some
    ||| rule_sip_call_slots(path, name, value, l) is Some
    ||| rule_streamerx_mix_preset(path, name, value, l) is Some
    ||| rule_streamerx_stream_mix(path, name, value, l) is Some
    ||| rule_fx_preset(path, name, value, l) is Some
    ||| rule_pad_recorder(path, name, value, l) is Some
    ||| rule_test(path, name, value, l) is Some
    ||| rule_wifi_scan_result(path, name, value, l) is Some
    ||| rule_radio(path, name, value, l) is Some
    ||| rule_radio_tx(path, name, value, l) is Some
    ||| rule_radio_rx(path, name, value, l) is Some
    ||| rule_mix_minuses(path, name, value, l) is Some
    ||| rule_rcsync_mix(path, name, value, l) is Some
}

/// A property change no dedicated rule claims is decoded by the family
/// fallback.
proof fn lemma_unclaimed_falls_back(path: Seq<u32>, name: Seq<char>, value: Option<VarModel>, l: LayoutView)
    requires
        !claimed_by_rule(path, name, value, l),
    ensures
        spec_decode_property(path, name, value, l) == rule_fallback(path, name, value, l),
{
}

/// The `i`th node of a run of `name` nodes starting at `start` exists and
/// carries that name.
proof fn lemma_run_named(cs: Seq<NodeModel>, start: int, name: Seq<char>, i: int)
    requires
        0 <= start,
        0 <= i < spec_run_len(cs, start, name),
    ensures
        start + i < cs.len(),
        cs[start + i].name == name,
    decreases i,
{
    if i > 0 {
        lemma_run_named(cs, start + 1, name, i - 1);
    }
}

/// Every path a discovered run recognizes is a single-level path to a root
/// child of the run's name.
proof fn lemma_run_family(cs: Seq<NodeModel>, name: Seq<char>)
    requires
        cs.len() <= 0x1_0000_0000,
    ensures
        forall|p: Seq<u32>| #[trigger] spec_discover_run(cs, name).spec_index(p) is Some ==> p.len() == 1 && p[0] < cs.len()
            && cs[p[0] as int].name == name,
{
    lemma_first_named(cs, name, 0);
    assert forall|p: Seq<u32>| #[trigger] spec_discover_run(cs, name).spec_index(p) is Some implies p.len() == 1 && p[0]
        < cs.len() && cs[p[0] as int].name == name by {
        let f = spec_first_named(cs, name, 0).unwrap();
        let i = p[0] - f;
        assert(i < spec_run_len(cs, f, name)) by {
            if spec_run_len(cs, f, name) <= 255 {
            }
        }
        lemma_run_named(cs, f, name, i);
    }
}

/// Every path a discovered singleton recognizes is a single-level path to a
/// root child of that name.
proof fn lemma_singleton_family(cs: Seq<NodeModel>, name: Seq<char>)
    requires
        cs.len() <= 0x1_0000_0000,
    ensures
        forall|p: Seq<u32>| #[trigger] (Singleton { idx: spec_position(cs, name) }).spec_is_path(p) ==> p.len() == 1 && p[0]
            < cs.len() && cs[p[0] as int].name == name,
{
    lemma_first_named(cs, name, 0);
}

/// Every path a discovered container run recognizes is a two-level path
/// under a root child of the container's name.
proof fn lemma_two_level_family(cs: Seq<NodeModel>, container: Seq<char>, child: Seq<char>)
    requires
        cs.len() <= 0x1_0000_0000,
    ensures
        forall|p: Seq<u32>| #[trigger] spec_discover_two_level(cs, container, child).spec_index(p) is Some ==> p.len() == 2
            && p[0] < cs.len() && cs[p[0] as int].name == container,
{
    lemma_first_named(cs, container, 0);
}

/// A layout built from a tree: each family's paths lead to root children of
/// the family's node name.
pub open spec fn families_named(cs: Seq<NodeModel>, l: LayoutView) -> bool {
    &&& forall|p: Seq<u32>| #[trigger] l.channel.spec_index(p) is Some ==> p.len() == 1 && p[0] < cs.len()
        && cs[p[0] as int].name == "CHANNEL"@
    &&& forall|p: Seq<u32>| #[trigger] l.input_source.spec_index(p) is Some ==> p.len() == 1 && p[0] < cs.len()
        && cs[p[0] as int].name == "INPUTSOURCE"@
    &&& forall|p: Seq<u32>| #[trigger] l.headphone.spec_index(p) is Some ==> p.len() == 1 && p[0] < cs.len()
        && cs[p[0] as int].name == "HEADPHONE"@
    &&& forall|p: Seq<u32>| #[trigger] l.effects.spec_index(p) is Some ==> p.len() == 1 && p[0] < cs.len()
        && cs[p[0] as int].name == "EFFECTS_PARAMETERS"@
    &&& forall|p: Seq<u32>| #[trigger] l.master_channel.spec_is_path(p) ==> p.len() == 1 && p[0] < cs.len()
        && cs[p[0] as int].name == "MASTERCHANNEL"@
    &&& forall|p: Seq<u32>| #[trigger] l.output.spec_is_path(p) ==> p.len() == 1 && p[0] < cs.len()
        && cs[p[0] as int].name == "OUTPUT"@
    &&& forall|p: Seq<u32>| #[trigger] l.ducker.spec_is_path(p) ==> p.len() == 1 && p[0] < cs.len()
        && cs[p[0] as int].name == "DUCKER"@
    &&& forall|p: Seq<u32>| #[trigger] l.recorder.spec_is_path(p) ==> p.len() == 1 && p[0] < cs.len()
        && cs[p[0] as int].name == "RECORDER"@
    &&& forall|p: Seq<u32>| #[trigger] l.player.spec_is_path(p) ==> p.len() == 1 && p[0] < cs.len()
        && cs[p[0] as int].name == "PLAYER"@
    &&& forall|p: Seq<u32>| #[trigger] l.gui.spec_is_path(p) ==> p.len() == 1 && p[0] < cs.len()
        && cs[p[0] as int].name == "GUI"@
    &&& forall|p: Seq<u32>| #[trigger] l.system.spec_is_path(p) ==> p.len() == 1 && p[0] < cs.len()
        && cs[p[0] as int].name == "SYSTEM"@
    &&& forall|p: Seq<u32>| #[trigger] l.pad.spec_index(p) is Some ==> p.len() == 2 && p[0] < cs.len()
        && cs[p[0] as int].name == "SOUNDPADS"@
}

/// The node names of the families the fallback resolves are pairwise
/// distinct.
proof fn lemma_family_names_distinct()
    ensures
        "CHANNEL"@ != "INPUTSOURCE"@,
        "CHANNEL"@ != "MASTERCHANNEL"@,
        "CHANNEL"@ != "OUTPUT"@,
        "CHANNEL"@ != "DUCKER"@,
        "CHANNEL"@ != "RECORDER"@,
        "CHANNEL"@ != "PLAYER"@,
        "CHANNEL"@ != "HEADPHONE"@,
        "CHANNEL"@ != "EFFECTS_PARAMETERS"@,
        "CHANNEL"@ != "GUI"@,
        "CHANNEL"@ != "SOUNDPADS"@,
        "CHANNEL"@ != "SYSTEM"@,
        "INPUTSOURCE"@ != "MASTERCHANNEL"@,
        "INPUTSOURCE"@ != "OUTPUT"@,
        "INPUTSOURCE"@ != "DUCKER"@,
        "INPUTSOURCE"@ != "RECORDER"@,
        "INPUTSOURCE"@ != "PLAYER"@,
        "INPUTSOURCE"@ != "HEADPHONE"@,
        "INPUTSOURCE"@ != "EFFECTS_PARAMETERS"@,
        "INPUTSOURCE"@ != "GUI"@,
        "INPUTSOURCE"@ != "SOUNDPADS"@,
        "INPUTSOURCE"@ != "SYSTEM"@,
        "MASTERCHANNEL"@ != "OUTPUT"@,
        "MASTERCHANNEL"@ != "DUCKER"@,
        "MASTERCHANNEL"@ != "RECORDER"@,
        "MASTERCHANNEL"@ != "PLAYER"@,
        "MASTERCHANNEL"@ != "HEADPHONE"@,
        "MASTERCHANNEL"@ != "EFFECTS_PARAMETERS"@,
        "MASTERCHANNEL"@ != "GUI"@,
        "MASTERCHANNEL"@ != "SOUNDPADS"@,
        "MASTERCHANNEL"@ != "SYSTEM"@,
        "OUTPUT"@ != "DUCKER"@,
        "OUTPUT"@ != "RECORDER"@,
        "OUTPUT"@ != "PLAYER"@,
        "OUTPUT"@ != "HEADPHONE"@,
        "OUTPUT"@ != "EFFECTS_PARAMETERS"@,
        "OUTPUT"@ != "GUI"@,
        "OUTPUT"@ != "SOUNDPADS"@,
        "OUTPUT"@ != "SYSTEM"@,
        "DUCKER"@ != "RECORDER"@,
        "DUCKER"@ != "PLAYER"@,
        "DUCKER"@ != "HEADPHONE"@,
        "DUCKER"@ != "EFFECTS_PARAMETERS"@,
        "DUCKER"@ != "GUI"@,
        "DUCKER"@ != "SOUNDPADS"@,
        "DUCKER"@ != "SYSTEM"@,
        "RECORDER"@ != "PLAYER"@,
        "RECORDER"@ != "HEADPHONE"@,
        "RECORDER"@ != "EFFECTS_PARAMETERS"@,
        "RECORDER"@ != "GUI"@,
        "RECORDER"@ != "SOUNDPADS"@,
        "RECORDER"@ != "SYSTEM"@,
        "PLAYER"@ != "HEADPHONE"@,
        "PLAYER"@ != "EFFECTS_PARAMETERS"@,
        "PLAYER"@ != "GUI"@,
        "PLAYER"@ != "SOUNDPADS"@,
        "PLAYER"@ != "SYSTEM"@,
        "HEADPHONE"@ != "EFFECTS_PARAMETERS"@,
        "HEADPHONE"@ != "GUI"@,
        "HEADPHONE"@ != "SOUNDPADS"@,
        "HEADPHONE"@ != "SYSTEM"@,
        "EFFECTS_PARAMETERS"@ != "GUI"@,
        "EFFECTS_PARAMETERS"@ != "SOUNDPADS"@,
        "EFFECTS_PARAMETERS"@ != "SYSTEM"@,
        "GUI"@ != "SOUNDPADS"@,
        "GUI"@ != "SYSTEM"@,
        "SOUNDPADS"@ != "SYSTEM"@,
{
    reveal_strlit("CHANNEL");
    reveal_strlit("INPUTSOURCE");
    reveal_strlit("MASTERCHANNEL");
    reveal_strlit("OUTPUT");
    reveal_strlit("DUCKER");
    reveal_strlit("RECORDER");
    reveal_strlit("PLAYER");
    reveal_strlit("HEADPHONE");
    reveal_strlit("EFFECTS_PARAMETERS");
    reveal_strlit("GUI");
    reveal_strlit("SOUNDPADS");
    reveal_strlit("SYSTEM");
    assert("CHANNEL"@.len() == 7);
    assert("INPUTSOURCE"@.len() == 11);
    assert("MASTERCHANNEL"@.len() == 13);
    assert("OUTPUT"@.len() == 6);
    assert("DUCKER"@.len() == 6);
    assert("RECORDER"@.len() == 8);
    assert("PLAYER"@.len() == 6);
    assert("HEADPHONE"@.len() == 9);
    assert("EFFECTS_PARAMETERS"@.len() == 18);
    assert("GUI"@.len() == 3);
    assert("SOUNDPADS"@.len() == 9);
    assert("SYSTEM"@.len() == 6);
    assert("OUTPUT"@[0] != "DUCKER"@[0]);
    assert("OUTPUT"@[0] != "PLAYER"@[0]);
    assert("OUTPUT"@[0] != "SYSTEM"@[0]);
    assert("DUCKER"@[0] != "PLAYER"@[0]);
    assert("DUCKER"@[0] != "SYSTEM"@[0]);
    assert("PLAYER"@[0] != "SYSTEM"@[0]);
    assert("HEADPHONE"@[0] != "SOUNDPADS"@[0]);
}

/// A layout built from a tree with a `u32`-addressable number of root
/// children has its families named.
proof fn lemma_built_families_named(root: NodeModel)
    requires
        spec_build(root) is Ok,
        root.children.len() <= 0x1_0000_0000,
    ensures
        families_named(root.children, spec_build(root)->Ok_0),
{
    let cs = root.children;
    lemma_run_family(cs, "CHANNEL"@);
    lemma_run_family(cs, "INPUTSOURCE"@);
    lemma_run_family(cs, "HEADPHONE"@);
    lemma_run_family(cs, "EFFECTS_PARAMETERS"@);
    lemma_singleton_family(cs, "MASTERCHANNEL"@);
    lemma_singleton_family(cs, "OUTPUT"@);
    lemma_singleton_family(cs, "DUCKER"@);
    lemma_singleton_family(cs, "RECORDER"@);
    lemma_singleton_family(cs, "PLAYER"@);
    lemma_singleton_family(cs, "GUI"@);
    lemma_singleton_family(cs, "SYSTEM"@);
    lemma_two_level_family(cs, "SOUNDPADS"@, "PAD"@);
    let l = spec_build(root)->Ok_0;
    assert(l.channel == spec_discover_run(cs, "CHANNEL"@));
}

/// On a layout built from a tree, setting a `MASTERCHANNEL` parameter is read back
/// as that parameter with the same value, unless a dedicated rule claims the
/// property name.
#[verifier::spinoff_prover]
#[verifier::rlimit(40)]
pub proof fn lemma_master_param_round_trip(root: NodeModel, param: MasterParam, value: Value)
    requires
        spec_build(root) is Ok,
        root.children.len() <= 0x1_0000_0000,
        spec_encode(Command::SetMasterParam { param, value }, spec_build(root)->Ok_0) is Ok,
        param is Other ==> no_nul(param.wire_name()),
        var_round_trips(value@),
        !claimed_by_rule(
            spec_build(root)->Ok_0.master_channel.spec_path().unwrap(),
            param.wire_name(),
            Some(value@),
            spec_build(root)->Ok_0,
        ),
    ensures
        ({
            let l = spec_build(root)->Ok_0;
            let frames = spec_encode(Command::SetMasterParam { param, value }, l)->Ok_0;
            &&& frames.len() == 1
            &&& decodes_to(frames[0], l, EventModel::MasterParamChanged { param: MasterParam::name_model(param.wire_name()), value: value@ })
        }),
{
    if !(param is Other) {
        assert(no_nul(param.wire_name())) by {
            lemma_master_param_name_round_trip(param);
        }
    }
    let l = spec_build(root)->Ok_0;
    let p = l.master_channel.spec_path().unwrap();
    lemma_built_families_named(root);
    lemma_family_names_distinct();
    assert(l.master_channel.spec_is_path(p));
    assert(l.channel.spec_index(p) is None);
    assert(l.input_source.spec_index(p) is None);
    assert(spec_resolve_target(p, param.wire_name(), l) == Some(ParamTarget::Master));
    lemma_property_changed_round_trip(p, param.wire_name(), value@);
    lemma_unclaimed_falls_back(p, param.wire_name(), Some(value@), l);
}

/// On a layout built from a tree, setting a `OUTPUT` parameter is read back
/// as that parameter with the same value, unless a dedicated rule claims the
/// property name.
#[verifier::spinoff_prover]
#[verifier::rlimit(40)]
pub proof fn lemma_output_param_round_trip(root: NodeModel, param: OutputParam, value: Value)
    requires
        spec_build(root) is Ok,
        root.children.len() <= 0x1_0000_0000,
        spec_encode(Command::SetOutputParam { param, value }, spec_build(root)->Ok_0) is Ok,
        param is Other ==> no_nul(param.wire_name()),
        var_round_trips(value@),
        !claimed_by_rule(
            spec_build(root)->Ok_0.output.spec_path().unwrap(),
            param.wire_name(),
            Some(value@),
            spec_build(root)->Ok_0,
        ),
    ensures
        ({
            let l = spec_build(root)->Ok_0;
            let frames = spec_encode(Command::SetOutputParam { param, value }, l)->Ok_0;
            &&& frames.len() == 1
            &&& decodes_to(frames[0], l, EventModel::OutputParamChanged { param: OutputParam::name_model(param.wire_name()), value: value@ })
        }),
{
    if !(param is Other) {
        assert(no_nul(param.wire_name())) by {
            lemma_output_param_name_round_trip(param);
        }
    }
    let l = spec_build(root)->Ok_0;
    let p = l.output.spec_path().unwrap();
    lemma_built_families_named(root);
    lemma_family_names_distinct();
    assert(l.output.spec_is_path(p));
    assert(l.channel.spec_index(p) is None);
    assert(l.input_source.spec_index(p) is None);
    assert(spec_resolve_target(p, param.wire_name(), l) == Some(ParamTarget::Output));
    lemma_property_changed_round_trip(p, param.wire_name(), value@);
    lemma_unclaimed_falls_back(p, param.wire_name(), Some(value@), l);
}

/// On a layout built from a tree, setting a `DUCKER` parameter is read back
/// as that parameter with the same value, unless a dedicated rule claims the
/// property name.
#[verifier::spinoff_prover]
#[verifier::rlimit(40)]
pub proof fn lemma_ducker_param_round_trip(root: NodeModel, param: DuckerParam, value: Value)
    requires
        spec_build(root) is Ok,
        root.children.len() <= 0x1_0000_0000,
        spec_encode(Command::SetDuckerParam { param, value }, spec_build(root)->Ok_0) is Ok,
        param is Other ==> no_nul(param.wire_name()),
        var_round_trips(value@),
        !claimed_by_rule(
            spec_build(root)->Ok_0.ducker.spec_path().unwrap(),
            param.wire_name(),
            Some(value@),
            spec_build(root)->Ok_0,
        ),
    ensures
        ({
            let l = spec_build(root)->Ok_0;
            let frames = spec_encode(Command::SetDuckerParam { param, value }, l)->Ok_0;
            &&& frames.len() == 1
            &&& decodes_to(frames[0], l, EventModel::DuckerParamChanged { param: DuckerParam::name_model(param.wire_name()), value: value@ })
        }),
{
    if !(param is Other) {
        assert(no_nul(param.wire_name())) by {
            lemma_ducker_param_name_round_trip(param);
        }
    }
    let l = spec_build(root)->Ok_0;
    let p = l.ducker.spec_path().unwrap();
    lemma_built_families_named(root);
    lemma_family_names_distinct();
    assert(l.ducker.spec_is_path(p));
    assert(l.channel.spec_index(p) is None);
    assert(l.input_source.spec_index(p) is None);
    assert(spec_resolve_target(p, param.wire_name(), l) == Some(ParamTarget::Ducker));
    lemma_property_changed_round_trip(p, param.wire_name(), value@);
    lemma_unclaimed_falls_back(p, param.wire_name(), Some(value@), l);
}

/// On a layout built from a tree, setting a `RECORDER` parameter is read back
/// as that parameter with the same value, unless a dedicated rule claims the
/// property name.
#[verifier::spinoff_prover]
#[verifier::rlimit(40)]
pub proof fn lemma_recorder_param_round_trip(root: NodeModel, param: RecorderParam, value: Value)
    requires
        spec_build(root) is Ok,
        root.children.len() <= 0x1_0000_0000,
        spec_encode(Command::SetRecorderParam { param, value }, spec_build(root)->Ok_0) is Ok,
        param is Other ==> no_nul(param.wire_name()),
        var_round_trips(value@),
        !claimed_by_rule(
            spec_build(root)->Ok_0.recorder.spec_path().unwrap(),
            param.wire_name(),
            Some(value@),
            spec_build(root)->Ok_0,
        ),
    ensures
        ({
            let l = spec_build(root)->Ok_0;
            let frames = spec_encode(Command::SetRecorderParam { param, value }, l)->Ok_0;
            &&& frames.len() == 1
            &&& decodes_to(frames[0], l, EventModel::RecorderParamChanged { param: RecorderParam::name_model(param.wire_name()), value: value@ })
        }),
{
    if !(param is Other) {
        assert(no_nul(param.wire_name())) by {
            lemma_recorder_param_name_round_trip(param);
        }
    }
    let l = spec_build(root)->Ok_0;
    let p = l.recorder.spec_path().unwrap();
    lemma_built_families_named(root);
    lemma_family_names_distinct();
    assert(l.recorder.spec_is_path(p));
    assert(l.channel.spec_index(p) is None);
    assert(l.input_source.spec_index(p) is None);
    assert(spec_resolve_target(p, param.wire_name(), l) == Some(ParamTarget::Recorder));
    lemma_property_changed_round_trip(p, param.wire_name(), value@);
    lemma_unclaimed_falls_back(p, param.wire_name(), Some(value@), l);
}

/// On a layout built from a tree, setting a `PLAYER` parameter is read back
/// as that parameter with the same value, unless a dedicated rule claims the
/// property name.
#[verifier::spinoff_prover]
#[verifier::rlimit(40)]
pub proof fn lemma_player_param_round_trip(root: NodeModel, param: PlayerParam, value: Value)
    requires
        spec_build(root) is Ok,
        root.children.len() <= 0x1_0000_0000,
        spec_encode(Command::SetPlayerParam { param, value }, spec_build(root)->Ok_0) is Ok,
        param is Other ==> no_nul(param.wire_name()),
        var_round_trips(value@),
        !claimed_by_rule(
            spec_build(root)->Ok_0.player.spec_path().unwrap(),
            param.wire_name(),
            Some(value@),
            spec_build(root)->Ok_0,
        ),
    ensures
        ({
            let l = spec_build(root)->Ok_0;
            let frames = spec_encode(Command::SetPlayerParam { param, value }, l)->Ok_0;
            &&& frames.len() == 1
            &&& decodes_to(frames[0], l, EventModel::PlayerParamChanged { param: PlayerParam::name_model(param.wire_name()), value: value@ })
        }),
{
    if !(param is Other) {
        assert(no_nul(param.wire_name())) by {
            lemma_player_param_name_round_trip(param);
        }
    }
    let l = spec_build(root)->Ok_0;
    let p = l.player.spec_path().unwrap();
    lemma_built_families_named(root);
    lemma_family_names_distinct();
    assert(l.player.spec_is_path(p));
    assert(l.channel.spec_index(p) is None);
    assert(l.input_source.spec_index(p) is None);
    assert(spec_resolve_target(p, param.wire_name(), l) == Some(ParamTarget::Player));
    lemma_property_changed_round_trip(p, param.wire_name(), value@);
    lemma_unclaimed_falls_back(p, param.wire_name(), Some(value@), l);
}

/// On a layout built from a tree, setting a `GUI` parameter is read back
/// as that parameter with the same value, unless a dedicated rule claims the
/// property name.
#[verifier::spinoff_prover]
#[verifier::rlimit(40)]
pub proof fn lemma_gui_param_round_trip(root: NodeModel, param: GuiParam, value: Value)
    requires
        spec_build(root) is Ok,
        root.children.len() <= 0x1_0000_0000,
        spec_encode(Command::SetGuiParam { param, value }, spec_build(root)->Ok_0) is Ok,
        param is Other ==> no_nul(param.wire_name()),
        var_round_trips(value@),
        !claimed_by_rule(
            spec_build(root)->Ok_0.gui.spec_path().unwrap(),
            param.wire_name(),
            Some(value@),
            spec_build(root)->Ok_0,
        ),
    ensures
        ({
            let l = spec_build(root)->Ok_0;
            let frames = spec_encode(Command::SetGuiParam { param, value }, l)->Ok_0;
            &&& frames.len() == 1
            &&& decodes_to(frames[0], l, EventModel::GuiParamChanged { param: GuiParam::name_model(param.wire_name()), value: value@ })
        }),
{
    if !(param is Other) {
        assert(no_nul(param.wire_name())) by {
            lemma_gui_param_name_round_trip(param);
        }
    }
    let l = spec_build(root)->Ok_0;
    let p = l.gui.spec_path().unwrap();
    lemma_built_families_named(root);
    lemma_family_names_distinct();
    assert(l.gui.spec_is_path(p));
    assert(l.channel.spec_index(p) is None);
    assert(l.input_source.spec_index(p) is None);
    assert(spec_resolve_target(p, param.wire_name(), l) == Some(ParamTarget::Gui));
    lemma_property_changed_round_trip(p, param.wire_name(), value@);
    lemma_unclaimed_falls_back(p, param.wire_name(), Some(value@), l);
}

/// On a layout built from a tree, setting a `SYSTEM` parameter is read back
/// as that parameter with the same value, unless a dedicated rule claims the
/// property name.
#[verifier::spinoff_prover]
#[verifier::rlimit(40)]
pub proof fn lemma_system_param_round_trip(root: NodeModel, param: SystemParam, value: Value)
    requires
        spec_build(root) is Ok,
        root.children.len() <= 0x1_0000_0000,
        spec_encode(Command::SetSystemParam { param, value }, spec_build(root)->Ok_0) is Ok,
        param is Other ==> no_nul(param.wire_name()),
        var_round_trips(value@),
        !claimed_by_rule(
            spec_build(root)->Ok_0.system.spec_path().unwrap(),
            param.wire_name(),
            Some(value@),
            spec_build(root)->Ok_0,
        ),
    ensures
        ({
            let l = spec_build(root)->Ok_0;
            let frames = spec_encode(Command::SetSystemParam { param, value }, l)->Ok_0;
            &&& frames.len() == 1
            &&& decodes_to(frames[0], l, EventModel::SystemParamChanged { param: SystemParam::name_model(param.wire_name()), value: value@ })
        }),
{
    if !(param is Other) {
        assert(no_nul(param.wire_name())) by {
            lemma_system_param_name_round_trip(param);
        }
    }
    let l = spec_build(root)->Ok_0;
    let p = l.system.spec_path().unwrap();
    lemma_built_families_named(root);
    lemma_family_names_distinct();
    assert(l.system.spec_is_path(p));
    assert(l.channel.spec_index(p) is None);
    assert(l.input_source.spec_index(p) is None);
    assert(spec_resolve_target(p, param.wire_name(), l) == Some(ParamTarget::System));
    lemma_property_changed_round_trip(p, param.wire_name(), value@);
    lemma_unclaimed_falls_back(p, param.wire_name(), Some(value@), l);
}

/// On a layout built from a tree, setting a parameter of the `headphone`th
/// `HEADPHONE` node is read back as that node's parameter with the same value,
/// unless a dedicated rule claims the property name.
#[verifier::spinoff_prover]
#[verifier::rlimit(40)]
pub proof fn lemma_headphone_param_round_trip(root: NodeModel, headphone: u8, param: HeadphoneParam, value: Value)
    requires
        spec_build(root) is Ok,
        root.children.len() <= 0x1_0000_0000,
        spec_encode(Command::SetHeadphoneParam { headphone, param, value }, spec_build(root)->Ok_0) is Ok,
        param is Other ==> no_nul(param.wire_name()),
        var_round_trips(value@),
        !claimed_by_rule(
            spec_build(root)->Ok_0.headphone.spec_path(headphone).unwrap(),
            param.wire_name(),
            Some(value@),
            spec_build(root)->Ok_0,
        ),
    ensures
        ({
            let l = spec_build(root)->Ok_0;
            let frames = spec_encode(Command::SetHeadphoneParam { headphone, param, value }, l)->Ok_0;
            &&& frames.len() == 1
            &&& decodes_to(frames[0], l, EventModel::HeadphoneParamChanged { headphone, param: HeadphoneParam::name_model(param.wire_name()), value: value@ })
        }),
{
    if !(param is Other) {
        assert(no_nul(param.wire_name())) by {
            lemma_headphone_param_name_round_trip(param);
        }
    }
    let l = spec_build(root)->Ok_0;
    let p = l.headphone.spec_path(headphone).unwrap();
    lemma_built_families_named(root);
    lemma_family_names_distinct();
    lemma_indexed_round_trip(l.headphone, headphone, p);
    lemma_property_changed_round_trip(p, param.wire_name(), value@);
    lemma_unclaimed_falls_back(p, param.wire_name(), Some(value@), l);
}

/// On a layout built from a tree, setting a parameter of the `effects`th
/// `EFFECTS_PARAMETERS` node is read back as that node's parameter with the same value,
/// unless a dedicated rule claims the property name.
#[verifier::spinoff_prover]
#[verifier::rlimit(40)]
pub proof fn lemma_effects_param_round_trip(root: NodeModel, effects: u8, param: EffectsParam, value: Value)
    requires
        spec_build(root) is Ok,
        root.children.len() <= 0x1_0000_0000,
        spec_encode(Command::SetEffectsParam { effects, param, value }, spec_build(root)->Ok_0) is Ok,
        param is Other ==> no_nul(param.wire_name()),
        var_round_trips(value@),
        !claimed_by_rule(
            spec_build(root)->Ok_0.effects.spec_path(effects).unwrap(),
            param.wire_name(),
            Some(value@),
            spec_build(root)->Ok_0,
        ),
    ensures
        ({
            let l = spec_build(root)->Ok_0;
            let frames = spec_encode(Command::SetEffectsParam { effects, param, value }, l)->Ok_0;
            &&& frames.len() == 1
            &&& decodes_to(frames[0], l, EventModel::EffectsParamChanged { effects, param: EffectsParam::name_model(param.wire_name()), value: value@ })
        }),
{
    if !(param is Other) {
        assert(no_nul(param.wire_name())) by {
            lemma_effects_param_name_round_trip(param);
        }
    }
    let l = spec_build(root)->Ok_0;
    let p = l.effects.spec_path(effects).unwrap();
    lemma_built_families_named(root);
    lemma_family_names_distinct();
    lemma_indexed_round_trip(l.effects, effects, p);
    lemma_property_changed_round_trip(p, param.wire_name(), value@);
    lemma_unclaimed_falls_back(p, param.wire_name(), Some(value@), l);
}

/// On a layout built from a tree, setting a parameter of the `pad`th
/// `PAD` node is read back as that node's parameter with the same value,
/// unless a dedicated rule claims the property name.
#[verifier::spinoff_prover]
#[verifier::rlimit(40)]
pub proof fn lemma_pad_param_round_trip(root: NodeModel, pad: u8, param: PadParam, value: Value)
    requires
        spec_build(root) is Ok,
        root.children.len() <= 0x1_0000_0000,
        spec_encode(Command::SetPadParam { pad, param, value }, spec_build(root)->Ok_0) is Ok,
        param is Other ==> no_nul(param.wire_name()),
        var_round_trips(value@),
        !claimed_by_rule(
            spec_build(root)->Ok_0.pad.spec_path(pad).unwrap(),
            param.wire_name(),
            Some(value@),
            spec_build(root)->Ok_0,
        ),
    ensures
        ({
            let l = spec_build(root)->Ok_0;
            let frames = spec_encode(Command::SetPadParam { pad, param, value }, l)->Ok_0;
            &&& frames.len() == 1
            &&& decodes_to(frames[0], l, EventModel::PadParamChanged { pad, param: PadParam::name_model(param.wire_name()), value: value@ })
        }),
{
    if !(param is Other) {
        assert(no_nul(param.wire_name())) by {
            lemma_pad_param_name_round_trip(param);
        }
    }
    let l = spec_build(root)->Ok_0;
    let p = l.pad.spec_path(pad).unwrap();
    lemma_built_families_named(root);
    lemma_family_names_distinct();
    lemma_two_level_round_trip(l.pad, pad, p);
    lemma_property_changed_round_trip(p, param.wire_name(), value@);
    lemma_unclaimed_falls_back(p, param.wire_name(), Some(value@), l);
}

/// On a layout built from a tree, setting a channel-strip parameter is read
/// back as that strip's parameter with the same value, unless the name is one
/// of the strip's own controls (mute, cue, source) or a dedicated rule
/// claims it.
#[verifier::spinoff_prover]
#[verifier::rlimit(40)]
pub proof fn lemma_channel_param_round_trip(root: NodeModel, fader: Fader, param: ChannelParam, value: Value)
    requires
        spec_build(root) is Ok,
        root.children.len() <= 0x1_0000_0000,
        spec_encode(Command::SetChannelParam { fader, param, value }, spec_build(root)->Ok_0) is Ok,
        param is Other ==> no_nul(param.wire_name()),
        var_round_trips(value@),
        param.wire_name() != "channelOutputMute"@,
        param.wire_name() != "channelCueEnable"@,
        param.wire_name() != "channelInputSource"@,
        !claimed_by_rule(
            spec_build(root)->Ok_0.channel.spec_path(fader.spec_index(spec_build(root)->Ok_0.model).unwrap()).unwrap(),
            param.wire_name(),
            Some(value@),
            spec_build(root)->Ok_0,
        ),
    ensures
        ({
            let l = spec_build(root)->Ok_0;
            let frames = spec_encode(Command::SetChannelParam { fader, param, value }, l)->Ok_0;
            &&& frames.len() == 1
            &&& decodes_to(frames[0], l, EventModel::ChannelParamChanged { fader, param: ChannelParam::name_model(param.wire_name()), value: value@ })
        }),
{
    if !(param is Other) {
        assert(no_nul(param.wire_name())) by {
            lemma_channel_param_name_round_trip(param);
        }
    }
    let l = spec_build(root)->Ok_0;
    let p = l.channel.spec_path(fader.spec_index(l.model).unwrap()).unwrap();
    lemma_built_families_named(root);
    lemma_family_names_distinct();
    let idx = fader.spec_index(l.model).unwrap();
    lemma_indexed_round_trip(l.channel, idx, p);
    lemma_fader_index_round_trip(l.model, fader, idx);
    lemma_property_changed_round_trip(p, param.wire_name(), value@);
    lemma_unclaimed_falls_back(p, param.wire_name(), Some(value@), l);
}

/// On a layout built from a tree, setting a source's `INPUTSOURCE` parameter
/// is read back as that source's parameter with the same value, unless a
/// dedicated rule claims the property name.
#[verifier::spinoff_prover]
#[verifier::rlimit(40)]
pub proof fn lemma_input_source_param_round_trip(root: NodeModel, source: Source, param: InputSourceParam, value: Value)
    requires
        spec_build(root) is Ok,
        root.children.len() <= 0x1_0000_0000,
        spec_encode(Command::SetInputSourceParam { source, param, value }, spec_build(root)->Ok_0) is Ok,
        param is Other ==> no_nul(param.wire_name()),
        var_round_trips(value@),
        !claimed_by_rule(
            spec_build(root)->Ok_0.input_source.spec_path(source.index()).unwrap(),
            param.wire_name(),
            Some(value@),
            spec_build(root)->Ok_0,
        ),
    ensures
        ({
            let l = spec_build(root)->Ok_0;
            let frames = spec_encode(Command::SetInputSourceParam { source, param, value }, l)->Ok_0;
            &&& frames.len() == 1
            &&& decodes_to(frames[0], l, EventModel::InputSourceParamChanged { source, param: InputSourceParam::name_model(param.wire_name()), value: value@ })
        }),
{
    if !(param is Other) {
        assert(no_nul(param.wire_name())) by {
            lemma_input_source_param_name_round_trip(param);
        }
    }
    let l = spec_build(root)->Ok_0;
    let p = l.input_source.spec_path(source.index()).unwrap();
    lemma_built_families_named(root);
    lemma_family_names_distinct();
    lemma_indexed_round_trip(l.input_source, source.index(), p);
    lemma_source_protocol_round_trip(source, source.index());
    lemma_property_changed_round_trip(p, param.wire_name(), value@);
    lemma_unclaimed_falls_back(p, param.wire_name(), Some(value@), l);
}

// ---------------------------------------------------------------------------
// Name-addressed families

/// The decoder's dedicated rules, by their place in its order.
pub open spec fn decoding_rule(i: int, path: Seq<u32>, name: Seq<char>, value: Option<VarModel>, l: LayoutView) -> Option<EventModel> {
    if i == 0 {
        rule_channel(path, name, value, l)
    } else     if i == 1 {
        rule_fader(path, name, value, l)
    } else     if i == 2 {
        rule_mix(path, name, value, l)
    } else     if i == 3 {
        rule_encoder(path, name, value, l)
    } else     if i == 4 {
        rule_echo(path, name, value, l)
    } else     if i == 5 {
        rule_hardware(path, name, value, l)
    } else     if i == 6 {
        rule_emergency(path, name, value)
    } else     if i == 7 {
        rule_network(path, name, value, l)
    } else     if i == 8 {
        rule_recordings(path, name, value, l)
    } else     if i == 9 {
        rule_recording(path, name, value, l)
    } else     if i == 10 {
        rule_storage_volume(path, name, value, l)
    } else     if i == 11 {
        rule_audio(path, name, value, l)
    } else     if i == 12 {
        rule_build(path, name, value, l)
    } else     if i == 13 {
        rule_app(path, name, value, l)
    } else     if i == 14 {
        rule_theme(path, name, value, l)
    } else     if i == 15 {
        rule_current_show(path, name, value, l)
    } else     if i == 16 {
        rule_show_control(path, name, value, l)
    } else     if i == 17 {
        rule_show(path, name, value, l)
    } else     if i == 18 {
        rule_meter(path, name, value, l)
    } else     if i == 19 {
        rule_sip_calling(path, name, value, l)
    } else     if i == 20 {
        rule_sip_advanced(path, name, value, l)
    } else     if i == 21 {
        rule_sip_registration(path, name, value, l)
    } else     if i == 22 {
        rule_sip_call_slots(path, name, value, l)
    } else     if i == 23 {
        rule_streamerx_mix_preset(path, name, value, l)
    } else     if i == 24 {
        rule_streamerx_stream_mix(path, name, value, l)
    } else     if i == 25 {
        rule_fx_preset(path, name, value, l)
    } else     if i == 26 {
        rule_pad_recorder(path, name, value, l)
    } else     if i == 27 {
        rule_test(path, name, value, l)
    } else     if i == 28 {
        rule_wifi_scan_result(path, name, value, l)
    } else     if i == 29 {
        rule_radio(path, name, value, l)
    } else     if i == 30 {
        rule_radio_tx(path, name, value, l)
    } else     if i == 31 {
        rule_radio_rx(path, name, value, l)
    } else     if i == 32 {
        rule_mix_minuses(path, name, value, l)
    } else     if i == 33 {
        rule_rcsync_mix(path, name, value, l)
    } else {
        None
    }
}

/// Whether one of the first `k` dedicated rules claims a property change.
pub open spec fn claimed_before(k: nat, path: Seq<u32>, name: Seq<char>, value: Option<VarModel>, l: LayoutView) -> bool
    decreases k,
{
    if k == 0 {
        false
    } else {
        claimed_before((k - 1) as nat, path, name, value, l) || decoding_rule(k - 1, path, name, value, l) is Some
    }
}

/// A property change the first `k` rules let pass, and the `k`th rule
/// recognizes, decodes as that rule says.
#[verifier::rlimit(40)]
proof fn lemma_decoded_by_rule(k: nat, path: Seq<u32>, name: Seq<char>, value: Option<VarModel>, l: LayoutView)
    requires
        k < 34,
        !claimed_before(k, path, name, value, l),
        decoding_rule(k as int, path, name, value, l) is Some,
    ensures
        spec_decode_property(path, name, value, l) == decoding_rule(k as int, path, name, value, l)->Some_0,
{
    reveal_with_fuel(claimed_before, 35);
}

/// Setting a typed parameter on the `NETWORK` node is read back as that
/// parameter with the same value, unless a rule earlier in the decoder's order
/// claims the property change.
#[verifier::spinoff_prover]
pub proof fn lemma_network_param_round_trip(l: LayoutView, param: NetworkParam, value: Value)
    requires
        spec_encode(Command::SetNetworkParam { param, value }, l) is Ok,
        !(param is Other),
        var_round_trips(value@),
        !claimed_before(7, l.network.spec_path().unwrap(), param.wire_name(), Some(value@), l),
    ensures
        ({
            let frames = spec_encode(Command::SetNetworkParam { param, value }, l)->Ok_0;
            &&& frames.len() == 1
            &&& decodes_to(frames[0], l, EventModel::NetworkParamChanged { param: param.model(), value: value@ })
        }),
{
    let p = l.network.spec_path().unwrap();
    lemma_network_param_name_round_trip(param);
    reveal(NetworkParam::name_model);
    lemma_property_changed_round_trip(p, param.wire_name(), value@);
    assert(decoding_rule(7, p, param.wire_name(), Some(value@), l) == Some(EventModel::NetworkParamChanged { param: param.model(), value: value@ }));
    lemma_decoded_by_rule(7, p, param.wire_name(), Some(value@), l);
}

/// Setting a typed parameter on the `RECORDINGS` node is read back as that
/// parameter with the same value, unless a rule earlier in the decoder's order
/// claims the property change.
#[verifier::spinoff_prover]
pub proof fn lemma_recordings_param_round_trip(l: LayoutView, param: RecordingsParam, value: Value)
    requires
        spec_encode(Command::SetRecordingsParam { param, value }, l) is Ok,
        !(param is Other),
        var_round_trips(value@),
        !claimed_before(8, l.recordings.spec_path().unwrap(), param.wire_name(), Some(value@), l),
    ensures
        ({
            let frames = spec_encode(Command::SetRecordingsParam { param, value }, l)->Ok_0;
            &&& frames.len() == 1
            &&& decodes_to(frames[0], l, EventModel::RecordingsParamChanged { param: param.model(), value: value@ })
        }),
{
    let p = l.recordings.spec_path().unwrap();
    lemma_recordings_param_name_round_trip(param);
    reveal(RecordingsParam::name_model);
    lemma_property_changed_round_trip(p, param.wire_name(), value@);
    assert(decoding_rule(8, p, param.wire_name(), Some(value@), l) == Some(EventModel::RecordingsParamChanged { param: param.model(), value: value@ }));
    lemma_decoded_by_rule(8, p, param.wire_name(), Some(value@), l);
}

/// Setting a typed parameter on the `AUDIO` node is read back as that
/// parameter with the same value, unless a rule earlier in the decoder's order
/// claims the property change.
#[verifier::spinoff_prover]
pub proof fn lemma_audio_param_round_trip(l: LayoutView, param: AudioParam, value: Value)
    requires
        spec_encode(Command::SetAudioParam { param, value }, l) is Ok,
        !(param is Other),
        var_round_trips(value@),
        !claimed_before(11, l.audio.spec_path().unwrap(), param.wire_name(), Some(value@), l),
    ensures
        ({
            let frames = spec_encode(Command::SetAudioParam { param, value }, l)->Ok_0;
            &&& frames.len() == 1
            &&& decodes_to(frames[0], l, EventModel::AudioParamChanged { param: param.model(), value: value@ })
        }),
{
    let p = l.audio.spec_path().unwrap();
    lemma_audio_param_name_round_trip(param);
    reveal(AudioParam::name_model);
    lemma_property_changed_round_trip(p, param.wire_name(), value@);
    assert(decoding_rule(11, p, param.wire_name(), Some(value@), l) == Some(EventModel::AudioParamChanged { param: param.model(), value: value@ }));
    lemma_decoded_by_rule(11, p, param.wire_name(), Some(value@), l);
}

/// Setting a typed parameter on the `BUILD` node is read back as that
/// parameter with the same value, unless a rule earlier in the decoder's order
/// claims the property change.
#[verifier::spinoff_prover]
pub proof fn lemma_build_param_round_trip(l: LayoutView, param: BuildParam, value: Value)
    requires
        spec_encode(Command::SetBuildParam { param, value }, l) is Ok,
        !(param is Other),
        var_round_trips(value@),
        !claimed_before(12, l.build.spec_path().unwrap(), param.wire_name(), Some(value@), l),
    ensures
        ({
            let frames = spec_encode(Command::SetBuildParam { param, value }, l)->Ok_0;
            &&& frames.len() == 1
            &&& decodes_to(frames[0], l, EventModel::BuildParamChanged { param: param.model(), value: value@ })
        }),
{
    let p = l.build.spec_path().unwrap();
    lemma_build_param_name_round_trip(param);
    reveal(BuildParam::name_model);
    lemma_property_changed_round_trip(p, param.wire_name(), value@);
    assert(decoding_rule(12, p, param.wire_name(), Some(value@), l) == Some(EventModel::BuildParamChanged { param: param.model(), value: value@ }));
    lemma_decoded_by_rule(12, p, param.wire_name(), Some(value@), l);
}

/// Setting a typed parameter on the `APP` node is read back as that
/// parameter with the same value, unless a rule earlier in the decoder's order
/// claims the property change.
#[verifier::spinoff_prover]
pub proof fn lemma_app_param_round_trip(l: LayoutView, param: AppParam, value: Value)
    requires
        spec_encode(Command::SetAppParam { param, value }, l) is Ok,
        !(param is Other),
        var_round_trips(value@),
        !claimed_before(13, l.app.spec_path().unwrap(), param.wire_name(), Some(value@), l),
    ensures
        ({
            let frames = spec_encode(Command::SetAppParam { param, value }, l)->Ok_0;
            &&& frames.len() == 1
            &&& decodes_to(frames[0], l, EventModel::AppParamChanged { param: param.model(), value: value@ })
        }),
{
    let p = l.app.spec_path().unwrap();
    lemma_app_param_name_round_trip(param);
    reveal(AppParam::name_model);
    lemma_property_changed_round_trip(p, param.wire_name(), value@);
    assert(decoding_rule(13, p, param.wire_name(), Some(value@), l) == Some(EventModel::AppParamChanged { param: param.model(), value: value@ }));
    lemma_decoded_by_rule(13, p, param.wire_name(), Some(value@), l);
}

/// Setting a typed parameter on the `THEME` node is read back as that
/// parameter with the same value, unless a rule earlier in the decoder's order
/// claims the property change.
#[verifier::spinoff_prover]
pub proof fn lemma_theme_param_round_trip(l: LayoutView, param: ThemeParam, value: Value)
    requires
        spec_encode(Command::SetThemeParam { param, value }, l) is Ok,
        !(param is Other),
        var_round_trips(value@),
        !claimed_before(14, l.theme.spec_path().unwrap(), param.wire_name(), Some(value@), l),
    ensures
        ({
            let frames = spec_encode(Command::SetThemeParam { param, value }, l)->Ok_0;
            &&& frames.len() == 1
            &&& decodes_to(frames[0], l, EventModel::ThemeParamChanged { param: param.model(), value: value@ })
        }),
{
    let p = l.theme.spec_path().unwrap();
    lemma_theme_param_name_round_trip(param);
    reveal(ThemeParam::name_model);
    lemma_property_changed_round_trip(p, param.wire_name(), value@);
    assert(decoding_rule(14, p, param.wire_name(), Some(value@), l) == Some(EventModel::ThemeParamChanged { param: param.model(), value: value@ }));
    lemma_decoded_by_rule(14, p, param.wire_name(), Some(value@), l);
}

/// Setting a typed parameter on the `CURRENT_SHOW` node is read back as that
/// parameter with the same value, unless a rule earlier in the decoder's order
/// claims the property change.
#[verifier::spinoff_prover]
pub proof fn lemma_current_show_param_round_trip(l: LayoutView, param: CurrentShowParam, value: Value)
    requires
        spec_encode(Command::SetCurrentShowParam { param, value }, l) is Ok,
        !(param is Other),
        var_round_trips(value@),
        !claimed_before(15, l.current_show.spec_path().unwrap(), param.wire_name(), Some(value@), l),
    ensures
        ({
            let frames = spec_encode(Command::SetCurrentShowParam { param, value }, l)->Ok_0;
            &&& frames.len() == 1
            &&& decodes_to(frames[0], l, EventModel::CurrentShowParamChanged { param: param.model(), value: value@ })
        }),
{
    let p = l.current_show.spec_path().unwrap();
    lemma_current_show_param_name_round_trip(param);
    reveal(CurrentShowParam::name_model);
    lemma_property_changed_round_trip(p, param.wire_name(), value@);
    assert(decoding_rule(15, p, param.wire_name(), Some(value@), l) == Some(EventModel::CurrentShowParamChanged { param: param.model(), value: value@ }));
    lemma_decoded_by_rule(15, p, param.wire_name(), Some(value@), l);
}

/// Setting a typed parameter on the `SHOW_CONTROL` node is read back as that
/// parameter with the same value, unless a rule earlier in the decoder's order
/// claims the property change.
#[verifier::spinoff_prover]
pub proof fn lemma_show_control_param_round_trip(l: LayoutView, param: ShowControlParam, value: Value)
    requires
        spec_encode(Command::SetShowControlParam { param, value }, l) is Ok,
        !(param is Other),
        var_round_trips(value@),
        !claimed_before(16, l.show_control.spec_path().unwrap(), param.wire_name(), Some(value@), l),
    ensures
        ({
            let frames = spec_encode(Command::SetShowControlParam { param, value }, l)->Ok_0;
            &&& frames.len() == 1
            &&& decodes_to(frames[0], l, EventModel::ShowControlParamChanged { param: param.model(), value: value@ })
        }),
{
    let p = l.show_control.spec_path().unwrap();
    lemma_show_control_param_name_round_trip(param);
    reveal(ShowControlParam::name_model);
    lemma_property_changed_round_trip(p, param.wire_name(), value@);
    assert(decoding_rule(16, p, param.wire_name(), Some(value@), l) == Some(EventModel::ShowControlParamChanged { param: param.model(), value: value@ }));
    lemma_decoded_by_rule(16, p, param.wire_name(), Some(value@), l);
}

/// Setting a typed parameter on the `SIP_CALLING` node is read back as that
/// parameter with the same value, unless a rule earlier in the decoder's order
/// claims the property change.
#[verifier::spinoff_prover]
pub proof fn lemma_sip_calling_param_round_trip(l: LayoutView, param: SipCallingParam, value: Value)
    requires
        spec_encode(Command::SetSipCallingParam { param, value }, l) is Ok,
        !(param is Other),
        var_round_trips(value@),
        !claimed_before(19, l.sip_calling.spec_path().unwrap(), param.wire_name(), Some(value@), l),
    ensures
        ({
            let frames = spec_encode(Command::SetSipCallingParam { param, value }, l)->Ok_0;
            &&& frames.len() == 1
            &&& decodes_to(frames[0], l, EventModel::SipCallingParamChanged { param: param.model(), value: value@ })
        }),
{
    let p = l.sip_calling.spec_path().unwrap();
    lemma_sip_calling_param_name_round_trip(param);
    reveal(SipCallingParam::name_model);
    lemma_property_changed_round_trip(p, param.wire_name(), value@);
    assert(decoding_rule(19, p, param.wire_name(), Some(value@), l) == Some(EventModel::SipCallingParamChanged { param: param.model(), value: value@ }));
    lemma_decoded_by_rule(19, p, param.wire_name(), Some(value@), l);
}

/// Setting a typed parameter on the `SIP_ADVANCED` node is read back as that
/// parameter with the same value, unless a rule earlier in the decoder's order
/// claims the property change.
#[verifier::spinoff_prover]
pub proof fn lemma_sip_advanced_param_round_trip(l: LayoutView, param: SipAdvancedParam, value: Value)
    requires
        spec_encode(Command::SetSipAdvancedParam { param, value }, l) is Ok,
        !(param is Other),
        var_round_trips(value@),
        !claimed_before(20, l.sip_advanced.spec_path().unwrap(), param.wire_name(), Some(value@), l),
    ensures
        ({
            let frames = spec_encode(Command::SetSipAdvancedParam { param, value }, l)->Ok_0;
            &&& frames.len() == 1
            &&& decodes_to(frames[0], l, EventModel::SipAdvancedParamChanged { param: param.model(), value: value@ })
        }),
{
    let p = l.sip_advanced.spec_path().unwrap();
    lemma_sip_advanced_param_name_round_trip(param);
    reveal(SipAdvancedParam::name_model);
    lemma_property_changed_round_trip(p, param.wire_name(), value@);
    assert(decoding_rule(20, p, param.wire_name(), Some(value@), l) == Some(EventModel::SipAdvancedParamChanged { param: param.model(), value: value@ }));
    lemma_decoded_by_rule(20, p, param.wire_name(), Some(value@), l);
}

/// Setting a typed parameter on the `registration`th node of its family is read back as that
/// parameter with the same value, unless a rule earlier in the decoder's order
/// claims the property change.
#[verifier::spinoff_prover]
pub proof fn lemma_sip_registration_param_round_trip(l: LayoutView, registration: u8, param: SipRegistrationParam, value: Value)
    requires
        spec_encode(Command::SetSipRegistrationParam { registration, param, value }, l) is Ok,
        !(param is Other),
        var_round_trips(value@),
        !claimed_before(21, l.sip_registration.spec_path(registration).unwrap(), param.wire_name(), Some(value@), l),
    ensures
        ({
            let frames = spec_encode(Command::SetSipRegistrationParam { registration, param, value }, l)->Ok_0;
            &&& frames.len() == 1
            &&& decodes_to(frames[0], l, EventModel::SipRegistrationParamChanged { registration, param: param.model(), value: value@ })
        }),
{
    let p = l.sip_registration.spec_path(registration).unwrap();
    lemma_sip_registration_param_name_round_trip(param);
    reveal(SipRegistrationParam::name_model);
    lemma_two_level_round_trip(l.sip_registration, registration, p);
    lemma_property_changed_round_trip(p, param.wire_name(), value@);
    assert(decoding_rule(21, p, param.wire_name(), Some(value@), l) == Some(EventModel::SipRegistrationParamChanged { registration, param: param.model(), value: value@ }));
    lemma_decoded_by_rule(21, p, param.wire_name(), Some(value@), l);
}

/// Setting a typed parameter on the `slot`th node of its family is read back as that
/// parameter with the same value, unless a rule earlier in the decoder's order
/// claims the property change.
#[verifier::spinoff_prover]
pub proof fn lemma_sip_call_slots_param_round_trip(l: LayoutView, slot: u8, param: SipCallSlotsParam, value: Value)
    requires
        spec_encode(Command::SetSipCallSlotsParam { slot, param, value }, l) is Ok,
        !(param is Other),
        var_round_trips(value@),
        !claimed_before(22, l.sip_call_slots.spec_path(slot).unwrap(), param.wire_name(), Some(value@), l),
    ensures
        ({
            let frames = spec_encode(Command::SetSipCallSlotsParam { slot, param, value }, l)->Ok_0;
            &&& frames.len() == 1
            &&& decodes_to(frames[0], l, EventModel::SipCallSlotsParamChanged { slot, param: param.model(), value: value@ })
        }),
{
    let p = l.sip_call_slots.spec_path(slot).unwrap();
    lemma_sip_call_slots_param_name_round_trip(param);
    reveal(SipCallSlotsParam::name_model);
    lemma_indexed_round_trip(l.sip_call_slots, slot, p);
    lemma_property_changed_round_trip(p, param.wire_name(), value@);
    assert(decoding_rule(22, p, param.wire_name(), Some(value@), l) == Some(EventModel::SipCallSlotsParamChanged { slot, param: param.model(), value: value@ }));
    lemma_decoded_by_rule(22, p, param.wire_name(), Some(value@), l);
}

/// Setting a typed parameter on the `TEST` node is read back as that
/// parameter with the same value, unless a rule earlier in the decoder's order
/// claims the property change.
#[verifier::spinoff_prover]
pub proof fn lemma_test_param_round_trip(l: LayoutView, param: TestParam, value: Value)
    requires
        spec_encode(Command::SetTestParam { param, value }, l) is Ok,
        !(param is Other),
        var_round_trips(value@),
        !claimed_before(27, l.test.spec_path().unwrap(), param.wire_name(), Some(value@), l),
    ensures
        ({
            let frames = spec_encode(Command::SetTestParam { param, value }, l)->Ok_0;
            &&& frames.len() == 1
            &&& decodes_to(frames[0], l, EventModel::TestParamChanged { param: param.model(), value: value@ })
        }),
{
    let p = l.test.spec_path().unwrap();
    lemma_test_param_name_round_trip(param);
    reveal(TestParam::name_model);
    lemma_property_changed_round_trip(p, param.wire_name(), value@);
    assert(decoding_rule(27, p, param.wire_name(), Some(value@), l) == Some(EventModel::TestParamChanged { param: param.model(), value: value@ }));
    lemma_decoded_by_rule(27, p, param.wire_name(), Some(value@), l);
}

/// Setting a typed parameter on the `RADIO` node is read back as that
/// parameter with the same value, unless a rule earlier in the decoder's order
/// claims the property change.
#[verifier::spinoff_prover]
pub proof fn lemma_radio_param_round_trip(l: LayoutView, param: RadioParam, value: Value)
    requires
        spec_encode(Command::SetRadioParam { param, value }, l) is Ok,
        !(param is Other),
        var_round_trips(value@),
        !claimed_before(29, l.radio.spec_path().unwrap(), param.wire_name(), Some(value@), l),
    ensures
        ({
            let frames = spec_encode(Command::SetRadioParam { param, value }, l)->Ok_0;
            &&& frames.len() == 1
            &&& decodes_to(frames[0], l, EventModel::RadioParamChanged { param: param.model(), value: value@ })
        }),
{
    let p = l.radio.spec_path().unwrap();
    lemma_radio_param_name_round_trip(param);
    reveal(RadioParam::name_model);
    lemma_property_changed_round_trip(p, param.wire_name(), value@);
    assert(decoding_rule(29, p, param.wire_name(), Some(value@), l) == Some(EventModel::RadioParamChanged { param: param.model(), value: value@ }));
    lemma_decoded_by_rule(29, p, param.wire_name(), Some(value@), l);
}

/// Setting a typed parameter on the `minuses`th node of its family is read back as that
/// parameter with the same value, unless a rule earlier in the decoder's order
/// claims the property change.
#[verifier::spinoff_prover]
pub proof fn lemma_mix_minuses_param_round_trip(l: LayoutView, minuses: u8, param: MixMinusesParam, value: Value)
    requires
        spec_encode(Command::SetMixMinusesParam { minuses, param, value }, l) is Ok,
        !(param is Other),
        var_round_trips(value@),
        !claimed_before(32, l.mix_minuses.spec_path(minuses).unwrap(), param.wire_name(), Some(value@), l),
    ensures
        ({
            let frames = spec_encode(Command::SetMixMinusesParam { minuses, param, value }, l)->Ok_0;
            &&& frames.len() == 1
            &&& decodes_to(frames[0], l, EventModel::MixMinusesParamChanged { minuses, param: param.model(), value: value@ })
        }),
{
    let p = l.mix_minuses.spec_path(minuses).unwrap();
    lemma_mix_minuses_param_name_round_trip(param);
    reveal(MixMinusesParam::name_model);
    lemma_indexed_round_trip(l.mix_minuses, minuses, p);
    lemma_property_changed_round_trip(p, param.wire_name(), value@);
    assert(decoding_rule(32, p, param.wire_name(), Some(value@), l) == Some(EventModel::MixMinusesParamChanged { minuses, param: param.model(), value: value@ }));
    lemma_decoded_by_rule(32, p, param.wire_name(), Some(value@), l);
}

/// Setting a typed parameter on the `mix`th node of its family is read back as that
/// parameter with the same value, unless a rule earlier in the decoder's order
/// claims the property change.
#[verifier::spinoff_prover]
pub proof fn lemma_rcsync_mix_param_round_trip(l: LayoutView, mix: u8, param: RcSyncMixParam, value: Value)
    requires
        spec_encode(Command::SetRcSyncMixParam { mix, param, value }, l) is Ok,
        !(param is Other),
        var_round_trips(value@),
        !claimed_before(33, l.rcsync_mix.spec_path(mix).unwrap(), param.wire_name(), Some(value@), l),
    ensures
        ({
            let frames = spec_encode(Command::SetRcSyncMixParam { mix, param, value }, l)->Ok_0;
            &&& frames.len() == 1
            &&& decodes_to(frames[0], l, EventModel::RcSyncMixParamChanged { mix, param: param.model(), value: value@ })
        }),
{
    let p = l.rcsync_mix.spec_path(mix).unwrap();
    lemma_rc_sync_mix_param_name_round_trip(param);
    reveal(RcSyncMixParam::name_model);
    lemma_indexed_round_trip(l.rcsync_mix, mix, p);
    lemma_property_changed_round_trip(p, param.wire_name(), value@);
    assert(decoding_rule(33, p, param.wire_name(), Some(value@), l) == Some(EventModel::RcSyncMixParamChanged { mix, param: param.model(), value: value@ }));
    lemma_decoded_by_rule(33, p, param.wire_name(), Some(value@), l);
}

/// Setting a typed parameter on the `recording`th node of its family is read back
/// as that parameter with the same value, addressed by the low byte of the
/// node's child position inside its container (the ordinal written only when the
/// family starts at position 0), unless a rule earlier in the decoder's order
/// claims the property change.
#[verifier::spinoff_prover]
pub proof fn lemma_recording_param_read_back(l: LayoutView, recording: u8, param: RecordingParam, value: Value)
    requires
        spec_encode(Command::SetRecordingParam { recording, param, value }, l) is Ok,
        !(param is Other),
        var_round_trips(value@),
        !claimed_before(9, l.recording.spec_path(recording).unwrap(), param.wire_name(), Some(value@), l),
    ensures
        ({
            let frames = spec_encode(Command::SetRecordingParam { recording, param, value }, l)->Ok_0;
            &&& frames.len() == 1
            &&& decodes_to(frames[0], l, EventModel::RecordingParamChanged { recording: spec_last_index(l.recording.spec_path(recording).unwrap()), param: param.model(), value: value@ })
        }),
{
    let p = l.recording.spec_path(recording).unwrap();
    lemma_recording_param_name_round_trip(param);
    reveal(RecordingParam::name_model);
    lemma_property_changed_round_trip(p, param.wire_name(), value@);
    assert(decoding_rule(9, p, param.wire_name(), Some(value@), l) == Some(EventModel::RecordingParamChanged { recording: spec_last_index(l.recording.spec_path(recording).unwrap()), param: param.model(), value: value@ }));
    lemma_decoded_by_rule(9, p, param.wire_name(), Some(value@), l);
}

/// Setting a typed parameter on the `show`th node of its family is read back
/// as that parameter with the same value, addressed by the low byte of the
/// node's child position inside its container (the ordinal written only when the
/// family starts at position 0), unless a rule earlier in the decoder's order
/// claims the property change.
#[verifier::spinoff_prover]
pub proof fn lemma_show_param_read_back(l: LayoutView, show: u8, param: ShowParam, value: Value)
    requires
        spec_encode(Command::SetShowParam { show, param, value }, l) is Ok,
        !(param is Other),
        var_round_trips(value@),
        !claimed_before(17, l.show.spec_path(show).unwrap(), param.wire_name(), Some(value@), l),
    ensures
        ({
            let frames = spec_encode(Command::SetShowParam { show, param, value }, l)->Ok_0;
            &&& frames.len() == 1
            &&& decodes_to(frames[0], l, EventModel::ShowParamChanged { show: spec_last_index(l.show.spec_path(show).unwrap()), param: param.model(), value: value@ })
        }),
{
    let p = l.show.spec_path(show).unwrap();
    lemma_show_param_name_round_trip(param);
    reveal(ShowParam::name_model);
    lemma_property_changed_round_trip(p, param.wire_name(), value@);
    assert(decoding_rule(17, p, param.wire_name(), Some(value@), l) == Some(EventModel::ShowParamChanged { show: spec_last_index(l.show.spec_path(show).unwrap()), param: param.model(), value: value@ }));
    lemma_decoded_by_rule(17, p, param.wire_name(), Some(value@), l);
}

/// Setting a typed parameter on the `preset`th node of its family is read back
/// as that parameter with the same value, addressed by the low byte of the
/// node's child position inside its container (the ordinal written only when the
/// family starts at position 0), unless a rule earlier in the decoder's order
/// claims the property change.
#[verifier::spinoff_prover]
pub proof fn lemma_fx_preset_param_read_back(l: LayoutView, preset: u8, param: FxPresetParam, value: Value)
    requires
        spec_encode(Command::SetFxPresetParam { preset, param, value }, l) is Ok,
        !(param is Other),
        var_round_trips(value@),
        !claimed_before(25, l.fx_preset.spec_path(preset).unwrap(), param.wire_name(), Some(value@), l),
    ensures
        ({
            let frames = spec_encode(Command::SetFxPresetParam { preset, param, value }, l)->Ok_0;
            &&& frames.len() == 1
            &&& decodes_to(frames[0], l, EventModel::FxPresetParamChanged { preset: spec_last_index(l.fx_preset.spec_path(preset).unwrap()), param: param.model(), value: value@ })
        }),
{
    let p = l.fx_preset.spec_path(preset).unwrap();
    lemma_fx_preset_param_name_round_trip(param);
    reveal(FxPresetParam::name_model);
    lemma_property_changed_round_trip(p, param.wire_name(), value@);
    assert(decoding_rule(25, p, param.wire_name(), Some(value@), l) == Some(EventModel::FxPresetParamChanged { preset: spec_last_index(l.fx_preset.spec_path(preset).unwrap()), param: param.model(), value: value@ }));
    lemma_decoded_by_rule(25, p, param.wire_name(), Some(value@), l);
}

/// Setting a typed parameter on the `preset`th node of its family is read back
/// as that parameter with the same value, addressed by the low byte of the
/// node's position among the root's children (the ordinal written only when the
/// family starts at position 0), unless a rule earlier in the decoder's order
/// claims the property change.
#[verifier::spinoff_prover]
pub proof fn lemma_streamerx_mix_preset_param_read_back(l: LayoutView, preset: u8, param: StreamerXMixPresetParam, value: Value)
    requires
        spec_encode(Command::SetStreamerXMixPresetParam { preset, param, value }, l) is Ok,
        !(param is Other),
        var_round_trips(value@),
        !claimed_before(23, l.streamerx_mix_preset.spec_path(preset).unwrap(), param.wire_name(), Some(value@), l),
    ensures
        ({
            let frames = spec_encode(Command::SetStreamerXMixPresetParam { preset, param, value }, l)->Ok_0;
            &&& frames.len() == 1
            &&& decodes_to(frames[0], l, EventModel::StreamerXMixPresetParamChanged { preset: spec_last_index(l.streamerx_mix_preset.spec_path(preset).unwrap()), param: param.model(), value: value@ })
        }),
{
    let p = l.streamerx_mix_preset.spec_path(preset).unwrap();
    lemma_streamer_x_mix_preset_param_name_round_trip(param);
    reveal(StreamerXMixPresetParam::name_model);
    lemma_property_changed_round_trip(p, param.wire_name(), value@);
    assert(decoding_rule(23, p, param.wire_name(), Some(value@), l) == Some(EventModel::StreamerXMixPresetParamChanged { preset: spec_last_index(l.streamerx_mix_preset.spec_path(preset).unwrap()), param: param.model(), value: value@ }));
    lemma_decoded_by_rule(23, p, param.wire_name(), Some(value@), l);
}

/// Setting a typed parameter on the `stream`th node of its family is read back
/// as that parameter with the same value, addressed by the low byte of the
/// node's position among the root's children (the ordinal written only when the
/// family starts at position 0), unless a rule earlier in the decoder's order
/// claims the property change.
#[verifier::spinoff_prover]
pub proof fn lemma_streamerx_stream_mix_param_read_back(l: LayoutView, stream: u8, param: StreamerXStreamMixParam, value: Value)
    requires
        spec_encode(Command::SetStreamerXStreamMixParam { stream, param, value }, l) is Ok,
        !(param is Other),
        var_round_trips(value@),
        !claimed_before(24, l.streamerx_stream_mix.spec_path(stream).unwrap(), param.wire_name(), Some(value@), l),
    ensures
        ({
            let frames = spec_encode(Command::SetStreamerXStreamMixParam { stream, param, value }, l)->Ok_0;
            &&& frames.len() == 1
            &&& decodes_to(frames[0], l, EventModel::StreamerXStreamMixParamChanged { stream: spec_last_index(l.streamerx_stream_mix.spec_path(stream).unwrap()), param: param.model(), value: value@ })
        }),
{
    let p = l.streamerx_stream_mix.spec_path(stream).unwrap();
    lemma_streamer_x_stream_mix_param_name_round_trip(param);
    reveal(StreamerXStreamMixParam::name_model);
    lemma_property_changed_round_trip(p, param.wire_name(), value@);
    assert(decoding_rule(24, p, param.wire_name(), Some(value@), l) == Some(EventModel::StreamerXStreamMixParamChanged { stream: spec_last_index(l.streamerx_stream_mix.spec_path(stream).unwrap()), param: param.model(), value: value@ }));
    lemma_decoded_by_rule(24, p, param.wire_name(), Some(value@), l);
}

/// Setting a typed parameter on the `pad_recorder`th node of its family is read back
/// as that parameter with the same value, addressed by the low byte of the
/// node's position among the root's children (the ordinal written only when the
/// family starts at position 0), unless a rule earlier in the decoder's order
/// claims the property change.
#[verifier::spinoff_prover]
pub proof fn lemma_pad_recorder_param_read_back(l: LayoutView, pad_recorder: u8, param: PadRecorderParam, value: Value)
    requires
        spec_encode(Command::SetPadRecorderParam { pad_recorder, param, value }, l) is Ok,
        !(param is Other),
        var_round_trips(value@),
        !claimed_before(26, l.pad_recorder.spec_path(pad_recorder).unwrap(), param.wire_name(), Some(value@), l),
    ensures
        ({
            let frames = spec_encode(Command::SetPadRecorderParam { pad_recorder, param, value }, l)->Ok_0;
            &&& frames.len() == 1
            &&& decodes_to(frames[0], l, EventModel::PadRecorderParamChanged { pad_recorder: spec_last_index(l.pad_recorder.spec_path(pad_recorder).unwrap()), param: param.model(), value: value@ })
        }),
{
    let p = l.pad_recorder.spec_path(pad_recorder).unwrap();
    lemma_pad_recorder_param_name_round_trip(param);
    reveal(PadRecorderParam::name_model);
    lemma_property_changed_round_trip(p, param.wire_name(), value@);
    assert(decoding_rule(26, p, param.wire_name(), Some(value@), l) == Some(EventModel::PadRecorderParamChanged { pad_recorder: spec_last_index(l.pad_recorder.spec_path(pad_recorder).unwrap()), param: param.model(), value: value@ }));
    lemma_decoded_by_rule(26, p, param.wire_name(), Some(value@), l);
}

/// Setting a typed parameter on the `slot`th node of its family is read back
/// as that parameter with the same value, addressed by the low byte of the
/// node's position among the root's children (the ordinal written only when the
/// family starts at position 0), unless a rule earlier in the decoder's order
/// claims the property change.
#[verifier::spinoff_prover]
pub proof fn lemma_wifi_scan_result_param_read_back(l: LayoutView, slot: u8, param: WifiScanResultParam, value: Value)
    requires
        spec_encode(Command::SetWifiScanResultParam { slot, param, value }, l) is Ok,
        !(param is Other),
        var_round_trips(value@),
        !claimed_before(28, l.wifi_scan_result.spec_path(slot).unwrap(), param.wire_name(), Some(value@), l),
    ensures
        ({
            let frames = spec_encode(Command::SetWifiScanResultParam { slot, param, value }, l)->Ok_0;
            &&& frames.len() == 1
            &&& decodes_to(frames[0], l, EventModel::WifiScanResultChanged { slot: spec_last_index(l.wifi_scan_result.spec_path(slot).unwrap()), param: param.model(), value: value@ })
        }),
{
    let p = l.wifi_scan_result.spec_path(slot).unwrap();
    lemma_wifi_scan_result_param_name_round_trip(param);
    reveal(WifiScanResultParam::name_model);
    lemma_property_changed_round_trip(p, param.wire_name(), value@);
    assert(decoding_rule(28, p, param.wire_name(), Some(value@), l) == Some(EventModel::WifiScanResultChanged { slot: spec_last_index(l.wifi_scan_result.spec_path(slot).unwrap()), param: param.model(), value: value@ }));
    lemma_decoded_by_rule(28, p, param.wire_name(), Some(value@), l);
}

/// Setting a typed parameter on the `tx`th node of its family is read back
/// as that parameter with the same value, addressed by the low byte of the
/// node's position among the root's children (the ordinal written only when the
/// family starts at position 0), unless a rule earlier in the decoder's order
/// claims the property change.
#[verifier::spinoff_prover]
pub proof fn lemma_radio_tx_param_read_back(l: LayoutView, tx: u8, param: RadioTxParam, value: Value)
    requires
        spec_encode(Command::SetRadioTxParam { tx, param, value }, l) is Ok,
        !(param is Other),
        var_round_trips(value@),
        !claimed_before(30, l.radio_tx.spec_path(tx).unwrap(), param.wire_name(), Some(value@), l),
    ensures
        ({
            let frames = spec_encode(Command::SetRadioTxParam { tx, param, value }, l)->Ok_0;
            &&& frames.len() == 1
            &&& decodes_to(frames[0], l, EventModel::RadioTxParamChanged { tx: spec_last_index(l.radio_tx.spec_path(tx).unwrap()), param: param.model(), value: value@ })
        }),
{
    let p = l.radio_tx.spec_path(tx).unwrap();
    lemma_radio_tx_param_name_round_trip(param);
    reveal(RadioTxParam::name_model);
    lemma_property_changed_round_trip(p, param.wire_name(), value@);
    assert(decoding_rule(30, p, param.wire_name(), Some(value@), l) == Some(EventModel::RadioTxParamChanged { tx: spec_last_index(l.radio_tx.spec_path(tx).unwrap()), param: param.model(), value: value@ }));
    lemma_decoded_by_rule(30, p, param.wire_name(), Some(value@), l);
}

/// Setting a typed parameter on the `rx`th node of its family is read back
/// as that parameter with the same value, addressed by the low byte of the
/// node's position among the root's children (the ordinal written only when the
/// family starts at position 0), unless a rule earlier in the decoder's order
/// claims the property change.
#[verifier::spinoff_prover]
pub proof fn lemma_radio_rx_param_read_back(l: LayoutView, rx: u8, param: RadioRxParam, value: Value)
    requires
        spec_encode(Command::SetRadioRxParam { rx, param, value }, l) is Ok,
        !(param is Other),
        var_round_trips(value@),
        !claimed_before(31, l.radio_rx.spec_path(rx).unwrap(), param.wire_name(), Some(value@), l),
    ensures
        ({
            let frames = spec_encode(Command::SetRadioRxParam { rx, param, value }, l)->Ok_0;
            &&& frames.len() == 1
            &&& decodes_to(frames[0], l, EventModel::RadioRxParamChanged { rx: spec_last_index(l.radio_rx.spec_path(rx).unwrap()), param: param.model(), value: value@ })
        }),
{
    let p = l.radio_rx.spec_path(rx).unwrap();
    lemma_radio_rx_param_name_round_trip(param);
    reveal(RadioRxParam::name_model);
    lemma_property_changed_round_trip(p, param.wire_name(), value@);
    assert(decoding_rule(31, p, param.wire_name(), Some(value@), l) == Some(EventModel::RadioRxParamChanged { rx: spec_last_index(l.radio_rx.spec_path(rx).unwrap()), param: param.model(), value: value@ }));
    lemma_decoded_by_rule(31, p, param.wire_name(), Some(value@), l);
}

} // verus!
