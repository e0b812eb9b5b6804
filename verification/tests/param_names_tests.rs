use lib::names::{AppParam, AudioParam, BuildParam, ChannelParam, CurrentShowParam, DuckerParam, EffectsParam, FxPresetParam, GuiParam, HeadphoneParam, InputSourceParam, MasterParam, MeterParam, MixMinusesParam, NetworkParam, OutputParam, PadParam, PadRecorderParam, PlayerParam, RadioParam, RadioRxParam, RadioTxParam, RcSyncMixParam, RecorderParam, RecordingParam, RecordingsParam, ShowControlParam, ShowParam, SipAdvancedParam, SipCallSlotsParam, SipCallingParam, SipRegistrationParam, StorageVolumeParam, StreamerXMixPresetParam, StreamerXStreamMixParam, SystemParam, TestParam, ThemeParam, WifiScanResultParam};

// ---- app.rs
#[test]
fn app_param_name_round_trips() {
    let params = [
        AppParam::Compression,
        AppParam::MonitorMix,
        AppParam::OutputDevice,
        AppParam::Recording,
    ];
    for p in params {
        assert_eq!(AppParam::from_name(p.as_str()), p);
        assert!(p.is_known());
    }
}

// ---- audio.rs
#[test]
fn audio_param_name_round_trips() {
    let params = [
        AudioParam::ActiveStreamerXMixPreset,
        AudioParam::BufferSize,
        AudioParam::SampleRate,
        AudioParam::InputChannels,
        AudioParam::OutputChannels,
        AudioParam::InputLatency,
        AudioParam::OuputLatency,
        AudioParam::RcSyncChannelAssign,
        AudioParam::RcSyncChannelSwap,
    ];
    for p in params {
        assert_eq!(AudioParam::from_name(p.as_str()), p);
        assert!(p.is_known());
    }
}

#[test]
fn audio_param_preserves_firmware_typo() {
    // The wire misspells "Output" as "Ouput"; the crate matches it verbatim.
    assert_eq!(AudioParam::OuputLatency.as_str(), "audioOuputLatency");
    assert_ne!(
        AudioParam::from_name("audioOutputLatency"),
        AudioParam::OuputLatency
    );
}

// ---- build.rs
#[test]
fn build_param_name_round_trips() {
    let params = [
        BuildParam::CallMeVersion,
        BuildParam::GuiVersion,
        BuildParam::GuiModulesGitSha,
        BuildParam::MixerVersion,
        BuildParam::MixerModulesGitSha,
    ];
    for p in params {
        assert_eq!(BuildParam::from_name(p.as_str()), p);
        assert!(p.is_known());
    }
}

// ---- channel.rs
#[test]
fn channel_param_name_round_trips() {
    // A representative slice of every family: from_name(as_str(x)) == x.
    let params = [
        ChannelParam::EqHighGain,
        ChannelParam::CompressorThreshold,
        ChannelParam::DeesserFrequency,
        ChannelParam::NoiseGateOn,
        ChannelParam::HpfSlope,
        ChannelParam::AphexAeMix,
        ChannelParam::PanMode,
        ChannelParam::Depth,
        ChannelParam::ListenSource,
        ChannelParam::WirelessMute,
    ];
    for p in params {
        assert_eq!(ChannelParam::from_name(p.as_str()), p);
        assert!(p.is_known());
        // Display matches the wire name.
        assert_eq!(p.to_string(), p.as_str());
    }
}

#[test]
fn channel_param_exact_wire_names() {
    // Variant spelling differs from the wire name for acronym cases; pin a
    // few exact wire strings so a rename can't silently change the protocol.
    assert_eq!(ChannelParam::AphexAeMix.as_str(), "aphexAEMix");
    assert_eq!(ChannelParam::AphexBbDrive.as_str(), "aphexBBDrive");
    assert_eq!(ChannelParam::Pan.as_str(), "channelPan");
    assert_eq!(ChannelParam::Depth.as_str(), "channelDepth");
}

#[test]
fn channel_param_unknown_falls_back_to_other() {
    let p = ChannelParam::from_name("channelMysteryKnob");
    assert_eq!(p, ChannelParam::Other("channelMysteryKnob".to_string()));
    assert!(!p.is_known());
    // Other round-trips its raw name through as_str/from_name too.
    assert_eq!(p.as_str(), "channelMysteryKnob");
    assert_eq!(ChannelParam::from_name(p.as_str()), p);
}

// ---- ducker.rs
#[test]
fn ducker_param_round_trips_and_exact_wire_name() {
    assert_eq!(DuckerParam::from_name("duckerDepth"), DuckerParam::Depth);
    assert_eq!(DuckerParam::Depth.as_str(), "duckerDepth");
    assert!(DuckerParam::Depth.is_known());
    assert_eq!(DuckerParam::Depth.to_string(), "duckerDepth");
}

#[test]
fn ducker_param_unknown_falls_back_to_other() {
    let p = DuckerParam::from_name("duckerMystery");
    assert_eq!(p, DuckerParam::Other("duckerMystery".to_string()));
    assert!(!p.is_known());
    assert_eq!(DuckerParam::from_name(p.as_str()), p);
}

// ---- effects.rs
#[test]
fn effects_param_round_trips_and_exact_wire_names() {
    for p in [
        EffectsParam::ReverbOn,
        EffectsParam::ReverbMix,
        EffectsParam::EchoDelay,
        EffectsParam::PitchShiftSemitones,
        EffectsParam::DistortionIntensity,
        EffectsParam::RobotMix,
        EffectsParam::VoiceDisguiseOn,
        EffectsParam::Idx,
        EffectsParam::InputSource,
    ] {
        assert_eq!(EffectsParam::from_name(p.as_str()), p);
        assert!(p.is_known());
        assert_eq!(p.to_string(), p.as_str());
    }
    assert_eq!(EffectsParam::ReverbModel.as_str(), "reverbModel");
    assert_eq!(EffectsParam::EchoHighCut.as_str(), "echoHighCut");
    assert_eq!(EffectsParam::Idx.as_str(), "effectsIdx");
    // The source binding shares its wire name with the channel strip's source
    // assignment; which family it resolves to is decided by the node path,
    // not the property name.
    assert_eq!(EffectsParam::InputSource.as_str(), "channelInputSource");
}

#[test]
fn effects_param_unknown_falls_back_to_other() {
    let p = EffectsParam::from_name("flangerOn");
    assert_eq!(p, EffectsParam::Other("flangerOn".to_string()));
    assert!(!p.is_known());
    assert_eq!(EffectsParam::from_name(p.as_str()), p);
}

// ---- fx_preset.rs
#[test]
fn fx_preset_param_round_trips() {
    for p in [FxPresetParam::Contents, FxPresetParam::Idx] {
        assert_eq!(FxPresetParam::from_name(p.as_str()), p);
        assert!(p.is_known());
    }
}

// ---- gui.rs
#[test]
fn gui_param_round_trips_and_exact_wire_names() {
    for p in [
        GuiParam::Lang,
        GuiParam::ScreenBrightness,
        GuiParam::AutoBrightness,
        GuiParam::Metering,
        GuiParam::BroadcastMeters,
        GuiParam::SelectedBank,
        GuiParam::PadActiveEdit,
        GuiParam::ScreenTouched,
        GuiParam::EqParamModeHigh,
    ] {
        assert_eq!(GuiParam::from_name(p.as_str()), p);
        assert!(p.is_known());
        assert_eq!(p.to_string(), p.as_str());
    }
    assert_eq!(
        GuiParam::ScreenDimAfterSeconds.as_str(),
        "screenDimAfterSeconds"
    );
    assert_eq!(
        GuiParam::InactiveButtonsBrightness.as_str(),
        "inactiveButtonsBrightness"
    );
    assert_eq!(
        GuiParam::ActiveButtonsBrightness.as_str(),
        "activeButtonsBrightness"
    );
    assert_eq!(GuiParam::EqParamModeLow.as_str(), "eqParamModeLow");
    assert_eq!(GuiParam::EqParamModeMid.as_str(), "eqParamModeMid");
}

#[test]
fn gui_param_unknown_falls_back_to_other() {
    let p = GuiParam::from_name("mysteryGuiFlag");
    assert_eq!(p, GuiParam::Other("mysteryGuiFlag".to_string()));
    assert!(!p.is_known());
    assert_eq!(GuiParam::from_name(p.as_str()), p);
}

// ---- headphone.rs
#[test]
fn headphone_param_round_trips_and_exact_wire_names() {
    for p in [HeadphoneParam::Colour, HeadphoneParam::Type] {
        assert_eq!(HeadphoneParam::from_name(p.as_str()), p);
        assert!(p.is_known());
        assert_eq!(p.to_string(), p.as_str());
    }
    assert_eq!(HeadphoneParam::Colour.as_str(), "headphoneColour");
    assert_eq!(HeadphoneParam::Type.as_str(), "headphoneType");
}

#[test]
fn headphone_param_unknown_falls_back_to_other() {
    let p = HeadphoneParam::from_name("headphoneMystery");
    assert_eq!(p, HeadphoneParam::Other("headphoneMystery".to_string()));
    assert!(!p.is_known());
    assert_eq!(HeadphoneParam::from_name(p.as_str()), p);
}

// ---- input_source.rs
#[test]
fn input_source_param_name_round_trips() {
    // Every typed INPUTSOURCE param: from_name(as_str(x)) == x.
    let params = [
        InputSourceParam::InputId,
        InputSourceParam::InputColour,
        InputSourceParam::InputType,
        InputSourceParam::InputPower,
        InputSourceParam::InputMicrophoneType,
        InputSourceParam::InputMicrophoneGain,
        InputSourceParam::InputDigitalGain,
        InputSourceParam::InputInstrumentGain,
        InputSourceParam::InputPhaseFlip,
        InputSourceParam::InputWirelessSn,
        InputSourceParam::InputSipCallSlot,
        InputSourceParam::InputRcvAudioSourceType,
    ];
    for p in params {
        assert_eq!(InputSourceParam::from_name(p.as_str()), p);
        assert!(p.is_known());
        assert_eq!(p.to_string(), p.as_str());
    }
}

#[test]
fn input_source_param_exact_wire_names() {
    // Acronym casing must match the firmware exactly.
    assert_eq!(
        InputSourceParam::InputWirelessSn.as_str(),
        "inputWirelessSN"
    );
    assert_eq!(
        InputSourceParam::InputRcvAudioSourceType.as_str(),
        "inputRcvAudioSourceType"
    );
    assert_eq!(InputSourceParam::InputId.as_str(), "inputId");
}

#[test]
fn input_source_param_unknown_falls_back_to_other() {
    let p = InputSourceParam::from_name("inputMysteryFlag");
    assert_eq!(p, InputSourceParam::Other("inputMysteryFlag".to_string()));
    assert!(!p.is_known());
    assert_eq!(p.as_str(), "inputMysteryFlag");
    assert_eq!(InputSourceParam::from_name(p.as_str()), p);
}

// ---- master.rs
#[test]
fn master_param_name_round_trips() {
    // Every typed MASTERCHANNEL param: from_name(as_str(x)) == x.
    let params = [
        MasterParam::CompellorOn,
        MasterParam::CompellorThreshold,
        MasterParam::CompellorAttack,
        MasterParam::CompellorRelease,
        MasterParam::CompellorGain,
        MasterParam::DelayOn,
        MasterParam::DelaySeconds,
    ];
    for p in params {
        assert_eq!(MasterParam::from_name(p.as_str()), p);
        assert!(p.is_known());
        assert_eq!(p.to_string(), p.as_str());
    }
}

#[test]
fn master_param_exact_wire_names() {
    // The master* prefix and Compellor casing must match the firmware.
    assert_eq!(MasterParam::CompellorOn.as_str(), "masterCompellorOn");
    assert_eq!(MasterParam::DelaySeconds.as_str(), "masterDelaySeconds");
}

#[test]
fn master_param_unknown_falls_back_to_other() {
    let p = MasterParam::from_name("masterMysteryFlag");
    assert_eq!(p, MasterParam::Other("masterMysteryFlag".to_string()));
    assert!(!p.is_known());
    assert_eq!(MasterParam::from_name(p.as_str()), p);
}

// ---- meter.rs
#[test]
fn meter_param_name_round_trips() {
    let params = [
        MeterParam::FaderLevel,
        MeterParam::MeterLevelL,
        MeterParam::MeterLevelR,
        MeterParam::MeterPeakL,
        MeterParam::MeterPeakR,
        MeterParam::MeterStereo,
    ];
    for p in params {
        assert_eq!(MeterParam::from_name(p.as_str()), p);
        assert!(p.is_known());
    }
}

#[test]
fn meter_param_shares_fader_level_wire_name() {
    // `faderLevel` intentionally collides with FADER's property — path
    // shape distinguishes the two at decode time.
    assert_eq!(MeterParam::FaderLevel.as_str(), "faderLevel");
}

// ---- mix_minuses.rs
#[test]
fn mix_minuses_param_round_trips() {
    assert_eq!(
        MixMinusesParam::from_name("outputMixMinus"),
        MixMinusesParam::OutputMixMinus
    );
    assert!(MixMinusesParam::OutputMixMinus.is_known());
}

// ---- network.rs
#[test]
fn network_param_name_round_trips_all() {
    let params = [
        NetworkParam::BtVisible,
        NetworkParam::BtDoScan,
        NetworkParam::BtConnectedAddress,
        NetworkParam::CellApn,
        NetworkParam::Gateway,
        NetworkParam::Wifi,
        NetworkParam::WifiScan1,
        NetworkParam::WiredConnected,
    ];
    for p in params {
        assert_eq!(NetworkParam::from_name(p.as_str()), p);
        assert!(p.is_known());
    }
}

#[test]
fn network_param_preserves_firmware_casing() {
    // The wire names carry firmware casing quirks (APN, DHCP, PSK, USB, SSID).
    assert_eq!(NetworkParam::CellApn.as_str(), "cellAPN");
    assert_eq!(NetworkParam::WifiDhcp.as_str(), "wifiDHCP");
    assert_eq!(NetworkParam::WifiPsk.as_str(), "wifiPSK");
    assert_eq!(NetworkParam::WifiIncorrectPsk.as_str(), "wifiIncorrectPSK");
    assert_eq!(NetworkParam::WifiSsid.as_str(), "wifiSSID");
    assert_eq!(NetworkParam::CellUsbFound.as_str(), "cellUSBFound");
}

#[test]
fn network_param_unknown_falls_back_to_other() {
    let p = NetworkParam::from_name("wifiSomethingElse");
    assert_eq!(p, NetworkParam::Other("wifiSomethingElse".to_string()));
    assert!(!p.is_known());
}

// ---- output.rs
#[test]
fn output_param_name_round_trips() {
    // Every typed OUTPUT param: from_name(as_str(x)) == x.
    let params = [
        OutputParam::MonLevel,
        OutputParam::MonMute,
        OutputParam::MonAutoMute,
        OutputParam::MonAutoMuteActive,
        OutputParam::MonFixed,
        OutputParam::BtLevel,
        OutputParam::BtMute,
        OutputParam::BtAutoMute,
        OutputParam::BtAutoMuteActive,
        OutputParam::MultiMode,
        OutputParam::MultiBypass,
        OutputParam::Prefader,
        OutputParam::RecordingCompressionQuality,
        OutputParam::RecordingMultitrackMode,
        OutputParam::RecordingProcessingBypass,
    ];
    for p in params {
        assert_eq!(OutputParam::from_name(p.as_str()), p);
        assert!(p.is_known());
        assert_eq!(p.to_string(), p.as_str());
    }
}

#[test]
fn output_param_exact_wire_names() {
    // The BT acronym is upper-case on the wire; recording* params live on
    // OUTPUT but keep their own prefix.
    assert_eq!(OutputParam::BtLevel.as_str(), "outputBTLevel");
    assert_eq!(OutputParam::MonLevel.as_str(), "outputMonLevel");
    assert_eq!(
        OutputParam::RecordingMultitrackMode.as_str(),
        "recordingMultitrackMode"
    );
}

#[test]
fn output_param_unknown_falls_back_to_other() {
    let p = OutputParam::from_name("outputMysteryFlag");
    assert_eq!(p, OutputParam::Other("outputMysteryFlag".to_string()));
    assert!(!p.is_known());
    assert_eq!(OutputParam::from_name(p.as_str()), p);
}

// ---- pad.rs
#[test]
fn pad_param_round_trips_and_exact_wire_names() {
    for p in [
        PadParam::Idx,
        PadParam::ColourIndex,
        PadParam::Name,
        PadParam::Type,
        PadParam::FilePath,
        PadParam::Active,
        PadParam::Loop,
        PadParam::PlayMode,
        PadParam::Gain,
        PadParam::MixerMode,
        PadParam::EffectInput,
        PadParam::SipPhoneBookEntry,
        PadParam::TriggerMode,
    ] {
        assert_eq!(PadParam::from_name(p.as_str()), p);
        assert!(p.is_known());
        assert_eq!(p.to_string(), p.as_str());
    }
    // Spot-check the casing that camel-casing the variant name would get wrong.
    assert_eq!(PadParam::RcvSyncPadType.as_str(), "padRCVSyncPadType");
    assert_eq!(
        PadParam::MixerBackChannelUsb1Comms.as_str(),
        "padMixerBackChannelUsb1Comms"
    );
    assert_eq!(PadParam::SipPhoneBookEntry.as_str(), "padSIPPhoneBookEntry");
    assert_eq!(PadParam::SipQdLock.as_str(), "padSIPQdLock");
}

#[test]
fn pad_param_unknown_falls_back_to_other() {
    let p = PadParam::from_name("padMysteryFlag");
    assert_eq!(p, PadParam::Other("padMysteryFlag".to_string()));
    assert!(!p.is_known());
    assert_eq!(PadParam::from_name(p.as_str()), p);
}

// ---- pad_recorder.rs
#[test]
fn pad_recorder_param_round_trips_all_six() {
    for p in [
        PadRecorderParam::Idx,
        PadRecorderParam::State,
        PadRecorderParam::Seconds,
        PadRecorderParam::MemoryFull,
        PadRecorderParam::StateRequest,
        PadRecorderParam::Clear,
    ] {
        assert_eq!(PadRecorderParam::from_name(p.as_str()), p);
        assert!(p.is_known());
    }
}

// ---- player.rs
#[test]
fn player_param_name_round_trips() {
    let params = [
        PlayerParam::State,
        PlayerParam::Speed,
        PlayerParam::Progress,
        PlayerParam::CurrentPositionTime,
        PlayerParam::JumpToSample,
        PlayerParam::FilePath,
        PlayerParam::FileSize,
        PlayerParam::EnvStart,
        PlayerParam::EnvStop,
        PlayerParam::EnvFadeIn,
        PlayerParam::EnvFadeOut,
    ];
    for p in params {
        assert_eq!(PlayerParam::from_name(p.as_str()), p);
        assert!(p.is_known());
        assert_eq!(p.to_string(), p.as_str());
    }
}

#[test]
fn player_param_exact_wire_names() {
    assert_eq!(PlayerParam::State.as_str(), "playerState");
    assert_eq!(PlayerParam::EnvFadeOut.as_str(), "playerEnvFadeOut");
    assert_eq!(PlayerParam::JumpToSample.as_str(), "playerJumpToSample");
}

#[test]
fn player_param_unknown_falls_back_to_other() {
    let p = PlayerParam::from_name("playerMystery");
    assert_eq!(p, PlayerParam::Other("playerMystery".to_string()));
    assert!(!p.is_known());
    assert_eq!(PlayerParam::from_name(p.as_str()), p);
}

// ---- radio.rs
#[test]
fn radio_param_round_trips() {
    for p in [RadioParam::Pair, RadioParam::Paired, RadioParam::Unpair] {
        assert_eq!(RadioParam::from_name(p.as_str()), p);
        assert!(p.is_known());
    }
}

#[test]
fn radio_tx_param_round_trips_all_twelve() {
    let params = [
        RadioTxParam::BatteryLevel,
        RadioTxParam::ChargingState,
        RadioTxParam::Connected,
        RadioTxParam::ConnectionId,
        RadioTxParam::DeviceSn,
        RadioTxParam::DeviceType,
        RadioTxParam::GainAssist,
        RadioTxParam::Pad,
        RadioTxParam::Record,
        RadioTxParam::RemoteMute,
        RadioTxParam::Rssi,
        RadioTxParam::SignalQuality,
    ];
    for p in params {
        assert_eq!(RadioTxParam::from_name(p.as_str()), p);
        assert!(p.is_known());
    }
}

#[test]
fn radio_tx_param_preserves_capitalized_sn() {
    assert_eq!(RadioTxParam::DeviceSn.as_str(), "txDeviceSN");
}

#[test]
fn radio_rx_param_round_trips() {
    assert_eq!(RadioRxParam::from_name("rxRadioId"), RadioRxParam::RadioId);
    assert!(RadioRxParam::RadioId.is_known());
}

// ---- rcsync.rs
#[test]
fn rc_sync_mix_param_round_trips_all_seven() {
    for p in [
        RcSyncMixParam::MixDisabled,
        RcSyncMixParam::MixLevelWithAnchor,
        RcSyncMixParam::MixLink,
        RcSyncMixParam::MixLinkRequest,
        RcSyncMixParam::MixMute,
        RcSyncMixParam::MixUnlinkRequest,
        RcSyncMixParam::MixRcSyncLevelRequest,
    ] {
        assert_eq!(RcSyncMixParam::from_name(p.as_str()), p);
        assert!(p.is_known());
    }
}

// ---- recorder.rs
#[test]
fn recorder_param_name_round_trips() {
    let params = [
        RecorderParam::RecordState,
        RecorderParam::RecordTimeMs,
        RecorderParam::RecordBytesPerSecond,
        RecorderParam::RequestRecordState,
        RecorderParam::RequestDropMarker,
    ];
    for p in params {
        assert_eq!(RecorderParam::from_name(p.as_str()), p);
        assert!(p.is_known());
        assert_eq!(p.to_string(), p.as_str());
    }
}

#[test]
fn recorder_param_separates_state_from_command_channel() {
    // Read-back state vs the request* write channel keep distinct wire names.
    assert_eq!(RecorderParam::RecordState.as_str(), "recordState");
    assert_eq!(
        RecorderParam::RequestRecordState.as_str(),
        "requestRecordState"
    );
    assert_eq!(
        RecorderParam::RequestDropMarker.as_str(),
        "requestDropMarker"
    );
}

#[test]
fn recorder_param_unknown_falls_back_to_other() {
    let p = RecorderParam::from_name("recordMystery");
    assert_eq!(p, RecorderParam::Other("recordMystery".to_string()));
    assert!(!p.is_known());
    assert_eq!(RecorderParam::from_name(p.as_str()), p);
}

// ---- recording.rs
#[test]
fn recordings_param_name_round_trips() {
    let params = [
        RecordingsParam::TotalCount,
        RecordingsParam::TotalDuration,
        RecordingsParam::RequestDeleteUid,
    ];
    for p in params {
        assert_eq!(RecordingsParam::from_name(p.as_str()), p);
        assert!(p.is_known());
    }
}

#[test]
fn recording_param_name_round_trips() {
    let params = [RecordingParam::Content, RecordingParam::Uid];
    for p in params {
        assert_eq!(RecordingParam::from_name(p.as_str()), p);
        assert!(p.is_known());
    }
}

#[test]
fn recording_param_preserves_firmware_casing() {
    assert_eq!(RecordingParam::Uid.as_str(), "recordingUID");
    assert_eq!(
        RecordingsParam::RequestDeleteUid.as_str(),
        "requestDeleteUID"
    );
}

// ---- show.rs
#[test]
fn show_param_name_round_trips() {
    let params = [
        ShowParam::Icon,
        ShowParam::LastModification,
        ShowParam::Name,
        ShowParam::SnapshotIndex,
        ShowParam::StorageType,
        ShowParam::Uid,
        ShowParam::Uuid,
    ];
    for p in params {
        assert_eq!(ShowParam::from_name(p.as_str()), p);
        assert!(p.is_known());
    }
    assert_eq!(ShowParam::Uid.as_str(), "showUID");
    assert_eq!(ShowParam::Uuid.as_str(), "showUUID");
}

#[test]
fn current_show_param_name_round_trips() {
    for p in [
        CurrentShowParam::Icon,
        CurrentShowParam::Name,
        CurrentShowParam::Uuid,
    ] {
        assert_eq!(CurrentShowParam::from_name(p.as_str()), p);
        assert!(p.is_known());
    }
}

#[test]
fn show_control_param_name_round_trips_all_ten() {
    let params = [
        ShowControlParam::Delete,
        ShowControlParam::Export,
        ShowControlParam::ExportImport,
        ShowControlParam::Import,
        ShowControlParam::LastError,
        ShowControlParam::LockoutCentral,
        ShowControlParam::NewFromDefault,
        ShowControlParam::NewFromDefaultMuted,
        ShowControlParam::Progress,
        ShowControlParam::Updating,
    ];
    for p in params {
        assert_eq!(ShowControlParam::from_name(p.as_str()), p);
        assert!(p.is_known());
    }
}

// ---- sip.rs
#[test]
fn sip_calling_param_round_trips() {
    let params = [
        SipCallingParam::HostingEnabled,
        SipCallingParam::HostingToggleEnabled,
        SipCallingParam::LicenceMode,
        SipCallingParam::LicenceCheck,
        SipCallingParam::RodeCode,
        SipCallingParam::IncomingCallAccept,
        SipCallingParam::IncomingCallDetails,
        SipCallingParam::OutgoingCallDetails,
        SipCallingParam::SlotPendingCallSetup,
        SipCallingParam::RemainingCalltime,
        SipCallingParam::RemainingWebCalltime,
        SipCallingParam::RenewalDate,
        SipCallingParam::LicenceRenewal,
        SipCallingParam::CallRating,
    ];
    for p in params {
        assert_eq!(SipCallingParam::from_name(p.as_str()), p);
        assert!(p.is_known());
    }
}

#[test]
fn sip_registration_param_round_trips() {
    for p in [
        SipRegistrationParam::Index,
        SipRegistrationParam::Details,
        SipRegistrationParam::IsRegistered,
    ] {
        assert_eq!(SipRegistrationParam::from_name(p.as_str()), p);
        assert!(p.is_known());
    }
}

#[test]
fn sip_call_slots_param_round_trips_all_twelve() {
    let params = [
        SipCallSlotsParam::SlotId,
        SipCallSlotsParam::State,
        SipCallSlotsParam::Uuid,
        SipCallSlotsParam::Address,
        SipCallSlotsParam::Quality,
        SipCallSlotsParam::Jitter,
        SipCallSlotsParam::Bitrate,
        SipCallSlotsParam::PacketLoss,
        SipCallSlotsParam::Disconnect,
        SipCallSlotsParam::Extend,
        SipCallSlotsParam::IsHost,
        SipCallSlotsParam::Mode,
    ];
    for p in params {
        assert_eq!(SipCallSlotsParam::from_name(p.as_str()), p);
        assert!(p.is_known());
    }
}

#[test]
fn sip_advanced_param_round_trips_all_twenty_five() {
    let params = [
        SipAdvancedParam::ForceCodecChoice,
        SipAdvancedParam::EnableVideoStream,
        SipAdvancedParam::EnableRFCDuplication,
        SipAdvancedParam::IncomingNameFilter,
        SipAdvancedParam::UsbNumberPad,
        SipAdvancedParam::NonHTTPSInterface,
        SipAdvancedParam::AutoReconnect,
        SipAdvancedParam::IncomingAudioRouting,
        SipAdvancedParam::DtmfMode,
        SipAdvancedParam::ReceiveJitterBufferMin,
        SipAdvancedParam::ReceiveJitterBufferMax,
        SipAdvancedParam::SipWebPassword,
        SipAdvancedParam::SipAccountRegister,
        SipAdvancedParam::SipAccountUsername,
        SipAdvancedParam::SipAccountPassword,
        SipAdvancedParam::SipAccountDomain,
        SipAdvancedParam::SipAccountProxyAddress,
        SipAdvancedParam::SipAccountTransport,
        SipAdvancedParam::SipNatTraversalMode,
        SipAdvancedParam::SipNatTraversalServer,
        SipAdvancedParam::SipNatTraversalUsername,
        SipAdvancedParam::SipNatTraversalPassword,
        SipAdvancedParam::SipUnitName,
        SipAdvancedParam::SipAccountAuthUsername,
        SipAdvancedParam::RodeCallQuality,
    ];
    for p in params {
        assert_eq!(SipAdvancedParam::from_name(p.as_str()), p);
        assert!(p.is_known());
    }
}

#[test]
fn sip_advanced_param_preserves_firmware_casing() {
    // Firmware uses HTTPS / RFC / NAT / HTTPS in wire names; preserved verbatim.
    assert_eq!(
        SipAdvancedParam::EnableRFCDuplication.as_str(),
        "enableRFCDuplication"
    );
    assert_eq!(
        SipAdvancedParam::NonHTTPSInterface.as_str(),
        "nonHTTPSInterface"
    );
    assert_eq!(
        SipAdvancedParam::SipNatTraversalMode.as_str(),
        "sipNATTraversalMode"
    );
}

// ---- storage.rs
#[test]
fn storage_volume_param_name_round_trips() {
    let params = [
        StorageVolumeParam::Name,
        StorageVolumeParam::Capacity,
        StorageVolumeParam::Free,
        StorageVolumeParam::Inserted,
        StorageVolumeParam::Mounted,
        StorageVolumeParam::Formatted,
        StorageVolumeParam::RecDestination,
        StorageVolumeParam::State,
        StorageVolumeParam::Eject,
        StorageVolumeParam::Erase,
        StorageVolumeParam::Transfer,
    ];
    for p in params {
        assert_eq!(StorageVolumeParam::from_name(p.as_str()), p);
        assert!(p.is_known());
    }
}

#[test]
fn storage_volume_param_state_pipe_string_is_caller_owned() {
    // `storageVolumeState` values arrive as pipe-separated strings like
    // "15927934976|11134074880|1|1|1": the crate types the property name,
    // parsing the fields is the caller's job.
    assert_eq!(StorageVolumeParam::State.as_str(), "storageVolumeState");
}

// ---- streamerx.rs
#[test]
fn streamerx_mix_preset_param_round_trips() {
    for p in [
        StreamerXMixPresetParam::Created,
        StreamerXMixPresetParam::Name,
    ] {
        assert_eq!(StreamerXMixPresetParam::from_name(p.as_str()), p);
        assert!(p.is_known());
    }
}

#[test]
fn streamerx_stream_mix_param_preserves_duplicated_mix_prefix() {
    assert_eq!(
        StreamerXStreamMixParam::MixLevel.as_str(),
        "streammixmixLevel"
    );
}

// ---- system.rs
#[test]
fn system_param_round_trips_and_exact_wire_names() {
    for p in [
        SystemParam::MidiControl,
        SystemParam::FirmwareVersion,
        SystemParam::BoardType,
        SystemParam::EngineMode,
        SystemParam::DateTimezone,
        SystemParam::BetaMode,
        SystemParam::PowerOffRequest,
        SystemParam::DisableAllLineoutOutputs,
        SystemParam::UsbHostOnUsb2,
        SystemParam::ShareAnom,
    ] {
        assert_eq!(SystemParam::from_name(p.as_str()), p);
        assert!(p.is_known());
        assert_eq!(p.to_string(), p.as_str());
    }
    // The `system`-prefixed identity/date props strip the prefix.
    assert_eq!(SystemParam::SerialNumber.as_str(), "systemSerialNumber");
    assert_eq!(
        SystemParam::ChannelSelected.as_str(),
        "systemChannelSelected"
    );
    assert_eq!(SystemParam::DateTime24h.as_str(), "systemDateTime24h");
    // Firmware casing/spelling quirks must survive verbatim.
    assert_eq!(SystemParam::UpdateViaUsb.as_str(), "updateViaUSB");
    assert_eq!(SystemParam::LastRecordingId.as_str(), "lastRecordingID");
    assert_eq!(
        SystemParam::UpdateResetAfterFwuRequested.as_str(),
        "updateResetAfterFWURequested"
    );
    assert_eq!(
        SystemParam::UsbHostUnsupportedFirmware.as_str(),
        "usbHostUnspportedFirmware"
    );
}

#[test]
fn system_param_unknown_falls_back_to_other() {
    let p = SystemParam::from_name("mysterySystemFlag");
    assert_eq!(p, SystemParam::Other("mysterySystemFlag".to_string()));
    assert!(!p.is_known());
    assert_eq!(SystemParam::from_name(p.as_str()), p);
}

// ---- test.rs
#[test]
fn test_param_round_trips() {
    for p in [TestParam::AllLedsWhite, TestParam::ToneGeneration] {
        assert_eq!(TestParam::from_name(p.as_str()), p);
        assert!(p.is_known());
    }
}

#[test]
fn test_param_preserves_leds_capitalization() {
    assert_eq!(TestParam::AllLedsWhite.as_str(), "allLEDSWhite");
}

// ---- theme.rs
#[test]
fn theme_param_name_round_trips() {
    assert_eq!(ThemeParam::from_name("themeId"), ThemeParam::Id);
    assert!(ThemeParam::Id.is_known());
}

// ---- wifi_scan_result.rs
#[test]
fn wifi_scan_result_param_round_trips() {
    assert_eq!(
        WifiScanResultParam::from_name("wifiScanResultSSID"),
        WifiScanResultParam::Ssid
    );
    assert!(WifiScanResultParam::Ssid.is_known());
    assert_eq!(WifiScanResultParam::Ssid.as_str(), "wifiScanResultSSID");
}
