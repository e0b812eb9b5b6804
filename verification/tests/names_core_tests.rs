use lib::names::{DeviceModel, DuckerParam, Fader, MixOutput, Source};

#[test]
fn device_model_prefers_board_type_over_name() {
    // boardType wins even if the name disagrees.
    assert_eq!(DeviceModel::detect(Some(1), Some("RODECaster Pro II")), DeviceModel::Duo);
    assert_eq!(DeviceModel::detect(Some(0), None), DeviceModel::Pro2);
}

#[test]
fn device_model_falls_back_to_name_then_default() {
    // Unrecognized board -> use the name.
    assert_eq!(DeviceModel::detect(Some(99), Some("rodecaster duo")), DeviceModel::Duo);
    // No board, no name -> default Pro II (matches fw 1.6.8 captures).
    assert_eq!(DeviceModel::detect(None, None), DeviceModel::Pro2);
    // Name only.
    assert_eq!(DeviceModel::detect(None, Some("Some Duo")), DeviceModel::Duo);
    assert_eq!(DeviceModel::detect(None, Some("Pro II")), DeviceModel::Pro2);
}

#[test]
fn source_protocol_roundtrips_all_19() {
    for i in 0..=18u8 {
        let s = Source::from_protocol(i).expect("valid source index");
        assert_eq!(s.to_protocol(), i);
    }
    assert_eq!(Source::from_protocol(19), None);
}

#[test]
fn mix_output_protocol_roundtrips_all_13() {
    for i in 0..=12u8 {
        let m = MixOutput::from_protocol(i).expect("valid mix index");
        assert_eq!(m.to_protocol(), i);
    }
    assert_eq!(MixOutput::from_protocol(13), None);
}

#[test]
fn source_callme_classification() {
    assert!(Source::CallMe1.is_callme());
    assert!(Source::CallMe3.is_callme());
    assert!(!Source::Combo1.is_callme());
    assert!(!Source::VirtualB.is_callme());
}

#[test]
fn fader_index_roundtrips_per_model() {
    // Every wire index 0..=8 maps to exactly one strip on each model and back.
    for model in [DeviceModel::Pro2, DeviceModel::Duo] {
        for idx in 0..=8u8 {
            let f = Fader::from_index(model, idx).expect("strip at index");
            assert_eq!(f.to_index(model), Some(idx), "{model:?} idx {idx}");
        }
        // Index 9 (master channel) has no fader on either model.
        assert_eq!(Fader::from_index(model, 9), None);
    }
}

#[test]
fn fader_layout_differs_by_model() {
    // Pro II: 6 physical then 3 virtual.
    assert_eq!(Fader::Physical6.to_index(DeviceModel::Pro2), Some(5));
    assert_eq!(Fader::Virtual1.to_index(DeviceModel::Pro2), Some(6));
    assert_eq!(Fader::Virtual3.to_index(DeviceModel::Pro2), Some(8));
    // Pro II has no Virtual4/5.
    assert_eq!(Fader::Virtual4.to_index(DeviceModel::Pro2), None);
    assert_eq!(Fader::Virtual5.to_index(DeviceModel::Pro2), None);

    // Duo: 4 physical then 5 virtual.
    assert_eq!(Fader::Physical4.to_index(DeviceModel::Duo), Some(3));
    assert_eq!(Fader::Virtual1.to_index(DeviceModel::Duo), Some(4));
    assert_eq!(Fader::Virtual5.to_index(DeviceModel::Duo), Some(8));
    // Duo has no Physical5/6.
    assert_eq!(Fader::Physical5.to_index(DeviceModel::Duo), None);
    assert_eq!(Fader::Physical6.to_index(DeviceModel::Duo), None);
}

#[test]
fn fader_is_physical_per_model() {
    assert!(Fader::Physical6.is_physical(DeviceModel::Pro2));
    assert!(!Fader::Virtual1.is_physical(DeviceModel::Pro2));
    assert!(Fader::Physical4.is_physical(DeviceModel::Duo));
    // Physical5/6 don't exist on the Duo, so they aren't hardware faders there.
    assert!(!Fader::Physical5.is_physical(DeviceModel::Duo));
}

#[test]
fn display_roundtrips_through_fromstr() {
    // Each canonical display string parses back to the same variant.
    let sources = [
        Source::Combo1,
        Source::Combo3_4,
        Source::Bluetooth,
        Source::VirtualGame,
        Source::CallMe3,
    ];
    for s in sources {
        assert_eq!(s.to_string().parse::<Source>(), Ok(s));
    }
    let mixes = [MixOutput::Headphone1, MixOutput::Speaker, MixOutput::CallMe2];
    for m in mixes {
        assert_eq!(m.to_string().parse::<MixOutput>(), Ok(m));
    }
    let faders = [Fader::Physical1, Fader::Physical6, Fader::Virtual1, Fader::Virtual5];
    for fd in faders {
        assert_eq!(fd.to_string().parse::<Fader>(), Ok(fd));
    }
}

#[test]
fn fromstr_aliases() {
    assert_eq!("mic1".parse::<Source>(), Ok(Source::Combo1));
    assert_eq!("combo12".parse::<Source>(), Ok(Source::Combo1_2));
    assert_eq!("bt".parse::<Source>(), Ok(Source::Bluetooth));
    assert_eq!("hp3".parse::<MixOutput>(), Ok(MixOutput::Headphone3));
    assert_eq!("spk".parse::<MixOutput>(), Ok(MixOutput::Speaker));
    assert_eq!("p1".parse::<Fader>(), Ok(Fader::Physical1));
    assert_eq!("fader4".parse::<Fader>(), Ok(Fader::Physical4));
    assert_eq!("v5".parse::<Fader>(), Ok(Fader::Virtual5));
    assert!("nonsense".parse::<Source>().is_err());
}

/// The generated-enum surface (`from_known_name`, `is_known_name`,
/// `from_name`, `is_known`, `as_str`, `to_string`), exercised on a small
/// two-variant family.
#[test]
fn from_known_name_and_is_known() {
    assert_eq!(DuckerParam::from_known_name("duckerDepth"), Some(DuckerParam::Depth));
    assert_eq!(DuckerParam::from_known_name("unknownProp"), None);

    assert!(DuckerParam::is_known_name("duckerDepth"));
    assert!(!DuckerParam::is_known_name("unknownProp"));

    assert_eq!(DuckerParam::from_name("duckerDepth"), DuckerParam::Depth);
    assert_eq!(DuckerParam::from_name("unknownProp"), DuckerParam::Other("unknownProp".to_string()));
    assert!(DuckerParam::Depth.is_known());
    assert!(!DuckerParam::Other("unknownProp".to_string()).is_known());
    assert_eq!(DuckerParam::Depth.as_str(), "duckerDepth");
    assert_eq!(DuckerParam::Depth.to_string(), "duckerDepth");
}

#[test]
fn case_insensitive_parse_and_error_text() {
    assert_eq!("COMBO1".parse::<Source>(), Ok(Source::Combo1));
    assert_eq!("Virtual5".parse::<Fader>(), Ok(Fader::Virtual5));
    assert!("hp9".parse::<MixOutput>().is_err());
    assert!("p7".parse::<Fader>().is_err());
    assert_eq!(DeviceModel::Duo.to_string(), "RODECaster Duo");
}
