use edifier::device::ButtonControlSet::{All, OffAmbient, OnAmbient, OnOff};
use edifier::device::NoiseCancellationMode::{Ambient, Off, On};
use edifier::device::{
    check_response, device_name_from_payload, getter_payload, parse_response, ButtonControlSet,
    EqualizerPreset, GameMode, LdacMode, NoiseCancellationMode, PlaybackStatus,
    CMD_GET_BATTERY_LEVEL, CMD_GET_NAME, CMD_POWER_OFF,
};
use edifier::error::EdifierError;
use edifier::message::EdifierMessage;

#[test]
fn test_button_control_set_from_noise_mode() {
    assert_eq!(OnOff, ButtonControlSet::from(&vec![On, Off]));
    assert_eq!(OnOff, ButtonControlSet::from(&vec![Off, On]));
    assert_eq!(OnAmbient, ButtonControlSet::from(&vec![On, Ambient]));
    assert_eq!(OffAmbient, ButtonControlSet::from(&vec![Ambient, Off]));
    assert_eq!(All, ButtonControlSet::from(&vec![On, Off, Ambient]));
}

#[test]
fn test_button_control_set_into_noise_mode() {
    let mut v: Vec<NoiseCancellationMode> = OnOff.into();
    assert_eq!(vec![On, Off], v);

    v = OnAmbient.into();
    assert_eq!(vec![On, Ambient], v);

    v = OffAmbient.into();
    assert_eq!(vec![Ambient, Off], v);

    v = All.into();
    assert_eq!(vec![On, Off, Ambient], v);
}

#[test]
fn test_mismatched_response_code_is_rejected() {
    // a request for the device name answered by a power-off echo
    let response = EdifierMessage::new(0xCE, None);
    let checked = check_response(0xC9, &response);
    assert_eq!(checked, Err(EdifierError::ProtocolMismatch(0xC9, 0xCE)));

    let parsed = parse_response(0xC9, response.as_slice().to_vec());
    assert_eq!(parsed, Err(EdifierError::ProtocolMismatch(0xC9, 0xCE)));
}

#[test]
fn test_matching_response_code_is_accepted() {
    let response = EdifierMessage::new(CMD_GET_NAME, Some(b"X".as_slice()));
    assert_eq!(check_response(CMD_GET_NAME, &response), Ok(()));
    let parsed = parse_response(CMD_GET_NAME, response.as_slice().to_vec()).unwrap();
    assert_eq!(parsed.as_slice(), response.as_slice());
}

#[test]
fn test_parse_response_rejects_malformed_reply() {
    assert_eq!(
        parse_response(CMD_GET_NAME, vec![0xAA, 0x01]),
        Err(EdifierError::MalformedFrame)
    );
}

#[test]
fn test_getter_with_empty_payload_fails() {
    // length == 1: no payload at all in the reply
    let response = EdifierMessage::new(CMD_GET_BATTERY_LEVEL, None);
    assert_eq!(getter_payload(&response), Err(EdifierError::EmptyPayload));
}

#[test]
fn test_getter_with_payload_returns_it() {
    let response = EdifierMessage::new(CMD_GET_BATTERY_LEVEL, Some(&[85u8]));
    assert_eq!(getter_payload(&response), Ok(vec![85u8]));
}

#[test]
fn test_device_name_from_payload_utf8() {
    assert_eq!(
        device_name_from_payload(&b"SOME DEVICE".to_vec()),
        "SOME DEVICE".to_string()
    );
}

#[test]
fn test_device_name_from_payload_replaces_invalid_bytes() {
    assert_eq!(
        device_name_from_payload(&vec![0x41, 0xFF, 0x42]),
        "A\u{FFFD}B".to_string()
    );
}

#[test]
fn test_playback_status_reprs() {
    assert_eq!(PlaybackStatus::Stopped.as_repr(), 0x03);
    assert_eq!(PlaybackStatus::Playing.as_repr(), 0x0D);
    assert_eq!(PlaybackStatus::from_repr(0x03), Some(PlaybackStatus::Stopped));
    assert_eq!(PlaybackStatus::from_repr(0x0D), Some(PlaybackStatus::Playing));
    assert_eq!(PlaybackStatus::from_repr(0x00), None);
}

#[test]
fn test_game_mode_reprs() {
    assert_eq!(GameMode::Off.as_repr(), 0x00);
    assert_eq!(GameMode::On.as_repr(), 0x01);
    assert_eq!(GameMode::from_repr(0x00), Some(GameMode::Off));
    assert_eq!(GameMode::from_repr(0x01), Some(GameMode::On));
    assert_eq!(GameMode::from_repr(0x02), None);
}

#[test]
fn test_ldac_mode_reprs() {
    assert_eq!(LdacMode::Off.as_repr(), 0x00);
    assert_eq!(LdacMode::K48.as_repr(), 0x01);
    assert_eq!(LdacMode::K96.as_repr(), 0x02);
    assert_eq!(LdacMode::from_repr(0x00), Some(LdacMode::Off));
    assert_eq!(LdacMode::from_repr(0x01), Some(LdacMode::K48));
    assert_eq!(LdacMode::from_repr(0x02), Some(LdacMode::K96));
    assert_eq!(LdacMode::from_repr(0x03), None);
}

#[test]
fn test_equalizer_preset_reprs() {
    assert_eq!(EqualizerPreset::Default.as_repr(), 0x00);
    assert_eq!(EqualizerPreset::Pop.as_repr(), 0x01);
    assert_eq!(EqualizerPreset::Classical.as_repr(), 0x02);
    assert_eq!(EqualizerPreset::Rock.as_repr(), 0x03);
    assert_eq!(EqualizerPreset::from_repr(0x02), Some(EqualizerPreset::Classical));
    assert_eq!(EqualizerPreset::from_repr(0x04), None);
}

#[test]
fn test_noise_mode_reprs() {
    assert_eq!(On.as_repr(), 0x02);
    assert_eq!(Off.as_repr(), 0x01);
    assert_eq!(Ambient.as_repr(), 0x03);
    assert_eq!(NoiseCancellationMode::from_repr(0x01), Some(Off));
    assert_eq!(NoiseCancellationMode::from_repr(0x02), Some(On));
    assert_eq!(NoiseCancellationMode::from_repr(0x03), Some(Ambient));
    assert_eq!(NoiseCancellationMode::from_repr(0x00), None);
}

#[test]
fn test_button_control_set_reprs() {
    assert_eq!(ButtonControlSet::OnOff.as_repr(), 0x03);
    assert_eq!(ButtonControlSet::OnAmbient.as_repr(), 0x06);
    assert_eq!(ButtonControlSet::OffAmbient.as_repr(), 0x05);
    assert_eq!(ButtonControlSet::All.as_repr(), 0x07);
    assert_eq!(ButtonControlSet::from_repr(0x07), Some(ButtonControlSet::All));
    assert_eq!(ButtonControlSet::from_repr(0x04), None);
}

#[test]
fn test_command_codes_match_catalog() {
    assert_eq!(edifier::device::CMD_GET_PROMPT_VOLUME, 0x05);
    assert_eq!(edifier::device::CMD_SET_PROMPT_VOLUME, 0x06);
    assert_eq!(edifier::device::CMD_RESET_FACTORY_DEFAULTS, 0x07);
    assert_eq!(edifier::device::CMD_GET_GAME_MODE, 0x08);
    assert_eq!(edifier::device::CMD_SET_GAME_MODE, 0x09);
    assert_eq!(edifier::device::CMD_GET_LDAC_MODE, 0x48);
    assert_eq!(edifier::device::CMD_SET_LDAC_MODE, 0x49);
    assert_eq!(edifier::device::CMD_SET_NOISE_MODE, 0xC1);
    assert_eq!(edifier::device::CMD_SET_EQUALIZER_PRESET, 0xC4);
    assert_eq!(edifier::device::CMD_GET_FIRMWARE_VERSION, 0xC6);
    assert_eq!(edifier::device::CMD_GET_MAC_ADDRESS, 0xC8);
    assert_eq!(edifier::device::CMD_GET_NAME, 0xC9);
    assert_eq!(edifier::device::CMD_SET_NAME, 0xCA);
    assert_eq!(edifier::device::CMD_GET_NOISE_MODE, 0xCC);
    assert_eq!(edifier::device::CMD_DISCONNECT_BLUETOOTH, 0xCD);
    assert_eq!(CMD_POWER_OFF, 0xCE);
    assert_eq!(edifier::device::CMD_RE_PAIR, 0xCF);
    assert_eq!(edifier::device::CMD_GET_BATTERY_LEVEL, 0xD0);
    assert_eq!(edifier::device::CMD_GET_EQUALIZER_PRESET, 0xD5);
    assert_eq!(edifier::device::CMD_GET_FINGERPRINT, 0xD8);
    assert_eq!(edifier::device::CMD_GET_BUTTON_CONTROL_SET, 0xF0);
    assert_eq!(edifier::device::CMD_SET_BUTTON_CONTROL_SET, 0xF1);
    assert_eq!(edifier::device::BUTTON_CONTROL_SUB_INDEX, 0x0A);
}
