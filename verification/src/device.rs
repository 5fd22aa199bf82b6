//! The command catalog and the request/response validation of the command
//! client.
//!
//! Every logical operation is one request frame and one response frame over
//! the same command code. The client encodes the request, hands the bytes to
//! the transport, decodes the reply and checks that the reply's command code
//! matches the request before any payload is interpreted.

use vstd::prelude::*;
use vstd::utf8::{encode_utf8, valid_utf8};
use crate::error::EdifierError;
use crate::message::{EdifierMessage, frame_code, frame_len_ok, frame_payload};

verus! {

/// The text `String::from_utf8_lossy` reads out of a byte sequence. The exact
/// replacement of ill-formed sequences is the standard library's; it depends
/// on the bytes alone.
pub uninterp spec fn lossy_utf8_of(bytes: Seq<u8>) -> Seq<char>;

/// Relies on String::from_utf8_lossy: the result is a function of the bytes
/// alone, and valid UTF-8 input comes back unchanged.
#[verifier::external_body]
fn utf8_lossy(bytes: &Vec<u8>) -> (r: String)
    ensures
        r@ == lossy_utf8_of(bytes@),
        valid_utf8(bytes@) ==> encode_utf8(r@) == bytes@,
{
    String::from_utf8_lossy(bytes).to_string()
}

/// Reads a device name out of a getter's response payload: the payload bytes
/// as text, with any ill-formed UTF-8 replaced the way the platform string
/// conversion replaces it.
pub fn device_name_from_payload(payload: &Vec<u8>) -> (r: String)
    ensures
        r@ == lossy_utf8_of(payload@),
        valid_utf8(payload@) ==> encode_utf8(r@) == payload@,
{
    utf8_lossy(payload)
}

pub const CMD_GET_PROMPT_VOLUME: u8 = 0x05;

pub const CMD_SET_PROMPT_VOLUME: u8 = 0x06;

pub const CMD_RESET_FACTORY_DEFAULTS: u8 = 0x07;

pub const CMD_GET_GAME_MODE: u8 = 0x08;

pub const CMD_SET_GAME_MODE: u8 = 0x09;

pub const CMD_GET_LDAC_MODE: u8 = 0x48;

pub const CMD_SET_LDAC_MODE: u8 = 0x49;

pub const CMD_SET_NOISE_MODE: u8 = 0xC1;

pub const CMD_SET_EQUALIZER_PRESET: u8 = 0xC4;

pub const CMD_GET_FIRMWARE_VERSION: u8 = 0xC6;

pub const CMD_GET_MAC_ADDRESS: u8 = 0xC8;

pub const CMD_GET_NAME: u8 = 0xC9;

pub const CMD_SET_NAME: u8 = 0xCA;

pub const CMD_GET_NOISE_MODE: u8 = 0xCC;

pub const CMD_DISCONNECT_BLUETOOTH: u8 = 0xCD;

pub const CMD_POWER_OFF: u8 = 0xCE;

pub const CMD_RE_PAIR: u8 = 0xCF;

pub const CMD_GET_BATTERY_LEVEL: u8 = 0xD0;

pub const CMD_GET_EQUALIZER_PRESET: u8 = 0xD5;

pub const CMD_GET_FINGERPRINT: u8 = 0xD8;

pub const CMD_GET_BUTTON_CONTROL_SET: u8 = 0xF0;

pub const CMD_SET_BUTTON_CONTROL_SET: u8 = 0xF1;

/// Fixed sub-index byte that leads the payload of both button-control-set
/// operations.
pub const BUTTON_CONTROL_SUB_INDEX: u8 = 0x0A;

/// Documented upper bound of the prompt volume setting.
pub const MAX_PROMPT_VOLUME: u8 = 15;

/// Documented upper bound of the ambient sound volume setting.
pub const MAX_AMBIENT_VOLUME: u8 = 12;

/// Whether the accessory is currently playing audio.
#[derive(Debug, Clone, Copy, PartialEq, Eq, Structural)]
pub enum PlaybackStatus {
    Stopped,
    Playing,
}

impl PlaybackStatus {
    /// The wire byte of this status.
    pub open spec fn spec_repr(self) -> u8 {
        match self {
            PlaybackStatus::Stopped => 0x03,
            PlaybackStatus::Playing => 0x0D,
        }
    }

    /// The status a wire byte stands for, if any.
    pub open spec fn spec_from_repr(value: u8) -> Option<PlaybackStatus> {
        if value == 0x03 {
            Some(PlaybackStatus::Stopped)
        } else if value == 0x0D {
            Some(PlaybackStatus::Playing)
        } else {
            None
        }
    }

    pub fn as_repr(self) -> (r: u8)
        ensures
            r == self.spec_repr(),
    {
        match self {
            PlaybackStatus::Stopped => 0x03,
            PlaybackStatus::Playing => 0x0D,
        }
    }

    pub fn from_repr(value: u8) -> (r: Option<PlaybackStatus>)
        ensures
            r == Self::spec_from_repr(value),
    {
        if value == 0x03 {
            Some(PlaybackStatus::Stopped)
        } else if value == 0x0D {
            Some(PlaybackStatus::Playing)
        } else {
            None
        }
    }
}

/// Low-latency game mode.
#[derive(Debug, Clone, Copy, PartialEq, Eq, Structural)]
pub enum GameMode {
    Off,
    On,
}

impl GameMode {
    /// The wire byte of this mode.
    pub open spec fn spec_repr(self) -> u8 {
        match self {
            GameMode::Off => 0x00,
            GameMode::On => 0x01,
        }
    }

    /// The mode a wire byte stands for, if any.
    pub open spec fn spec_from_repr(value: u8) -> Option<GameMode> {
        if value == 0x00 {
            Some(GameMode::Off)
        } else if value == 0x01 {
            Some(GameMode::On)
        } else {
            None
        }
    }

    pub fn as_repr(self) -> (r: u8)
        ensures
            r == self.spec_repr(),
    {
        match self {
            GameMode::Off => 0x00,
            GameMode::On => 0x01,
        }
    }

    pub fn from_repr(value: u8) -> (r: Option<GameMode>)
        ensures
            r == Self::spec_from_repr(value),
    {
        if value == 0x00 {
            Some(GameMode::Off)
        } else if value == 0x01 {
            Some(GameMode::On)
        } else {
            None
        }
    }
}

/// LDAC codec sampling mode.
#[derive(Debug, Clone, Copy, PartialEq, Eq, Structural)]
pub enum LdacMode {
    Off,
    K48,
    K96,
}

impl LdacMode {
    /// The wire byte of this mode.
    pub open spec fn spec_repr(self) -> u8 {
        match self {
            LdacMode::Off => 0x00,
            LdacMode::K48 => 0x01,
            LdacMode::K96 => 0x02,
        }
    }

    /// The mode a wire byte stands for, if any.
    pub open spec fn spec_from_repr(value: u8) -> Option<LdacMode> {
        if value == 0x00 {
            Some(LdacMode::Off)
        } else if value == 0x01 {
            Some(LdacMode::K48)
        } else if value == 0x02 {
            Some(LdacMode::K96)
        } else {
            None
        }
    }

    pub fn as_repr(self) -> (r: u8)
        ensures
            r == self.spec_repr(),
    {
        match self {
            LdacMode::Off => 0x00,
            LdacMode::K48 => 0x01,
            LdacMode::K96 => 0x02,
        }
    }

    pub fn from_repr(value: u8) -> (r: Option<LdacMode>)
        ensures
            r == Self::spec_from_repr(value),
    {
        if value == 0x00 {
            Some(LdacMode::Off)
        } else if value == 0x01 {
            Some(LdacMode::K48)
        } else if value == 0x02 {
            Some(LdacMode::K96)
        } else {
            None
        }
    }
}

/// Equalizer preset slots of the accessory.
#[derive(Debug, Clone, Copy, PartialEq, Eq, Structural)]
pub enum EqualizerPreset {
    Default,
    Pop,
    Classical,
    Rock,
}

impl EqualizerPreset {
    /// The wire byte of this preset.
    pub open spec fn spec_repr(self) -> u8 {
        match self {
            EqualizerPreset::Default => 0x00,
            EqualizerPreset::Pop => 0x01,
            EqualizerPreset::Classical => 0x02,
            EqualizerPreset::Rock => 0x03,
        }
    }

    /// The preset a wire byte stands for, if any.
    pub open spec fn spec_from_repr(value: u8) -> Option<EqualizerPreset> {
        if value == 0x00 {
            Some(EqualizerPreset::Default)
        } else if value == 0x01 {
            Some(EqualizerPreset::Pop)
        } else if value == 0x02 {
            Some(EqualizerPreset::Classical)
        } else if value == 0x03 {
            Some(EqualizerPreset::Rock)
        } else {
            None
        }
    }

    pub fn as_repr(self) -> (r: u8)
        ensures
            r == self.spec_repr(),
    {
        match self {
            EqualizerPreset::Default => 0x00,
            EqualizerPreset::Pop => 0x01,
            EqualizerPreset::Classical => 0x02,
            EqualizerPreset::Rock => 0x03,
        }
    }

    pub fn from_repr(value: u8) -> (r: Option<EqualizerPreset>)
        ensures
            r == Self::spec_from_repr(value),
    {
        if value == 0x00 {
            Some(EqualizerPreset::Default)
        } else if value == 0x01 {
            Some(EqualizerPreset::Pop)
        } else if value == 0x02 {
            Some(EqualizerPreset::Classical)
        } else if value == 0x03 {
            Some(EqualizerPreset::Rock)
        } else {
            None
        }
    }
}

/// Noise cancellation states the accessory can be in.
#[derive(Debug, Clone, Copy, PartialEq, Eq, Hash, Structural)]
pub enum NoiseCancellationMode {
    Off,
    On,
    Ambient,
}

impl NoiseCancellationMode {
    /// The wire byte of this mode.
    pub open spec fn spec_repr(self) -> u8 {
        match self {
            NoiseCancellationMode::Off => 0x01,
            NoiseCancellationMode::On => 0x02,
            NoiseCancellationMode::Ambient => 0x03,
        }
    }

    /// The mode a wire byte stands for, if any.
    pub open spec fn spec_from_repr(value: u8) -> Option<NoiseCancellationMode> {
        if value == 0x01 {
            Some(NoiseCancellationMode::Off)
        } else if value == 0x02 {
            Some(NoiseCancellationMode::On)
        } else if value == 0x03 {
            Some(NoiseCancellationMode::Ambient)
        } else {
            None
        }
    }

    pub fn as_repr(self) -> (r: u8)
        ensures
            r == self.spec_repr(),
    {
        match self {
            NoiseCancellationMode::Off => 0x01,
            NoiseCancellationMode::On => 0x02,
            NoiseCancellationMode::Ambient => 0x03,
        }
    }

    pub fn from_repr(value: u8) -> (r: Option<NoiseCancellationMode>)
        ensures
            r == Self::spec_from_repr(value),
    {
        if value == 0x01 {
            Some(NoiseCancellationMode::Off)
        } else if value == 0x02 {
            Some(NoiseCancellationMode::On)
        } else if value == 0x03 {
            Some(NoiseCancellationMode::Ambient)
        } else {
            None
        }
    }
}

/// Which noise cancellation modes the accessory's button cycles through.
#[derive(Debug, Clone, Copy, PartialEq, Eq, Structural)]
pub enum ButtonControlSet {
    OnOff,
    OnAmbient,
    OffAmbient,
    All,
}

/// A list of modes selects a button control set only when it holds at least
/// two distinct modes.
pub open spec fn spec_valid_button_modes(s: Seq<NoiseCancellationMode>) -> bool {
    ||| s.contains(NoiseCancellationMode::On) && s.contains(NoiseCancellationMode::Off)
    ||| s.contains(NoiseCancellationMode::On) && s.contains(NoiseCancellationMode::Ambient)
    ||| s.contains(NoiseCancellationMode::Off) && s.contains(NoiseCancellationMode::Ambient)
}

/// The control set selected by a list of modes, by the same cascade the
/// accessory's catalog uses: all three first, then each pair.
pub open spec fn spec_button_set_from(s: Seq<NoiseCancellationMode>) -> ButtonControlSet {
    if s.contains(NoiseCancellationMode::On) && s.contains(NoiseCancellationMode::Off)
        && s.contains(NoiseCancellationMode::Ambient) {
        ButtonControlSet::All
    } else if s.contains(NoiseCancellationMode::On) && s.contains(NoiseCancellationMode::Off) {
        ButtonControlSet::OnOff
    } else if s.contains(NoiseCancellationMode::On) && s.contains(NoiseCancellationMode::Ambient) {
        ButtonControlSet::OnAmbient
    } else {
        ButtonControlSet::OffAmbient
    }
}

/// Whether a list of modes mentions `mode`.
pub fn modes_contain(modes: &Vec<NoiseCancellationMode>, mode: NoiseCancellationMode) -> (r: bool)
    ensures
        r == modes@.contains(mode),
{
    let mut i: usize = 0;
    while i < modes.len()
        invariant
            i <= modes@.len(),
            forall|j: int| 0 <= j < i ==> modes@[j] != mode,
        decreases modes@.len() - i,
    {
        if modes[i] == mode {
            return true;
        }
        i = i + 1;
    }
    false
}

impl ButtonControlSet {
    /// The wire byte of this control set.
    pub open spec fn spec_repr(self) -> u8 {
        match self {
            ButtonControlSet::OnOff => 0x03,
            ButtonControlSet::OnAmbient => 0x06,
            ButtonControlSet::OffAmbient => 0x05,
            ButtonControlSet::All => 0x07,
        }
    }

    /// The control set a wire byte stands for, if any.
    pub open spec fn spec_from_repr(value: u8) -> Option<ButtonControlSet> {
        if value == 0x03 {
            Some(ButtonControlSet::OnOff)
        } else if value == 0x06 {
            Some(ButtonControlSet::OnAmbient)
        } else if value == 0x05 {
            Some(ButtonControlSet::OffAmbient)
        } else if value == 0x07 {
            Some(ButtonControlSet::All)
        } else {
            None
        }
    }

    /// The modes this control set cycles through, in catalog order.
    pub open spec fn spec_modes(self) -> Seq<NoiseCancellationMode> {
        match self {
            ButtonControlSet::OnOff => seq![
                NoiseCancellationMode::On,
                NoiseCancellationMode::Off,
            ],
            ButtonControlSet::OnAmbient => seq![
                NoiseCancellationMode::On,
                NoiseCancellationMode::Ambient,
            ],
            ButtonControlSet::OffAmbient => seq![
                NoiseCancellationMode::Ambient,
                NoiseCancellationMode::Off,
            ],
            ButtonControlSet::All => seq![
                NoiseCancellationMode::On,
                NoiseCancellationMode::Off,
                NoiseCancellationMode::Ambient,
            ],
        }
    }

    pub fn as_repr(self) -> (r: u8)
        ensures
            r == self.spec_repr(),
    {
        match self {
            ButtonControlSet::OnOff => 0x03,
            ButtonControlSet::OnAmbient => 0x06,
            ButtonControlSet::OffAmbient => 0x05,
            ButtonControlSet::All => 0x07,
        }
    }

    pub fn from_repr(value: u8) -> (r: Option<ButtonControlSet>)
        ensures
            r == Self::spec_from_repr(value),
    {
        if value == 0x03 {
            Some(ButtonControlSet::OnOff)
        } else if value == 0x06 {
            Some(ButtonControlSet::OnAmbient)
        } else if value == 0x05 {
            Some(ButtonControlSet::OffAmbient)
        } else if value == 0x07 {
            Some(ButtonControlSet::All)
        } else {
            None
        }
    }

    /// The control set selected by a list of modes. A list with fewer than two
    /// distinct modes selects none, so it is left out here.
    pub fn from(set: &Vec<NoiseCancellationMode>) -> (r: ButtonControlSet)
        requires
            spec_valid_button_modes(set@),
        ensures
            r == spec_button_set_from(set@),
    {
        let has_on = modes_contain(set, NoiseCancellationMode::On);
        let has_off = modes_contain(set, NoiseCancellationMode::Off);
        let has_ambient = modes_contain(set, NoiseCancellationMode::Ambient);
        if has_on && has_off && has_ambient {
            ButtonControlSet::All
        } else if has_on && has_off {
            ButtonControlSet::OnOff
        } else if has_on && has_ambient {
            ButtonControlSet::OnAmbient
        } else {
            ButtonControlSet::OffAmbient
        }
    }

    /// The modes this control set cycles through.
    pub fn into(self) -> (r: Vec<NoiseCancellationMode>)
        ensures
            r@ == self.spec_modes(),
    {
        let mut r: Vec<NoiseCancellationMode> = Vec::new();
        match self {
            ButtonControlSet::OnOff => {
                r.push(NoiseCancellationMode::On);
                r.push(NoiseCancellationMode::Off);
            },
            ButtonControlSet::OnAmbient => {
                r.push(NoiseCancellationMode::On);
                r.push(NoiseCancellationMode::Ambient);
            },
            ButtonControlSet::OffAmbient => {
                r.push(NoiseCancellationMode::Ambient);
                r.push(NoiseCancellationMode::Off);
            },
            ButtonControlSet::All => {
                r.push(NoiseCancellationMode::On);
                r.push(NoiseCancellationMode::Off);
                r.push(NoiseCancellationMode::Ambient);
            },
        }
        proof {
            assert(r@ =~= self.spec_modes());
        }
        r
    }
}

/// Accepts a decoded response only when its command code matches the request:
/// anything else is a desynchronized exchange.
pub fn check_response(request_code: u8, response: &EdifierMessage) -> (r: Result<
    (),
    EdifierError,
>)
    requires
        response@.len() >= 3,
    ensures
        frame_code(response@) == request_code <==> r is Ok,
        frame_code(response@) != request_code ==> r == Err::<(), _>(
            EdifierError::ProtocolMismatch(request_code, frame_code(response@)),
        ),
{
    let actual = response.command_code();
    if actual != request_code {
        Err(EdifierError::ProtocolMismatch(request_code, actual))
    } else {
        Ok(())
    }
}

/// Turns the raw bytes a transport read into the validated response of one
/// request: the buffer must parse as a frame and answer the same command code.
pub fn parse_response(request_code: u8, raw: Vec<u8>) -> (r: Result<
    EdifierMessage,
    EdifierError,
>)
    ensures
        !frame_len_ok(raw@) ==> r == Err::<EdifierMessage, _>(EdifierError::MalformedFrame),
        frame_len_ok(raw@) && frame_code(raw@) != request_code ==> r == Err::<EdifierMessage, _>(
            EdifierError::ProtocolMismatch(request_code, frame_code(raw@)),
        ),
        frame_len_ok(raw@) && frame_code(raw@) == request_code ==> (r matches Ok(m) && m@
            == raw@),
{
    let response = match EdifierMessage::decode(raw) {
        Ok(m) => m,
        Err(e) => {
            return Err(e);
        },
    };
    match check_response(request_code, &response) {
        Ok(()) => Ok(response),
        Err(e) => Err(e),
    }
}

/// The payload a getter's response must carry: an empty payload region is a
/// protocol error, never silently returned as data.
pub fn getter_payload(response: &EdifierMessage) -> (r: Result<Vec<u8>, EdifierError>)
    requires
        response@.len() >= 5,
    ensures
        frame_payload(response@).len() == 0 ==> r == Err::<Vec<u8>, _>(EdifierError::EmptyPayload),
        frame_payload(response@).len() > 0 ==> (r matches Ok(p) && p@ == frame_payload(
            response@,
        )),
{
    match response.payload() {
        Some(p) => Ok(p),
        None => Err(EdifierError::EmptyPayload),
    }
}

} // verus!
