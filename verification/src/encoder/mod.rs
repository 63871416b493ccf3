//! Encoders: their configuration, its wire form, its backup, and the MIDI
//! messages a turn sends.
use vstd::prelude::*;
use crate::channel::ChannelOrAll;
use crate::global::spec_flag;
use crate::global::flag;

pub mod backup;
pub mod handler;
pub mod parser;
pub mod renderer;

verus! {

/// What an encoder counts between steps.
#[derive(Debug, Copy, Clone, PartialEq, Eq, Structural)]
pub struct EncoderState {
    /// Pulses seen since the last step.
    pub pulse_count: u8,
}

#[derive(Debug, Copy, Clone, PartialEq, Eq, Structural)]
pub struct Encoder {
    pub enabled: bool,
    pub inverted: bool,
    pub message_type: EncoderMessageType,
    pub midi_id: u16,
    pub channel: ChannelOrAll,
    pub pulses_per_step: u8,
    pub accelleration: Accelleration,
    pub remote_sync: bool,
    pub upper_limit: u16,
    pub lower_limit: u16,
    pub value: u16,
    pub second_midi_id: u16,
    pub state: EncoderState,
}

impl Encoder {
    pub open spec fn spec_new(midi_id: u16) -> Encoder {
        Encoder {
            enabled: false,
            inverted: false,
            message_type: EncoderMessageType::ControlChange7Fh01h,
            midi_id,
            channel: ChannelOrAll::Channel(0),
            pulses_per_step: 4,
            accelleration: Accelleration::Off,
            remote_sync: false,
            upper_limit: 127,
            lower_limit: 0,
            value: 0,
            second_midi_id: 0,
            state: EncoderState { pulse_count: 0 },
        }
    }

    /// The configuration after setting one section; the high half of the MIDI id
    /// is not stored.
    pub open spec fn spec_set(self, section: EncoderSection) -> Encoder {
        match section {
            EncoderSection::MessageType(v) => Encoder { message_type: v, ..self },
            EncoderSection::Channel(v) => Encoder { channel: v, ..self },
            EncoderSection::Enabled(v) => Encoder { enabled: v, ..self },
            EncoderSection::MidiIdLSB(v) => Encoder { midi_id: v, ..self },
            EncoderSection::Inverted(v) => Encoder { inverted: v, ..self },
            EncoderSection::PulsesPerStep(v) => Encoder { pulses_per_step: v, ..self },
            EncoderSection::RemoteSync(v) => Encoder { remote_sync: v, ..self },
            EncoderSection::Accelleration(v) => Encoder { accelleration: v, ..self },
            EncoderSection::LowerLimit(v) => Encoder { lower_limit: v, ..self },
            EncoderSection::UpperLimit(v) => Encoder { upper_limit: v, ..self },
            EncoderSection::SecondMidiId(v) => Encoder { second_midi_id: v, ..self },
            EncoderSection::RepeatedValue(v) => Encoder { value: v, ..self },
            EncoderSection::MidiIdMSB(_) => self,
        }
    }

    /// The wire value of the section that `section` names (its payload is ignored).
    pub open spec fn spec_get(self, section: EncoderSection) -> u16 {
        match section {
            EncoderSection::MessageType(_) => self.message_type.spec_code(),
            EncoderSection::Channel(_) => self.channel.spec_to_wire(),
            EncoderSection::Enabled(_) => spec_flag(self.enabled),
            EncoderSection::MidiIdLSB(_) => self.midi_id,
            EncoderSection::Inverted(_) => spec_flag(self.inverted),
            EncoderSection::PulsesPerStep(_) => self.pulses_per_step as u16,
            EncoderSection::RemoteSync(_) => spec_flag(self.remote_sync),
            EncoderSection::Accelleration(_) => self.accelleration.spec_code(),
            EncoderSection::LowerLimit(_) => self.lower_limit,
            EncoderSection::UpperLimit(_) => self.upper_limit,
            EncoderSection::SecondMidiId(_) => self.second_midi_id,
            EncoderSection::RepeatedValue(_) => self.value,
            EncoderSection::MidiIdMSB(_) => 0,
        }
    }

    pub fn new(midi_id: u16) -> (r: Self)
        ensures r == Self::spec_new(midi_id),
    {
        Encoder {
            enabled: false,
            inverted: false,
            message_type: EncoderMessageType::ControlChange7Fh01h,
            midi_id,
            channel: ChannelOrAll::Channel(0),
            pulses_per_step: 4,
            accelleration: Accelleration::Off,
            remote_sync: false,
            upper_limit: 127,
            lower_limit: 0,
            value: 0,
            second_midi_id: 0,
            state: EncoderState { pulse_count: 0 },
        }
    }

    pub fn set(&mut self, section: EncoderSection)
        ensures *final(self) == old(self).spec_set(section),
    {
        match section {
            EncoderSection::MessageType(v) => self.message_type = v,
            EncoderSection::Channel(v) => self.channel = v,
            EncoderSection::Enabled(v) => self.enabled = v,
            EncoderSection::MidiIdLSB(v) => self.midi_id = v,
            EncoderSection::Inverted(v) => self.inverted = v,
            EncoderSection::PulsesPerStep(v) => self.pulses_per_step = v,
            EncoderSection::RemoteSync(v) => self.remote_sync = v,
            EncoderSection::Accelleration(v) => self.accelleration = v,
            EncoderSection::LowerLimit(v) => self.lower_limit = v,
            EncoderSection::UpperLimit(v) => self.upper_limit = v,
            EncoderSection::SecondMidiId(v) => self.second_midi_id = v,
            EncoderSection::RepeatedValue(v) => self.value = v,
            EncoderSection::MidiIdMSB(_) => {},
        }
    }

    pub fn get(&self, section: EncoderSection) -> (r: u16)
        ensures r == self.spec_get(section),
    {
        match section {
            EncoderSection::MessageType(_) => self.message_type.code(),
            EncoderSection::Channel(_) => self.channel.to_wire(),
            EncoderSection::Enabled(_) => flag(self.enabled),
            EncoderSection::MidiIdLSB(_) => self.midi_id,
            EncoderSection::Inverted(_) => flag(self.inverted),
            EncoderSection::PulsesPerStep(_) => self.pulses_per_step as u16,
            EncoderSection::RemoteSync(_) => flag(self.remote_sync),
            EncoderSection::Accelleration(_) => self.accelleration.code(),
            EncoderSection::LowerLimit(_) => self.lower_limit,
            EncoderSection::UpperLimit(_) => self.upper_limit,
            EncoderSection::SecondMidiId(_) => self.second_midi_id,
            EncoderSection::RepeatedValue(_) => self.value,
            EncoderSection::MidiIdMSB(_) => 0,
        }
    }
}

impl Default for Encoder {
    fn default() -> (r: Self)
        ensures r == Encoder::spec_new(0),
    {
        Encoder::new(0)
    }
}

/// What an encoder sends when it turns.
#[derive(Debug, Copy, Clone, PartialEq, Eq, Structural)]
pub enum EncoderMessageType {
    ControlChange7Fh01h,
    ControlChange3Fh41h,
    ProgramChange,
    ControlChange,
    PresetChange,
    PitchBend,
    NRPN7,
    NRPN14,
    ControlChange14bit,
    ControlChange41h01h,
    BPM,
    SingleNoteWithVariableValue,
    SingleNoteWithFixedValueBothDirections,
    SingleNoteWithFixedValueOneDirection0OtherDirection,
    TwoNoteWithFixedValueBothDirections,
}

impl EncoderMessageType {
    pub open spec fn spec_code(self) -> u16 {
        match self {
            EncoderMessageType::ControlChange7Fh01h => 0x0,
            EncoderMessageType::ControlChange3Fh41h => 0x1,
            EncoderMessageType::ProgramChange => 0x2,
            EncoderMessageType::ControlChange => 0x3,
            EncoderMessageType::PresetChange => 0x4,
            EncoderMessageType::PitchBend => 0x5,
            EncoderMessageType::NRPN7 => 0x6,
            EncoderMessageType::NRPN14 => 0x7,
            EncoderMessageType::ControlChange14bit => 0x8,
            EncoderMessageType::ControlChange41h01h => 0x9,
            EncoderMessageType::BPM => 0xA,
            EncoderMessageType::SingleNoteWithVariableValue => 0xB,
            EncoderMessageType::SingleNoteWithFixedValueBothDirections => 0xC,
            EncoderMessageType::SingleNoteWithFixedValueOneDirection0OtherDirection => 0xD,
            EncoderMessageType::TwoNoteWithFixedValueBothDirections => 0xE,
        }
    }

    pub open spec fn spec_from_code(v: u16) -> Option<EncoderMessageType> {
        if v == 0x0 { Some(EncoderMessageType::ControlChange7Fh01h) }
        else if v == 0x1 { Some(EncoderMessageType::ControlChange3Fh41h) }
        else if v == 0x2 { Some(EncoderMessageType::ProgramChange) }
        else if v == 0x3 { Some(EncoderMessageType::ControlChange) }
        else if v == 0x4 { Some(EncoderMessageType::PresetChange) }
        else if v == 0x5 { Some(EncoderMessageType::PitchBend) }
        else if v == 0x6 { Some(EncoderMessageType::NRPN7) }
        else if v == 0x7 { Some(EncoderMessageType::NRPN14) }
        else if v == 0x8 { Some(EncoderMessageType::ControlChange14bit) }
        else if v == 0x9 { Some(EncoderMessageType::ControlChange41h01h) }
        else if v == 0xA { Some(EncoderMessageType::BPM) }
        else if v == 0xB { Some(EncoderMessageType::SingleNoteWithVariableValue) }
        else if v == 0xC { Some(EncoderMessageType::SingleNoteWithFixedValueBothDirections) }
        else if v == 0xD { Some(EncoderMessageType::SingleNoteWithFixedValueOneDirection0OtherDirection) }
        else if v == 0xE { Some(EncoderMessageType::TwoNoteWithFixedValueBothDirections) }
        else { None }
    }

    pub fn code(self) -> (r: u16)
        ensures r == self.spec_code(),
    {
        match self {
            EncoderMessageType::ControlChange7Fh01h => 0x0,
            EncoderMessageType::ControlChange3Fh41h => 0x1,
            EncoderMessageType::ProgramChange => 0x2,
            EncoderMessageType::ControlChange => 0x3,
            EncoderMessageType::PresetChange => 0x4,
            EncoderMessageType::PitchBend => 0x5,
            EncoderMessageType::NRPN7 => 0x6,
            EncoderMessageType::NRPN14 => 0x7,
            EncoderMessageType::ControlChange14bit => 0x8,
            EncoderMessageType::ControlChange41h01h => 0x9,
            EncoderMessageType::BPM => 0xA,
            EncoderMessageType::SingleNoteWithVariableValue => 0xB,
            EncoderMessageType::SingleNoteWithFixedValueBothDirections => 0xC,
            EncoderMessageType::SingleNoteWithFixedValueOneDirection0OtherDirection => 0xD,
            EncoderMessageType::TwoNoteWithFixedValueBothDirections => 0xE,
        }
    }

    pub fn from_code(v: u16) -> (r: Option<EncoderMessageType>)
        ensures r == Self::spec_from_code(v),
    {
        if v == 0x0 { Some(EncoderMessageType::ControlChange7Fh01h) }
        else if v == 0x1 { Some(EncoderMessageType::ControlChange3Fh41h) }
        else if v == 0x2 { Some(EncoderMessageType::ProgramChange) }
        else if v == 0x3 { Some(EncoderMessageType::ControlChange) }
        else if v == 0x4 { Some(EncoderMessageType::PresetChange) }
        else if v == 0x5 { Some(EncoderMessageType::PitchBend) }
        else if v == 0x6 { Some(EncoderMessageType::NRPN7) }
        else if v == 0x7 { Some(EncoderMessageType::NRPN14) }
        else if v == 0x8 { Some(EncoderMessageType::ControlChange14bit) }
        else if v == 0x9 { Some(EncoderMessageType::ControlChange41h01h) }
        else if v == 0xA { Some(EncoderMessageType::BPM) }
        else if v == 0xB { Some(EncoderMessageType::SingleNoteWithVariableValue) }
        else if v == 0xC { Some(EncoderMessageType::SingleNoteWithFixedValueBothDirections) }
        else if v == 0xD { Some(EncoderMessageType::SingleNoteWithFixedValueOneDirection0OtherDirection) }
        else if v == 0xE { Some(EncoderMessageType::TwoNoteWithFixedValueBothDirections) }
        else { None }
    }
}

impl Default for EncoderMessageType {
    fn default() -> (r: Self)
        ensures r == EncoderMessageType::ControlChange7Fh01h,
    {
        EncoderMessageType::ControlChange7Fh01h
    }
}

/// How fast the value of an encoder speeds up.
#[derive(Debug, Copy, Clone, PartialEq, Eq, Structural)]
pub enum Accelleration {
    Off,
    Slow,
    Medium,
    Fast,
}

impl Accelleration {
    pub open spec fn spec_code(self) -> u16 {
        match self {
            Accelleration::Off => 0,
            Accelleration::Slow => 1,
            Accelleration::Medium => 2,
            Accelleration::Fast => 3,
        }
    }

    pub open spec fn spec_from_code(v: u16) -> Option<Accelleration> {
        if v == 0 { Some(Accelleration::Off) }
        else if v == 1 { Some(Accelleration::Slow) }
        else if v == 2 { Some(Accelleration::Medium) }
        else if v == 3 { Some(Accelleration::Fast) }
        else { None }
    }

    pub fn code(self) -> (r: u16)
        ensures r == self.spec_code(),
    {
        match self {
            Accelleration::Off => 0,
            Accelleration::Slow => 1,
            Accelleration::Medium => 2,
            Accelleration::Fast => 3,
        }
    }

    pub fn from_code(v: u16) -> (r: Option<Accelleration>)
        ensures r == Self::spec_from_code(v),
    {
        if v == 0 { Some(Accelleration::Off) }
        else if v == 1 { Some(Accelleration::Slow) }
        else if v == 2 { Some(Accelleration::Medium) }
        else if v == 3 { Some(Accelleration::Fast) }
        else { None }
    }
}

impl Default for Accelleration {
    fn default() -> (r: Self)
        ensures r == Accelleration::Off,
    {
        Accelleration::Off
    }
}

/// Section identifiers of the encoder block.
pub const ENCODER_SECTION_ENABLED: u8 = 0x0;
pub const ENCODER_SECTION_INVERT_STATE: u8 = 0x1;
pub const ENCODER_SECTION_MESSAGE_TYPE: u8 = 0x2;
pub const ENCODER_SECTION_MIDI_ID_LSB: u8 = 0x3;
pub const ENCODER_SECTION_CHANNEL: u8 = 0x4;
pub const ENCODER_SECTION_PULSES_PER_STEP: u8 = 0x5;
pub const ENCODER_SECTION_ACCELLERATION: u8 = 0x6;
/// Only used by the one byte protocol.
pub const ENCODER_SECTION_MIDI_ID_MSB: u8 = 0x7;
pub const ENCODER_SECTION_REMOTE_SYNC: u8 = 0x8;
pub const ENCODER_SECTION_LOWER_LIMIT: u8 = 0x9;
pub const ENCODER_SECTION_UPPER_LIMIT: u8 = 0xA;
pub const ENCODER_SECTION_REPEATED_VALUE: u8 = 0xB;
pub const ENCODER_SECTION_SECOND_MIDI_ID: u8 = 0xC;

#[derive(Debug, Copy, Clone, PartialEq, Eq, Structural)]
pub enum EncoderSection {
    Enabled(bool),
    Inverted(bool),
    MessageType(EncoderMessageType),
    MidiIdLSB(u16),
    Channel(ChannelOrAll),
    PulsesPerStep(u8),
    Accelleration(Accelleration),
    MidiIdMSB(u8),
    RemoteSync(bool),
    LowerLimit(u16),
    UpperLimit(u16),
    RepeatedValue(u16),
    SecondMidiId(u16),
}


impl From<EncoderMessageType> for u16 {
    fn from(v: EncoderMessageType) -> (r: u16) {
        v.code()
    }
}

impl vstd::std_specs::convert::FromSpecImpl<EncoderMessageType> for u16 {
    open spec fn obeys_from_spec() -> bool {
        true
    }

    open spec fn from_spec(v: EncoderMessageType) -> u16 {
        v.spec_code()
    }
}

impl TryFrom<u16> for EncoderMessageType {
    type Error = u16;

    /// The variant with code `v`, or `v` back when there is none.
    fn try_from(v: u16) -> (r: Result<EncoderMessageType, u16>) {
        match EncoderMessageType::from_code(v) {
            Some(x) => Ok(x),
            None => Err(v),
        }
    }
}

impl vstd::std_specs::convert::TryFromSpecImpl<u16> for EncoderMessageType {
    open spec fn obeys_try_from_spec() -> bool {
        true
    }

    open spec fn try_from_spec(v: u16) -> Result<EncoderMessageType, u16> {
        match EncoderMessageType::spec_from_code(v) {
            Some(x) => Ok(x),
            None => Err(v),
        }
    }
}

impl From<Accelleration> for u16 {
    fn from(v: Accelleration) -> (r: u16) {
        v.code()
    }
}

impl vstd::std_specs::convert::FromSpecImpl<Accelleration> for u16 {
    open spec fn obeys_from_spec() -> bool {
        true
    }

    open spec fn from_spec(v: Accelleration) -> u16 {
        v.spec_code()
    }
}

impl TryFrom<u16> for Accelleration {
    type Error = u16;

    /// The variant with code `v`, or `v` back when there is none.
    fn try_from(v: u16) -> (r: Result<Accelleration, u16>) {
        match Accelleration::from_code(v) {
            Some(x) => Ok(x),
            None => Err(v),
        }
    }
}

impl vstd::std_specs::convert::TryFromSpecImpl<u16> for Accelleration {
    open spec fn obeys_try_from_spec() -> bool {
        true
    }

    open spec fn try_from_spec(v: u16) -> Result<Accelleration, u16> {
        match Accelleration::spec_from_code(v) {
            Some(x) => Ok(x),
            None => Err(v),
        }
    }
}

} // verus!
