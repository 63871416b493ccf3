//! Analog inputs: their configuration, its wire form, its backup, and the
//! MIDI messages a new reading sends.
use vstd::prelude::*;
use crate::channel::ChannelOrAll;
use crate::global::{flag, spec_flag};

pub mod backup;
pub mod handler;
pub mod parser;
pub mod renderer;

verus! {

/// Largest reading of a 12 bit converter, the default full scale.
pub const MAX_ADC_VALUE: u16 = 4095;

#[derive(Debug, Copy, Clone, PartialEq, Eq, Structural)]
pub struct Analog {
    pub enabled: bool,
    pub inverted: bool,
    pub message_type: AnalogMessageType,
    pub midi_id: u16,
    pub upper_limit: u16,
    pub lower_limit: u16,
    pub channel: ChannelOrAll,
    pub lower_adc_offset: u8,
    pub upper_adc_offset: u8,
    /// The largest reading of the converter.
    pub adc_max: u16,
}

impl Analog {
    pub open spec fn spec_new(midi_id: u16) -> Analog {
        Analog {
            enabled: false,
            inverted: false,
            message_type: AnalogMessageType::PotentiometerWithCCMessage7Bit,
            channel: ChannelOrAll::Channel(0),
            midi_id,
            lower_limit: 0,
            upper_limit: 0x7F,
            lower_adc_offset: 0,
            upper_adc_offset: 0,
            adc_max: MAX_ADC_VALUE,
        }
    }

    pub open spec fn spec_set(self, section: AnalogSection) -> Analog {
        match section {
            AnalogSection::MessageType(v) => Analog { message_type: v, ..self },
            AnalogSection::Channel(v) => Analog { channel: v, ..self },
            AnalogSection::Enabled(v) => Analog { enabled: v, ..self },
            AnalogSection::MidiId(v) => Analog { midi_id: v, ..self },
            AnalogSection::Inverted(v) => Analog { inverted: v, ..self },
            AnalogSection::LowerCCLimit(v) => Analog { lower_limit: v, ..self },
            AnalogSection::UpperCCLimit(v) => Analog { upper_limit: v, ..self },
            AnalogSection::LowerADCOffset(v) => Analog { lower_adc_offset: v, ..self },
            AnalogSection::UpperADCOffset(v) => Analog { upper_adc_offset: v, ..self },
        }
    }

    /// The wire value of the section that `section` names (its payload is ignored).
    pub open spec fn spec_get(self, section: AnalogSection) -> u16 {
        match section {
            AnalogSection::MessageType(_) => self.message_type.spec_code(),
            AnalogSection::Channel(_) => self.channel.spec_to_wire(),
            AnalogSection::Enabled(_) => spec_flag(self.enabled),
            AnalogSection::MidiId(_) => self.midi_id,
            AnalogSection::Inverted(_) => spec_flag(self.inverted),
            AnalogSection::LowerCCLimit(_) => self.lower_limit,
            AnalogSection::UpperCCLimit(_) => self.upper_limit,
            AnalogSection::LowerADCOffset(_) => self.lower_adc_offset as u16,
            AnalogSection::UpperADCOffset(_) => self.upper_adc_offset as u16,
        }
    }

    pub fn new(midi_id: u16) -> (r: Self)
        ensures r == Self::spec_new(midi_id),
    {
        Analog {
            enabled: false,
            inverted: false,
            message_type: AnalogMessageType::PotentiometerWithCCMessage7Bit,
            channel: ChannelOrAll::Channel(0),
            midi_id,
            lower_limit: 0,
            upper_limit: 0x7F,
            lower_adc_offset: 0,
            upper_adc_offset: 0,
            adc_max: MAX_ADC_VALUE,
        }
    }

    /// Sets the largest reading of the converter.
    pub fn set_adc_max(&mut self, adc_max: u16)
        ensures *final(self) == (Analog { adc_max, ..*old(self) }),
    {
        self.adc_max = adc_max;
    }

    pub fn set(&mut self, section: AnalogSection)
        ensures *final(self) == old(self).spec_set(section),
    {
        match section {
            AnalogSection::MessageType(v) => self.message_type = v,
            AnalogSection::Channel(v) => self.channel = v,
            AnalogSection::Enabled(v) => self.enabled = v,
            AnalogSection::MidiId(v) => self.midi_id = v,
            AnalogSection::Inverted(v) => self.inverted = v,
            AnalogSection::LowerCCLimit(v) => self.lower_limit = v,
            AnalogSection::UpperCCLimit(v) => self.upper_limit = v,
            AnalogSection::LowerADCOffset(v) => self.lower_adc_offset = v,
            AnalogSection::UpperADCOffset(v) => self.upper_adc_offset = v,
        }
    }

    pub fn get(&self, section: AnalogSection) -> (r: u16)
        ensures r == self.spec_get(section),
    {
        match section {
            AnalogSection::MessageType(_) => self.message_type.code(),
            AnalogSection::Channel(_) => self.channel.to_wire(),
            AnalogSection::Enabled(_) => flag(self.enabled),
            AnalogSection::MidiId(_) => self.midi_id,
            AnalogSection::Inverted(_) => flag(self.inverted),
            AnalogSection::LowerCCLimit(_) => self.lower_limit,
            AnalogSection::UpperCCLimit(_) => self.upper_limit,
            AnalogSection::LowerADCOffset(_) => self.lower_adc_offset as u16,
            AnalogSection::UpperADCOffset(_) => self.upper_adc_offset as u16,
        }
    }
}

impl Default for Analog {
    fn default() -> (r: Self)
        ensures r == Analog::spec_new(0),
    {
        Analog::new(0)
    }
}

/// What an analog input sends when its value changes.
#[derive(Debug, Copy, Clone, PartialEq, Eq, Structural)]
pub enum AnalogMessageType {
    PotentiometerWithCCMessage7Bit,
    PotentiometerWithNoteMessage,
    FSR,
    Button,
    NRPN7,
    NRPN14,
    PitchBend,
    PotentiometerWithCCMessage14Bit,
}

impl AnalogMessageType {
    pub open spec fn spec_code(self) -> u16 {
        match self {
            AnalogMessageType::PotentiometerWithCCMessage7Bit => 0,
            AnalogMessageType::PotentiometerWithNoteMessage => 1,
            AnalogMessageType::FSR => 2,
            AnalogMessageType::Button => 3,
            AnalogMessageType::NRPN7 => 4,
            AnalogMessageType::NRPN14 => 5,
            AnalogMessageType::PitchBend => 6,
            AnalogMessageType::PotentiometerWithCCMessage14Bit => 7,
        }
    }

    pub open spec fn spec_from_code(v: u16) -> Option<AnalogMessageType> {
        if v == 0 { Some(AnalogMessageType::PotentiometerWithCCMessage7Bit) }
        else if v == 1 { Some(AnalogMessageType::PotentiometerWithNoteMessage) }
        else if v == 2 { Some(AnalogMessageType::FSR) }
        else if v == 3 { Some(AnalogMessageType::Button) }
        else if v == 4 { Some(AnalogMessageType::NRPN7) }
        else if v == 5 { Some(AnalogMessageType::NRPN14) }
        else if v == 6 { Some(AnalogMessageType::PitchBend) }
        else if v == 7 { Some(AnalogMessageType::PotentiometerWithCCMessage14Bit) }
        else { None }
    }

    pub fn code(self) -> (r: u16)
        ensures r == self.spec_code(),
    {
        match self {
            AnalogMessageType::PotentiometerWithCCMessage7Bit => 0,
            AnalogMessageType::PotentiometerWithNoteMessage => 1,
            AnalogMessageType::FSR => 2,
            AnalogMessageType::Button => 3,
            AnalogMessageType::NRPN7 => 4,
            AnalogMessageType::NRPN14 => 5,
            AnalogMessageType::PitchBend => 6,
            AnalogMessageType::PotentiometerWithCCMessage14Bit => 7,
        }
    }

    pub fn from_code(v: u16) -> (r: Option<AnalogMessageType>)
        ensures r == Self::spec_from_code(v),
    {
        if v == 0 { Some(AnalogMessageType::PotentiometerWithCCMessage7Bit) }
        else if v == 1 { Some(AnalogMessageType::PotentiometerWithNoteMessage) }
        else if v == 2 { Some(AnalogMessageType::FSR) }
        else if v == 3 { Some(AnalogMessageType::Button) }
        else if v == 4 { Some(AnalogMessageType::NRPN7) }
        else if v == 5 { Some(AnalogMessageType::NRPN14) }
        else if v == 6 { Some(AnalogMessageType::PitchBend) }
        else if v == 7 { Some(AnalogMessageType::PotentiometerWithCCMessage14Bit) }
        else { None }
    }
}

impl Default for AnalogMessageType {
    fn default() -> (r: Self)
        ensures r == AnalogMessageType::PotentiometerWithCCMessage7Bit,
    {
        AnalogMessageType::PotentiometerWithCCMessage7Bit
    }
}

/// Section identifiers of the analog block; the high halves of the MIDI id
/// and of the limits (4, 6 and 8) belong to the one byte protocol.
pub const ANALOG_SECTION_ENABLED: u8 = 0x0;
pub const ANALOG_SECTION_INVERT_STATE: u8 = 0x1;
pub const ANALOG_SECTION_MESSAGE_TYPE: u8 = 0x2;
pub const ANALOG_SECTION_MIDI_ID_LSB: u8 = 0x3;
pub const ANALOG_SECTION_LOWER_CC_LIMIT_LSB: u8 = 0x5;
pub const ANALOG_SECTION_UPPER_CC_LIMIT_LSB: u8 = 0x7;
pub const ANALOG_SECTION_CHANNEL: u8 = 0x9;
pub const ANALOG_SECTION_LOWER_ADC_OFFSET: u8 = 0xA;
pub const ANALOG_SECTION_UPPER_ADC_OFFSET: u8 = 0xB;

#[derive(Debug, Copy, Clone, PartialEq, Eq, Structural)]
pub enum AnalogSection {
    Enabled(bool),
    Inverted(bool),
    MessageType(AnalogMessageType),
    MidiId(u16),
    LowerCCLimit(u16),
    UpperCCLimit(u16),
    Channel(ChannelOrAll),
    LowerADCOffset(u8),
    UpperADCOffset(u8),
}


impl From<AnalogMessageType> for u16 {
    fn from(v: AnalogMessageType) -> (r: u16) {
        v.code()
    }
}

impl vstd::std_specs::convert::FromSpecImpl<AnalogMessageType> for u16 {
    open spec fn obeys_from_spec() -> bool {
        true
    }

    open spec fn from_spec(v: AnalogMessageType) -> u16 {
        v.spec_code()
    }
}

impl TryFrom<u16> for AnalogMessageType {
    type Error = u16;

    /// The variant with code `v`, or `v` back when there is none.
    fn try_from(v: u16) -> (r: Result<AnalogMessageType, u16>) {
        match AnalogMessageType::from_code(v) {
            Some(x) => Ok(x),
            None => Err(v),
        }
    }
}

impl vstd::std_specs::convert::TryFromSpecImpl<u16> for AnalogMessageType {
    open spec fn obeys_try_from_spec() -> bool {
        true
    }

    open spec fn try_from_spec(v: u16) -> Result<AnalogMessageType, u16> {
        match AnalogMessageType::spec_from_code(v) {
            Some(x) => Ok(x),
            None => Err(v),
        }
    }
}

} // verus!
