//! Reading a section of the analog block from its wire form.
use vstd::prelude::*;
use crate::analog::{AnalogMessageType, AnalogSection, ANALOG_SECTION_CHANNEL, ANALOG_SECTION_ENABLED, ANALOG_SECTION_INVERT_STATE, ANALOG_SECTION_LOWER_ADC_OFFSET, ANALOG_SECTION_LOWER_CC_LIMIT_LSB, ANALOG_SECTION_MESSAGE_TYPE, ANALOG_SECTION_MIDI_ID_LSB, ANALOG_SECTION_UPPER_ADC_OFFSET, ANALOG_SECTION_UPPER_CC_LIMIT_LSB};
use crate::channel::ChannelOrAll;
use crate::parser::OpenDeckParseError;
use crate::{MessageStatus, Section};

verus! {

/// Reads an analog section from its wire form.
pub open spec fn spec_analog_section_from(s: Section) -> Result<AnalogSection, OpenDeckParseError> {
    let v = s.value;
    if s.id == ANALOG_SECTION_ENABLED {
        Ok(AnalogSection::Enabled(v > 0))
    } else if s.id == ANALOG_SECTION_INVERT_STATE {
        Ok(AnalogSection::Inverted(v > 0))
    } else if s.id == ANALOG_SECTION_MESSAGE_TYPE {
        match AnalogMessageType::spec_from_code(v) {
            Some(t) => Ok(AnalogSection::MessageType(t)),
            None => Err(OpenDeckParseError::StatusError(MessageStatus::NewValueError)),
        }
    } else if s.id == ANALOG_SECTION_MIDI_ID_LSB {
        Ok(AnalogSection::MidiId(v))
    } else if s.id == ANALOG_SECTION_LOWER_CC_LIMIT_LSB {
        Ok(AnalogSection::LowerCCLimit(v))
    } else if s.id == ANALOG_SECTION_UPPER_CC_LIMIT_LSB {
        Ok(AnalogSection::UpperCCLimit(v))
    } else if s.id == ANALOG_SECTION_CHANNEL {
        Ok(AnalogSection::Channel(ChannelOrAll::spec_from_wire(v)))
    } else if s.id == ANALOG_SECTION_LOWER_ADC_OFFSET {
        Ok(AnalogSection::LowerADCOffset(v as u8))
    } else if s.id == ANALOG_SECTION_UPPER_ADC_OFFSET {
        Ok(AnalogSection::UpperADCOffset(v as u8))
    } else {
        Err(OpenDeckParseError::StatusError(MessageStatus::SectionError))
    }
}

impl AnalogSection {
    pub fn try_from_section(s: Section) -> (r: Result<AnalogSection, OpenDeckParseError>)
        ensures r == spec_analog_section_from(s),
    {
        let v = s.value;
        if s.id == ANALOG_SECTION_ENABLED {
            Ok(AnalogSection::Enabled(v > 0))
        } else if s.id == ANALOG_SECTION_INVERT_STATE {
            Ok(AnalogSection::Inverted(v > 0))
        } else if s.id == ANALOG_SECTION_MESSAGE_TYPE {
            match AnalogMessageType::from_code(v) {
                Some(t) => Ok(AnalogSection::MessageType(t)),
                None => Err(OpenDeckParseError::new_value_err()),
            }
        } else if s.id == ANALOG_SECTION_MIDI_ID_LSB {
            Ok(AnalogSection::MidiId(v))
        } else if s.id == ANALOG_SECTION_LOWER_CC_LIMIT_LSB {
            Ok(AnalogSection::LowerCCLimit(v))
        } else if s.id == ANALOG_SECTION_UPPER_CC_LIMIT_LSB {
            Ok(AnalogSection::UpperCCLimit(v))
        } else if s.id == ANALOG_SECTION_CHANNEL {
            Ok(AnalogSection::Channel(ChannelOrAll::from_wire(v)))
        } else if s.id == ANALOG_SECTION_LOWER_ADC_OFFSET {
            Ok(AnalogSection::LowerADCOffset(v as u8))
        } else if s.id == ANALOG_SECTION_UPPER_ADC_OFFSET {
            Ok(AnalogSection::UpperADCOffset(v as u8))
        } else {
            Err(OpenDeckParseError::StatusError(MessageStatus::SectionError))
        }
    }
}

impl TryFrom<Section> for AnalogSection {
    type Error = OpenDeckParseError;

    fn try_from(s: Section) -> (r: Result<AnalogSection, OpenDeckParseError>) {
        AnalogSection::try_from_section(s)
    }
}

impl vstd::std_specs::convert::TryFromSpecImpl<Section> for AnalogSection {
    open spec fn obeys_try_from_spec() -> bool {
        true
    }

    open spec fn try_from_spec(s: Section) -> Result<AnalogSection, OpenDeckParseError> {
        spec_analog_section_from(s)
    }
}

} // verus!
