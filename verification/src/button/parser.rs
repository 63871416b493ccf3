use vstd::prelude::*;
use crate::button::{ButtonMessageType, ButtonSection, ButtonType, BUTTON_SECTION_CHANNEL, BUTTON_SECTION_MESSAGE_TYPE, BUTTON_SECTION_MIDI_ID, BUTTON_SECTION_TYPE, BUTTON_SECTION_VALUE};
use crate::channel::ChannelOrAll;
use crate::parser::OpenDeckParseError;
use crate::{MessageStatus, Section};

verus! {

/// Reads a button section from its wire form.
pub open spec fn spec_button_section_from(s: Section) -> Result<ButtonSection, OpenDeckParseError> {
    if s.id == BUTTON_SECTION_MIDI_ID {
        Ok(ButtonSection::MidiId(s.value as u8))
    } else if s.id == BUTTON_SECTION_MESSAGE_TYPE {
        match ButtonMessageType::spec_from_code(s.value) {
            Some(t) => Ok(ButtonSection::MessageType(t)),
            None => Err(OpenDeckParseError::StatusError(MessageStatus::NewValueError)),
        }
    } else if s.id == BUTTON_SECTION_TYPE {
        match ButtonType::spec_from_code(s.value) {
            Some(t) => Ok(ButtonSection::Type(t)),
            None => Err(OpenDeckParseError::StatusError(MessageStatus::NewValueError)),
        }
    } else if s.id == BUTTON_SECTION_VALUE {
        Ok(ButtonSection::Value(s.value as u8))
    } else if s.id == BUTTON_SECTION_CHANNEL {
        Ok(ButtonSection::Channel(ChannelOrAll::spec_from_wire(s.value)))
    } else {
        Err(OpenDeckParseError::StatusError(MessageStatus::SectionError))
    }
}

impl ButtonSection {
    pub fn try_from_section(v: Section) -> (r: Result<ButtonSection, OpenDeckParseError>)
        ensures r == spec_button_section_from(v),
    {
        if v.id == BUTTON_SECTION_MIDI_ID {
            Ok(ButtonSection::MidiId(v.value as u8))
        } else if v.id == BUTTON_SECTION_MESSAGE_TYPE {
            match ButtonMessageType::from_code(v.value) {
                Some(t) => Ok(ButtonSection::MessageType(t)),
                None => Err(OpenDeckParseError::new_value_err()),
            }
        } else if v.id == BUTTON_SECTION_TYPE {
            match ButtonType::from_code(v.value) {
                Some(t) => Ok(ButtonSection::Type(t)),
                None => Err(OpenDeckParseError::new_value_err()),
            }
        } else if v.id == BUTTON_SECTION_VALUE {
            Ok(ButtonSection::Value(v.value as u8))
        } else if v.id == BUTTON_SECTION_CHANNEL {
            Ok(ButtonSection::Channel(ChannelOrAll::from_wire(v.value)))
        } else {
            Err(OpenDeckParseError::StatusError(MessageStatus::SectionError))
        }
    }
}

impl TryFrom<Section> for ButtonSection {
    type Error = OpenDeckParseError;

    fn try_from(v: Section) -> (r: Result<ButtonSection, OpenDeckParseError>) {
        ButtonSection::try_from_section(v)
    }
}

impl vstd::std_specs::convert::TryFromSpecImpl<Section> for ButtonSection {
    open spec fn obeys_try_from_spec() -> bool {
        true
    }

    open spec fn try_from_spec(v: Section) -> Result<ButtonSection, OpenDeckParseError> {
        spec_button_section_from(v)
    }
}

} // verus!
