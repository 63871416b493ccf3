//! Reading a section of the encoder block from its wire form.
use vstd::prelude::*;
use crate::channel::ChannelOrAll;
use crate::encoder::{Accelleration, EncoderMessageType, EncoderSection, ENCODER_SECTION_ACCELLERATION, ENCODER_SECTION_CHANNEL, ENCODER_SECTION_ENABLED, ENCODER_SECTION_INVERT_STATE, ENCODER_SECTION_LOWER_LIMIT, ENCODER_SECTION_MESSAGE_TYPE, ENCODER_SECTION_MIDI_ID_LSB, ENCODER_SECTION_MIDI_ID_MSB, ENCODER_SECTION_PULSES_PER_STEP, ENCODER_SECTION_REMOTE_SYNC, ENCODER_SECTION_REPEATED_VALUE, ENCODER_SECTION_SECOND_MIDI_ID, ENCODER_SECTION_UPPER_LIMIT};
use crate::parser::OpenDeckParseError;
use crate::{MessageStatus, Section};

verus! {

/// Reads an encoder section from its wire form.
pub open spec fn spec_encoder_section_from(s: Section) -> Result<EncoderSection, OpenDeckParseError> {
    let v = s.value;
    if s.id == ENCODER_SECTION_INVERT_STATE {
        Ok(EncoderSection::Inverted(v > 0))
    } else if s.id == ENCODER_SECTION_REMOTE_SYNC {
        Ok(EncoderSection::RemoteSync(v > 0))
    } else if s.id == ENCODER_SECTION_ENABLED {
        Ok(EncoderSection::Enabled(v > 0))
    } else if s.id == ENCODER_SECTION_MESSAGE_TYPE {
        match EncoderMessageType::spec_from_code(v) {
            Some(t) => Ok(EncoderSection::MessageType(t)),
            None => Err(OpenDeckParseError::StatusError(MessageStatus::NewValueError)),
        }
    } else if s.id == ENCODER_SECTION_CHANNEL {
        Ok(EncoderSection::Channel(ChannelOrAll::spec_from_wire(v)))
    } else if s.id == ENCODER_SECTION_ACCELLERATION {
        match Accelleration::spec_from_code(v) {
            Some(a) => Ok(EncoderSection::Accelleration(a)),
            None => Err(OpenDeckParseError::StatusError(MessageStatus::NewValueError)),
        }
    } else if s.id == ENCODER_SECTION_PULSES_PER_STEP {
        Ok(EncoderSection::PulsesPerStep(v as u8))
    } else if s.id == ENCODER_SECTION_MIDI_ID_LSB {
        Ok(EncoderSection::MidiIdLSB(v))
    } else if s.id == ENCODER_SECTION_MIDI_ID_MSB {
        Ok(EncoderSection::MidiIdMSB(v as u8))
    } else if s.id == ENCODER_SECTION_LOWER_LIMIT {
        Ok(EncoderSection::LowerLimit(v))
    } else if s.id == ENCODER_SECTION_UPPER_LIMIT {
        Ok(EncoderSection::UpperLimit(v))
    } else if s.id == ENCODER_SECTION_REPEATED_VALUE {
        Ok(EncoderSection::RepeatedValue(v))
    } else if s.id == ENCODER_SECTION_SECOND_MIDI_ID {
        Ok(EncoderSection::SecondMidiId(v))
    } else {
        Err(OpenDeckParseError::StatusError(MessageStatus::SectionError))
    }
}

impl EncoderSection {
    pub fn try_from_section(s: Section) -> (r: Result<EncoderSection, OpenDeckParseError>)
        ensures r == spec_encoder_section_from(s),
    {
        let v = s.value;
        if s.id == ENCODER_SECTION_INVERT_STATE {
            Ok(EncoderSection::Inverted(v > 0))
        } else if s.id == ENCODER_SECTION_REMOTE_SYNC {
            Ok(EncoderSection::RemoteSync(v > 0))
        } else if s.id == ENCODER_SECTION_ENABLED {
            Ok(EncoderSection::Enabled(v > 0))
        } else if s.id == ENCODER_SECTION_MESSAGE_TYPE {
            match EncoderMessageType::from_code(v) {
                Some(t) => Ok(EncoderSection::MessageType(t)),
                None => Err(OpenDeckParseError::new_value_err()),
            }
        } else if s.id == ENCODER_SECTION_CHANNEL {
            Ok(EncoderSection::Channel(ChannelOrAll::from_wire(v)))
        } else if s.id == ENCODER_SECTION_ACCELLERATION {
            match Accelleration::from_code(v) {
                Some(a) => Ok(EncoderSection::Accelleration(a)),
                None => Err(OpenDeckParseError::new_value_err()),
            }
        } else if s.id == ENCODER_SECTION_PULSES_PER_STEP {
            Ok(EncoderSection::PulsesPerStep(v as u8))
        } else if s.id == ENCODER_SECTION_MIDI_ID_LSB {
            Ok(EncoderSection::MidiIdLSB(v))
        } else if s.id == ENCODER_SECTION_MIDI_ID_MSB {
            Ok(EncoderSection::MidiIdMSB(v as u8))
        } else if s.id == ENCODER_SECTION_LOWER_LIMIT {
            Ok(EncoderSection::LowerLimit(v))
        } else if s.id == ENCODER_SECTION_UPPER_LIMIT {
            Ok(EncoderSection::UpperLimit(v))
        } else if s.id == ENCODER_SECTION_REPEATED_VALUE {
            Ok(EncoderSection::RepeatedValue(v))
        } else if s.id == ENCODER_SECTION_SECOND_MIDI_ID {
            Ok(EncoderSection::SecondMidiId(v))
        } else {
            Err(OpenDeckParseError::StatusError(MessageStatus::SectionError))
        }
    }
}

impl TryFrom<Section> for EncoderSection {
    type Error = OpenDeckParseError;

    fn try_from(s: Section) -> (r: Result<EncoderSection, OpenDeckParseError>) {
        EncoderSection::try_from_section(s)
    }
}

impl vstd::std_specs::convert::TryFromSpecImpl<Section> for EncoderSection {
    open spec fn obeys_try_from_spec() -> bool {
        true
    }

    open spec fn try_from_spec(s: Section) -> Result<EncoderSection, OpenDeckParseError> {
        spec_encoder_section_from(s)
    }
}

} // verus!
