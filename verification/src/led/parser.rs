//! Reading a section of the output block from its wire form.
use vstd::prelude::*;
use crate::channel::ChannelOrAll;
use crate::led::{ControlType, LedSection, LED_SECTION_ACTIVATION_ID, LED_SECTION_ACTIVATION_VALUE, LED_SECTION_BLINK_TESTING, LED_SECTION_CHANNEL, LED_SECTION_CONTROL_TYPE, LED_SECTION_GLOBAL, LED_SECTION_RGB_ENABLED, LED_SECTION_STATE};
use crate::parser::OpenDeckParseError;
use crate::{MessageStatus, Section};

verus! {

/// Reads an output section from its wire form; the state takes only 0 and 1.
pub open spec fn spec_led_section_from(s: Section) -> Result<LedSection, OpenDeckParseError> {
    let v = s.value;
    if s.id == LED_SECTION_ACTIVATION_ID {
        Ok(LedSection::ActivationId(v as u8))
    } else if s.id == LED_SECTION_ACTIVATION_VALUE {
        Ok(LedSection::ActivationValue(v as u8))
    } else if s.id == LED_SECTION_STATE {
        if v == 0 {
            Ok(LedSection::State(false))
        } else if v == 1 {
            Ok(LedSection::State(true))
        } else {
            Err(OpenDeckParseError::StatusError(MessageStatus::NewValueError))
        }
    } else if s.id == LED_SECTION_CONTROL_TYPE {
        match ControlType::spec_from_code(v) {
            Some(t) => Ok(LedSection::ControlType(t)),
            None => Err(OpenDeckParseError::StatusError(MessageStatus::NewValueError)),
        }
    } else if s.id == LED_SECTION_RGB_ENABLED {
        Ok(LedSection::RGBEnabled(v > 0))
    } else if s.id == LED_SECTION_BLINK_TESTING {
        Ok(LedSection::BlinkTesting(v > 0))
    } else if s.id == LED_SECTION_CHANNEL {
        Ok(LedSection::Channel(ChannelOrAll::spec_from_wire(v)))
    } else if s.id == LED_SECTION_GLOBAL {
        Ok(LedSection::Global(v))
    } else {
        Err(OpenDeckParseError::StatusError(MessageStatus::SectionError))
    }
}

impl LedSection {
    pub fn try_from_section(s: Section) -> (r: Result<LedSection, OpenDeckParseError>)
        ensures r == spec_led_section_from(s),
    {
        let v = s.value;
        if s.id == LED_SECTION_ACTIVATION_ID {
            Ok(LedSection::ActivationId(v as u8))
        } else if s.id == LED_SECTION_ACTIVATION_VALUE {
            Ok(LedSection::ActivationValue(v as u8))
        } else if s.id == LED_SECTION_STATE {
            if v == 0 {
                    Ok(LedSection::State(false))
                } else if v == 1 {
                    Ok(LedSection::State(true))
                } else {
                    Err(OpenDeckParseError::new_value_err())
                }
        } else if s.id == LED_SECTION_CONTROL_TYPE {
            match ControlType::from_code(v) {
                    Some(t) => Ok(LedSection::ControlType(t)),
                    None => Err(OpenDeckParseError::new_value_err()),
                }
        } else if s.id == LED_SECTION_RGB_ENABLED {
            Ok(LedSection::RGBEnabled(v > 0))
        } else if s.id == LED_SECTION_BLINK_TESTING {
            Ok(LedSection::BlinkTesting(v > 0))
        } else if s.id == LED_SECTION_CHANNEL {
            Ok(LedSection::Channel(ChannelOrAll::from_wire(v)))
        } else if s.id == LED_SECTION_GLOBAL {
            Ok(LedSection::Global(v))
        } else {
            Err(OpenDeckParseError::StatusError(MessageStatus::SectionError))
        }
    }
}

impl TryFrom<Section> for LedSection {
    type Error = OpenDeckParseError;

    fn try_from(s: Section) -> (r: Result<LedSection, OpenDeckParseError>) {
        LedSection::try_from_section(s)
    }
}

impl vstd::std_specs::convert::TryFromSpecImpl<Section> for LedSection {
    open spec fn obeys_try_from_spec() -> bool {
        true
    }

    open spec fn try_from_spec(s: Section) -> Result<LedSection, OpenDeckParseError> {
        spec_led_section_from(s)
    }
}

} // verus!
