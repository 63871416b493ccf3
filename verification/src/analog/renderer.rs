//! The wire form of a section of the analog block.
use vstd::prelude::*;
use crate::analog::{Analog, AnalogMessageType, AnalogSection, ANALOG_SECTION_CHANNEL, ANALOG_SECTION_ENABLED, ANALOG_SECTION_INVERT_STATE, ANALOG_SECTION_LOWER_ADC_OFFSET, ANALOG_SECTION_LOWER_CC_LIMIT_LSB, ANALOG_SECTION_MESSAGE_TYPE, ANALOG_SECTION_MIDI_ID_LSB, ANALOG_SECTION_UPPER_ADC_OFFSET, ANALOG_SECTION_UPPER_CC_LIMIT_LSB};
use crate::analog::parser::spec_analog_section_from;
use crate::global::{flag, spec_flag};
use crate::parser::OpenDeckParseError;
use crate::Section;

verus! {

/// The wire form of an analog section.
pub open spec fn spec_analog_section_to(s: AnalogSection) -> Section {
    match s {
        AnalogSection::Enabled(x) => Section { id: ANALOG_SECTION_ENABLED, value: spec_flag(x) },
        AnalogSection::Inverted(x) => Section { id: ANALOG_SECTION_INVERT_STATE, value: spec_flag(x) },
        AnalogSection::MessageType(x) => Section { id: ANALOG_SECTION_MESSAGE_TYPE, value: x.spec_code() },
        AnalogSection::MidiId(x) => Section { id: ANALOG_SECTION_MIDI_ID_LSB, value: x },
        AnalogSection::LowerCCLimit(x) => Section { id: ANALOG_SECTION_LOWER_CC_LIMIT_LSB, value: x },
        AnalogSection::UpperCCLimit(x) => Section { id: ANALOG_SECTION_UPPER_CC_LIMIT_LSB, value: x },
        AnalogSection::Channel(x) => Section { id: ANALOG_SECTION_CHANNEL, value: x.spec_to_wire() },
        AnalogSection::LowerADCOffset(x) => Section { id: ANALOG_SECTION_LOWER_ADC_OFFSET, value: x as u16 },
        AnalogSection::UpperADCOffset(x) => Section { id: ANALOG_SECTION_UPPER_ADC_OFFSET, value: x as u16 },
    }
}

impl AnalogSection {
    /// A section holds a value that its wire form can carry back.
    pub open spec fn wf(self) -> bool {
        self matches AnalogSection::Channel(c) ==> c.wf()
    }

    pub fn to_section(self) -> (r: Section)
        ensures r == spec_analog_section_to(self),
    {
        match self {
            AnalogSection::Enabled(x) => Section { id: ANALOG_SECTION_ENABLED, value: flag(x) },
            AnalogSection::Inverted(x) => Section { id: ANALOG_SECTION_INVERT_STATE, value: flag(x) },
            AnalogSection::MessageType(x) => Section { id: ANALOG_SECTION_MESSAGE_TYPE, value: x.code() },
            AnalogSection::MidiId(x) => Section { id: ANALOG_SECTION_MIDI_ID_LSB, value: x },
            AnalogSection::LowerCCLimit(x) => Section { id: ANALOG_SECTION_LOWER_CC_LIMIT_LSB, value: x },
            AnalogSection::UpperCCLimit(x) => Section { id: ANALOG_SECTION_UPPER_CC_LIMIT_LSB, value: x },
            AnalogSection::Channel(x) => Section { id: ANALOG_SECTION_CHANNEL, value: x.to_wire() },
            AnalogSection::LowerADCOffset(x) => Section { id: ANALOG_SECTION_LOWER_ADC_OFFSET, value: x as u16 },
            AnalogSection::UpperADCOffset(x) => Section { id: ANALOG_SECTION_UPPER_ADC_OFFSET, value: x as u16 },
        }
    }
}

impl From<AnalogSection> for Section {
    fn from(s: AnalogSection) -> (r: Section) {
        s.to_section()
    }
}

impl vstd::std_specs::convert::FromSpecImpl<AnalogSection> for Section {
    open spec fn obeys_from_spec() -> bool {
        true
    }

    open spec fn from_spec(s: AnalogSection) -> Section {
        spec_analog_section_to(s)
    }
}

/// Reading the wire form of an analog section gives the section back.
pub proof fn lemma_analog_section_roundtrip(s: AnalogSection)
    requires s.wf(),
    ensures spec_analog_section_from(spec_analog_section_to(s)) == Ok::<AnalogSection, OpenDeckParseError>(s),
{
    match s {
        AnalogSection::MessageType(t) => {
            assert(AnalogMessageType::spec_from_code(t.spec_code()) == Some(t));
        },
        _ => {},
    }
}

/// Setting a section and reading it back gives the section's wire value.
pub proof fn lemma_analog_set_get(a: Analog, s: AnalogSection)
    ensures a.spec_set(s).spec_get(s) == spec_analog_section_to(s).value,
{
}


/// Setting one section leaves every section with another identifier reading
/// as before.
pub proof fn lemma_analog_set_other(a: Analog, s: AnalogSection, t: AnalogSection)
    requires spec_analog_section_to(s).id != spec_analog_section_to(t).id,
    ensures a.spec_set(s).spec_get(t) == a.spec_get(t),
{
    match s {
        AnalogSection::Enabled(..) => {
            match t {
                AnalogSection::Enabled(..) => {},
                AnalogSection::Inverted(..) => {},
                AnalogSection::MessageType(..) => {},
                AnalogSection::MidiId(..) => {},
                AnalogSection::LowerCCLimit(..) => {},
                AnalogSection::UpperCCLimit(..) => {},
                AnalogSection::Channel(..) => {},
                AnalogSection::LowerADCOffset(..) => {},
                AnalogSection::UpperADCOffset(..) => {},
            }
        },
        AnalogSection::Inverted(..) => {
            match t {
                AnalogSection::Enabled(..) => {},
                AnalogSection::Inverted(..) => {},
                AnalogSection::MessageType(..) => {},
                AnalogSection::MidiId(..) => {},
                AnalogSection::LowerCCLimit(..) => {},
                AnalogSection::UpperCCLimit(..) => {},
                AnalogSection::Channel(..) => {},
                AnalogSection::LowerADCOffset(..) => {},
                AnalogSection::UpperADCOffset(..) => {},
            }
        },
        AnalogSection::MessageType(..) => {
            match t {
                AnalogSection::Enabled(..) => {},
                AnalogSection::Inverted(..) => {},
                AnalogSection::MessageType(..) => {},
                AnalogSection::MidiId(..) => {},
                AnalogSection::LowerCCLimit(..) => {},
                AnalogSection::UpperCCLimit(..) => {},
                AnalogSection::Channel(..) => {},
                AnalogSection::LowerADCOffset(..) => {},
                AnalogSection::UpperADCOffset(..) => {},
            }
        },
        AnalogSection::MidiId(..) => {
            match t {
                AnalogSection::Enabled(..) => {},
                AnalogSection::Inverted(..) => {},
                AnalogSection::MessageType(..) => {},
                AnalogSection::MidiId(..) => {},
                AnalogSection::LowerCCLimit(..) => {},
                AnalogSection::UpperCCLimit(..) => {},
                AnalogSection::Channel(..) => {},
                AnalogSection::LowerADCOffset(..) => {},
                AnalogSection::UpperADCOffset(..) => {},
            }
        },
        AnalogSection::LowerCCLimit(..) => {
            match t {
                AnalogSection::Enabled(..) => {},
                AnalogSection::Inverted(..) => {},
                AnalogSection::MessageType(..) => {},
                AnalogSection::MidiId(..) => {},
                AnalogSection::LowerCCLimit(..) => {},
                AnalogSection::UpperCCLimit(..) => {},
                AnalogSection::Channel(..) => {},
                AnalogSection::LowerADCOffset(..) => {},
                AnalogSection::UpperADCOffset(..) => {},
            }
        },
        AnalogSection::UpperCCLimit(..) => {
            match t {
                AnalogSection::Enabled(..) => {},
                AnalogSection::Inverted(..) => {},
                AnalogSection::MessageType(..) => {},
                AnalogSection::MidiId(..) => {},
                AnalogSection::LowerCCLimit(..) => {},
                AnalogSection::UpperCCLimit(..) => {},
                AnalogSection::Channel(..) => {},
                AnalogSection::LowerADCOffset(..) => {},
                AnalogSection::UpperADCOffset(..) => {},
            }
        },
        AnalogSection::Channel(..) => {
            match t {
                AnalogSection::Enabled(..) => {},
                AnalogSection::Inverted(..) => {},
                AnalogSection::MessageType(..) => {},
                AnalogSection::MidiId(..) => {},
                AnalogSection::LowerCCLimit(..) => {},
                AnalogSection::UpperCCLimit(..) => {},
                AnalogSection::Channel(..) => {},
                AnalogSection::LowerADCOffset(..) => {},
                AnalogSection::UpperADCOffset(..) => {},
            }
        },
        AnalogSection::LowerADCOffset(..) => {
            match t {
                AnalogSection::Enabled(..) => {},
                AnalogSection::Inverted(..) => {},
                AnalogSection::MessageType(..) => {},
                AnalogSection::MidiId(..) => {},
                AnalogSection::LowerCCLimit(..) => {},
                AnalogSection::UpperCCLimit(..) => {},
                AnalogSection::Channel(..) => {},
                AnalogSection::LowerADCOffset(..) => {},
                AnalogSection::UpperADCOffset(..) => {},
            }
        },
        AnalogSection::UpperADCOffset(..) => {
            match t {
                AnalogSection::Enabled(..) => {},
                AnalogSection::Inverted(..) => {},
                AnalogSection::MessageType(..) => {},
                AnalogSection::MidiId(..) => {},
                AnalogSection::LowerCCLimit(..) => {},
                AnalogSection::UpperCCLimit(..) => {},
                AnalogSection::Channel(..) => {},
                AnalogSection::LowerADCOffset(..) => {},
                AnalogSection::UpperADCOffset(..) => {},
            }
        },
    }
}

} // verus!
