//! The wire form of a section of the output block.
use vstd::prelude::*;
use crate::global::{flag, spec_flag};
use crate::led::{ControlType, Led, LedSection, LED_SECTION_ACTIVATION_ID, LED_SECTION_ACTIVATION_VALUE, LED_SECTION_BLINK_TESTING, LED_SECTION_CHANNEL, LED_SECTION_CONTROL_TYPE, LED_SECTION_GLOBAL, LED_SECTION_RGB_ENABLED, LED_SECTION_STATE};
use crate::led::parser::spec_led_section_from;
use crate::parser::OpenDeckParseError;
use crate::Section;

verus! {

/// The wire form of an output section.
pub open spec fn spec_led_section_to(s: LedSection) -> Section {
    match s {
        LedSection::ActivationId(x) => Section { id: LED_SECTION_ACTIVATION_ID, value: x as u16 },
        LedSection::ActivationValue(x) => Section { id: LED_SECTION_ACTIVATION_VALUE, value: x as u16 },
        LedSection::State(x) => Section { id: LED_SECTION_STATE, value: spec_flag(x) },
        LedSection::ControlType(x) => Section { id: LED_SECTION_CONTROL_TYPE, value: x.spec_code() },
        LedSection::RGBEnabled(x) => Section { id: LED_SECTION_RGB_ENABLED, value: spec_flag(x) },
        LedSection::BlinkTesting(x) => Section { id: LED_SECTION_BLINK_TESTING, value: spec_flag(x) },
        LedSection::Channel(x) => Section { id: LED_SECTION_CHANNEL, value: x.spec_to_wire() },
        LedSection::Global(x) => Section { id: LED_SECTION_GLOBAL, value: x },
    }
}

impl LedSection {
    /// A section holds a value that its wire form can carry back.
    pub open spec fn wf(self) -> bool {
        self matches LedSection::Channel(c) ==> c.wf()
    }

    pub fn to_section(self) -> (r: Section)
        ensures r == spec_led_section_to(self),
    {
        match self {
            LedSection::ActivationId(x) => Section { id: LED_SECTION_ACTIVATION_ID, value: x as u16 },
            LedSection::ActivationValue(x) => Section { id: LED_SECTION_ACTIVATION_VALUE, value: x as u16 },
            LedSection::State(x) => Section { id: LED_SECTION_STATE, value: flag(x) },
            LedSection::ControlType(x) => Section { id: LED_SECTION_CONTROL_TYPE, value: x.code() },
            LedSection::RGBEnabled(x) => Section { id: LED_SECTION_RGB_ENABLED, value: flag(x) },
            LedSection::BlinkTesting(x) => Section { id: LED_SECTION_BLINK_TESTING, value: flag(x) },
            LedSection::Channel(x) => Section { id: LED_SECTION_CHANNEL, value: x.to_wire() },
            LedSection::Global(x) => Section { id: LED_SECTION_GLOBAL, value: x },
        }
    }
}

impl From<LedSection> for Section {
    fn from(s: LedSection) -> (r: Section) {
        s.to_section()
    }
}

impl vstd::std_specs::convert::FromSpecImpl<LedSection> for Section {
    open spec fn obeys_from_spec() -> bool {
        true
    }

    open spec fn from_spec(s: LedSection) -> Section {
        spec_led_section_to(s)
    }
}

/// Reading the wire form of an output section gives the section back.
pub proof fn lemma_led_section_roundtrip(s: LedSection)
    requires s.wf(),
    ensures spec_led_section_from(spec_led_section_to(s)) == Ok::<LedSection, OpenDeckParseError>(s),
{
    match s {
        LedSection::ControlType(t) => {
            assert(ControlType::spec_from_code(t.spec_code()) == Some(t));
        },
        _ => {},
    }
}

/// Setting a section and reading it back gives the section's wire value,
/// except for a global section, which an output does not hold and reads as 0.
pub proof fn lemma_led_set_get(l: Led, s: LedSection)
    ensures
        !(s is Global) ==> l.spec_set(s).spec_get(s) == spec_led_section_to(s).value,
        s is Global ==> l.spec_set(s).spec_get(s) == 0,
{
}


/// Setting one section leaves every section with another identifier reading
/// as before.
pub proof fn lemma_led_set_other(l: Led, s: LedSection, t: LedSection)
    requires spec_led_section_to(s).id != spec_led_section_to(t).id,
    ensures l.spec_set(s).spec_get(t) == l.spec_get(t),
{
    match s {
        LedSection::State(..) => {
            match t {
                LedSection::State(..) => {},
                LedSection::BlinkTesting(..) => {},
                LedSection::Global(..) => {},
                LedSection::ActivationId(..) => {},
                LedSection::ActivationValue(..) => {},
                LedSection::RGBEnabled(..) => {},
                LedSection::ControlType(..) => {},
                LedSection::Channel(..) => {},
            }
        },
        LedSection::BlinkTesting(..) => {
            match t {
                LedSection::State(..) => {},
                LedSection::BlinkTesting(..) => {},
                LedSection::Global(..) => {},
                LedSection::ActivationId(..) => {},
                LedSection::ActivationValue(..) => {},
                LedSection::RGBEnabled(..) => {},
                LedSection::ControlType(..) => {},
                LedSection::Channel(..) => {},
            }
        },
        LedSection::Global(..) => {
            match t {
                LedSection::State(..) => {},
                LedSection::BlinkTesting(..) => {},
                LedSection::Global(..) => {},
                LedSection::ActivationId(..) => {},
                LedSection::ActivationValue(..) => {},
                LedSection::RGBEnabled(..) => {},
                LedSection::ControlType(..) => {},
                LedSection::Channel(..) => {},
            }
        },
        LedSection::ActivationId(..) => {
            match t {
                LedSection::State(..) => {},
                LedSection::BlinkTesting(..) => {},
                LedSection::Global(..) => {},
                LedSection::ActivationId(..) => {},
                LedSection::ActivationValue(..) => {},
                LedSection::RGBEnabled(..) => {},
                LedSection::ControlType(..) => {},
                LedSection::Channel(..) => {},
            }
        },
        LedSection::ActivationValue(..) => {
            match t {
                LedSection::State(..) => {},
                LedSection::BlinkTesting(..) => {},
                LedSection::Global(..) => {},
                LedSection::ActivationId(..) => {},
                LedSection::ActivationValue(..) => {},
                LedSection::RGBEnabled(..) => {},
                LedSection::ControlType(..) => {},
                LedSection::Channel(..) => {},
            }
        },
        LedSection::RGBEnabled(..) => {
            match t {
                LedSection::State(..) => {},
                LedSection::BlinkTesting(..) => {},
                LedSection::Global(..) => {},
                LedSection::ActivationId(..) => {},
                LedSection::ActivationValue(..) => {},
                LedSection::RGBEnabled(..) => {},
                LedSection::ControlType(..) => {},
                LedSection::Channel(..) => {},
            }
        },
        LedSection::ControlType(..) => {
            match t {
                LedSection::State(..) => {},
                LedSection::BlinkTesting(..) => {},
                LedSection::Global(..) => {},
                LedSection::ActivationId(..) => {},
                LedSection::ActivationValue(..) => {},
                LedSection::RGBEnabled(..) => {},
                LedSection::ControlType(..) => {},
                LedSection::Channel(..) => {},
            }
        },
        LedSection::Channel(..) => {
            match t {
                LedSection::State(..) => {},
                LedSection::BlinkTesting(..) => {},
                LedSection::Global(..) => {},
                LedSection::ActivationId(..) => {},
                LedSection::ActivationValue(..) => {},
                LedSection::RGBEnabled(..) => {},
                LedSection::ControlType(..) => {},
                LedSection::Channel(..) => {},
            }
        },
    }
}

} // verus!
