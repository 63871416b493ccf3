use vstd::prelude::*;
use crate::button::{lemma_button_message_type_code, Button, ButtonSection, BUTTON_SECTION_CHANNEL, BUTTON_SECTION_MESSAGE_TYPE, BUTTON_SECTION_MIDI_ID, BUTTON_SECTION_TYPE, BUTTON_SECTION_VALUE};
use crate::button::parser::spec_button_section_from;
use crate::Section;

verus! {

/// The wire form of a button section.
pub open spec fn spec_button_section_to(s: ButtonSection) -> Section {
    match s {
        ButtonSection::Type(t) => Section { id: BUTTON_SECTION_TYPE, value: t.spec_code() },
        ButtonSection::MessageType(t) => Section { id: BUTTON_SECTION_MESSAGE_TYPE, value: t.spec_code() },
        ButtonSection::MidiId(v) => Section { id: BUTTON_SECTION_MIDI_ID, value: v as u16 },
        ButtonSection::Value(v) => Section { id: BUTTON_SECTION_VALUE, value: v as u16 },
        ButtonSection::Channel(c) => Section { id: BUTTON_SECTION_CHANNEL, value: c.spec_to_wire() },
    }
}

impl ButtonSection {
    /// A section holds a value that its wire form can carry back.
    pub open spec fn wf(self) -> bool {
        self matches ButtonSection::Channel(c) ==> c.wf()
    }

    pub fn to_section(self) -> (r: Section)
        ensures r == spec_button_section_to(self),
    {
        match self {
            ButtonSection::Type(t) => Section { id: BUTTON_SECTION_TYPE, value: t.code() },
            ButtonSection::MessageType(t) => Section { id: BUTTON_SECTION_MESSAGE_TYPE, value: t.code() },
            ButtonSection::MidiId(v) => Section { id: BUTTON_SECTION_MIDI_ID, value: v as u16 },
            ButtonSection::Value(v) => Section { id: BUTTON_SECTION_VALUE, value: v as u16 },
            ButtonSection::Channel(c) => Section { id: BUTTON_SECTION_CHANNEL, value: c.to_wire() },
        }
    }
}

impl From<ButtonSection> for Section {
    fn from(s: ButtonSection) -> (r: Section) {
        s.to_section()
    }
}

impl vstd::std_specs::convert::FromSpecImpl<ButtonSection> for Section {
    open spec fn obeys_from_spec() -> bool {
        true
    }

    open spec fn from_spec(s: ButtonSection) -> Section {
        spec_button_section_to(s)
    }
}

/// Reading the wire form of a button section gives the section back.
pub proof fn lemma_button_section_roundtrip(s: ButtonSection)
    requires s.wf(),
    ensures spec_button_section_from(spec_button_section_to(s)) == Ok::<ButtonSection, crate::parser::OpenDeckParseError>(s),
{
    match s {
        ButtonSection::Type(t) => {},
        ButtonSection::MessageType(t) => { lemma_button_message_type_code(t); },
        _ => {},
    }
}

/// Setting a section and reading it back gives the section's wire value.
pub proof fn lemma_button_set_get(b: Button, s: ButtonSection)
    ensures b.spec_set(s).spec_get(s) == spec_button_section_to(s).value,
{
}


/// Setting one section leaves every section with another identifier reading
/// as before.
pub proof fn lemma_button_set_other(b: Button, s: ButtonSection, t: ButtonSection)
    requires spec_button_section_to(s).id != spec_button_section_to(t).id,
    ensures b.spec_set(s).spec_get(t) == b.spec_get(t),
{
    match s {
        ButtonSection::Type(..) => {
            match t {
                ButtonSection::Type(..) => {},
                ButtonSection::MessageType(..) => {},
                ButtonSection::MidiId(..) => {},
                ButtonSection::Value(..) => {},
                ButtonSection::Channel(..) => {},
            }
        },
        ButtonSection::MessageType(..) => {
            match t {
                ButtonSection::Type(..) => {},
                ButtonSection::MessageType(..) => {},
                ButtonSection::MidiId(..) => {},
                ButtonSection::Value(..) => {},
                ButtonSection::Channel(..) => {},
            }
        },
        ButtonSection::MidiId(..) => {
            match t {
                ButtonSection::Type(..) => {},
                ButtonSection::MessageType(..) => {},
                ButtonSection::MidiId(..) => {},
                ButtonSection::Value(..) => {},
                ButtonSection::Channel(..) => {},
            }
        },
        ButtonSection::Value(..) => {
            match t {
                ButtonSection::Type(..) => {},
                ButtonSection::MessageType(..) => {},
                ButtonSection::MidiId(..) => {},
                ButtonSection::Value(..) => {},
                ButtonSection::Channel(..) => {},
            }
        },
        ButtonSection::Channel(..) => {
            match t {
                ButtonSection::Type(..) => {},
                ButtonSection::MessageType(..) => {},
                ButtonSection::MidiId(..) => {},
                ButtonSection::Value(..) => {},
                ButtonSection::Channel(..) => {},
            }
        },
    }
}

} // verus!
