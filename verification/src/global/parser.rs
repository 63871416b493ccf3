//! Reading a section of the global block from its wire form.
use vstd::prelude::*;
use crate::global::{GlobalSection, GlobalSectionId, MidiIndex, PresetIndex};
use crate::parser::OpenDeckParseError;
use crate::{MessageStatus, Section};

verus! {

/// Reads a global section from the index and the section of a request.
pub open spec fn spec_global_section_from(index: u16, s: Section) -> Result<GlobalSection, OpenDeckParseError> {
    match GlobalSectionId::spec_from_code(s.id) {
        Some(GlobalSectionId::Midi) => match MidiIndex::spec_from_code(index) {
            Some(mi) => Ok(GlobalSection::Midi(mi, s.value)),
            None => Err(OpenDeckParseError::StatusError(MessageStatus::IndexError)),
        },
        Some(GlobalSectionId::Presets) => match PresetIndex::spec_from_code(index) {
            Some(pi) => Ok(GlobalSection::Presets(pi, s.value)),
            None => Err(OpenDeckParseError::StatusError(MessageStatus::IndexError)),
        },
        None => Err(OpenDeckParseError::StatusError(MessageStatus::SectionError)),
    }
}

impl GlobalSection {
    pub fn try_from_section(index: u16, s: Section) -> (r: Result<GlobalSection, OpenDeckParseError>)
        ensures r == spec_global_section_from(index, s),
    {
        match GlobalSectionId::from_code(s.id) {
            Some(GlobalSectionId::Midi) => match MidiIndex::from_code(index) {
                Some(mi) => Ok(GlobalSection::Midi(mi, s.value)),
                None => Err(OpenDeckParseError::StatusError(MessageStatus::IndexError)),
            },
            Some(GlobalSectionId::Presets) => match PresetIndex::from_code(index) {
                Some(pi) => Ok(GlobalSection::Presets(pi, s.value)),
                None => Err(OpenDeckParseError::StatusError(MessageStatus::IndexError)),
            },
            None => Err(OpenDeckParseError::StatusError(MessageStatus::SectionError)),
        }
    }
}

impl TryFrom<(u16, Section)> for GlobalSection {
    type Error = OpenDeckParseError;

    fn try_from(v: (u16, Section)) -> (r: Result<GlobalSection, OpenDeckParseError>) {
        GlobalSection::try_from_section(v.0, v.1)
    }
}

impl vstd::std_specs::convert::TryFromSpecImpl<(u16, Section)> for GlobalSection {
    open spec fn obeys_try_from_spec() -> bool {
        true
    }

    open spec fn try_from_spec(v: (u16, Section)) -> Result<GlobalSection, OpenDeckParseError> {
        spec_global_section_from(v.0, v.1)
    }
}

} // verus!
