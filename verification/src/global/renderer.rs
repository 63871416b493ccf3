//! The wire form of a section of the global block.
use vstd::prelude::*;
use crate::global::{GlobalSection, GlobalSectionId, MidiIndex, PresetIndex};
use crate::global::parser::spec_global_section_from;
use crate::parser::OpenDeckParseError;
use crate::Section;

verus! {

/// The index and the section that carry a global section.
pub open spec fn spec_global_section_to(g: GlobalSection) -> (u16, Section) {
    match g {
        GlobalSection::Midi(index, value) => (index.spec_code(), Section { id: GlobalSectionId::Midi.spec_code(), value }),
        GlobalSection::Presets(index, value) => (index.spec_code(), Section { id: GlobalSectionId::Presets.spec_code(), value }),
    }
}

impl GlobalSection {
    pub fn to_section(self) -> (r: (u16, Section))
        ensures r == spec_global_section_to(self),
    {
        match self {
            GlobalSection::Midi(index, value) => (index.code(), Section { id: GlobalSectionId::Midi.code(), value }),
            GlobalSection::Presets(index, value) => (index.code(), Section { id: GlobalSectionId::Presets.code(), value }),
        }
    }
}

impl From<GlobalSection> for (u16, Section) {
    fn from(g: GlobalSection) -> (r: (u16, Section)) {
        g.to_section()
    }
}

impl vstd::std_specs::convert::FromSpecImpl<GlobalSection> for (u16, Section) {
    open spec fn obeys_from_spec() -> bool {
        true
    }

    open spec fn from_spec(g: GlobalSection) -> (u16, Section) {
        spec_global_section_to(g)
    }
}

/// Reading the wire form of a global section gives the section back.
pub proof fn lemma_global_section_roundtrip(g: GlobalSection)
    ensures ({
        let (index, s) = spec_global_section_to(g);
        spec_global_section_from(index, s) == Ok::<GlobalSection, OpenDeckParseError>(g)
    }),
{
    match g {
        GlobalSection::Midi(index, value) => {
            assert(MidiIndex::spec_from_code(index.spec_code()) == Some(index));
        },
        GlobalSection::Presets(index, value) => {
            assert(PresetIndex::spec_from_code(index.spec_code()) == Some(index));
        },
    }
}

} // verus!
