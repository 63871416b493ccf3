//! The wire form of a section of the encoder block.
use vstd::prelude::*;
use crate::encoder::{Accelleration, Encoder, EncoderMessageType, EncoderSection, ENCODER_SECTION_ACCELLERATION, ENCODER_SECTION_CHANNEL, ENCODER_SECTION_ENABLED, ENCODER_SECTION_INVERT_STATE, ENCODER_SECTION_LOWER_LIMIT, ENCODER_SECTION_MESSAGE_TYPE, ENCODER_SECTION_MIDI_ID_LSB, ENCODER_SECTION_MIDI_ID_MSB, ENCODER_SECTION_PULSES_PER_STEP, ENCODER_SECTION_REMOTE_SYNC, ENCODER_SECTION_REPEATED_VALUE, ENCODER_SECTION_SECOND_MIDI_ID, ENCODER_SECTION_UPPER_LIMIT};
use crate::encoder::parser::spec_encoder_section_from;
use crate::global::{flag, spec_flag};
use crate::parser::OpenDeckParseError;
use crate::Section;

verus! {

/// The wire form of an encoder section.
pub open spec fn spec_encoder_section_to(s: EncoderSection) -> Section {
    match s {
        EncoderSection::Enabled(v) => Section { id: ENCODER_SECTION_ENABLED, value: spec_flag(v) },
        EncoderSection::RemoteSync(v) => Section { id: ENCODER_SECTION_REMOTE_SYNC, value: spec_flag(v) },
        EncoderSection::Inverted(v) => Section { id: ENCODER_SECTION_INVERT_STATE, value: spec_flag(v) },
        EncoderSection::Channel(v) => Section { id: ENCODER_SECTION_CHANNEL, value: v.spec_to_wire() },
        EncoderSection::MessageType(v) => Section { id: ENCODER_SECTION_MESSAGE_TYPE, value: v.spec_code() },
        EncoderSection::Accelleration(v) => Section { id: ENCODER_SECTION_ACCELLERATION, value: v.spec_code() },
        EncoderSection::PulsesPerStep(v) => Section { id: ENCODER_SECTION_PULSES_PER_STEP, value: v as u16 },
        EncoderSection::MidiIdLSB(v) => Section { id: ENCODER_SECTION_MIDI_ID_LSB, value: v },
        EncoderSection::MidiIdMSB(v) => Section { id: ENCODER_SECTION_MIDI_ID_MSB, value: v as u16 },
        EncoderSection::LowerLimit(v) => Section { id: ENCODER_SECTION_LOWER_LIMIT, value: v },
        EncoderSection::UpperLimit(v) => Section { id: ENCODER_SECTION_UPPER_LIMIT, value: v },
        EncoderSection::RepeatedValue(v) => Section { id: ENCODER_SECTION_REPEATED_VALUE, value: v },
        EncoderSection::SecondMidiId(v) => Section { id: ENCODER_SECTION_SECOND_MIDI_ID, value: v },
    }
}

impl EncoderSection {
    /// A section holds a value that its wire form can carry back.
    pub open spec fn wf(self) -> bool {
        self matches EncoderSection::Channel(c) ==> c.wf()
    }

    pub fn to_section(self) -> (r: Section)
        ensures r == spec_encoder_section_to(self),
    {
        match self {
            EncoderSection::Enabled(v) => Section { id: ENCODER_SECTION_ENABLED, value: flag(v) },
            EncoderSection::RemoteSync(v) => Section { id: ENCODER_SECTION_REMOTE_SYNC, value: flag(v) },
            EncoderSection::Inverted(v) => Section { id: ENCODER_SECTION_INVERT_STATE, value: flag(v) },
            EncoderSection::Channel(v) => Section { id: ENCODER_SECTION_CHANNEL, value: v.to_wire() },
            EncoderSection::MessageType(v) => Section { id: ENCODER_SECTION_MESSAGE_TYPE, value: v.code() },
            EncoderSection::Accelleration(v) => Section { id: ENCODER_SECTION_ACCELLERATION, value: v.code() },
            EncoderSection::PulsesPerStep(v) => Section { id: ENCODER_SECTION_PULSES_PER_STEP, value: v as u16 },
            EncoderSection::MidiIdLSB(v) => Section { id: ENCODER_SECTION_MIDI_ID_LSB, value: v },
            EncoderSection::MidiIdMSB(v) => Section { id: ENCODER_SECTION_MIDI_ID_MSB, value: v as u16 },
            EncoderSection::LowerLimit(v) => Section { id: ENCODER_SECTION_LOWER_LIMIT, value: v },
            EncoderSection::UpperLimit(v) => Section { id: ENCODER_SECTION_UPPER_LIMIT, value: v },
            EncoderSection::RepeatedValue(v) => Section { id: ENCODER_SECTION_REPEATED_VALUE, value: v },
            EncoderSection::SecondMidiId(v) => Section { id: ENCODER_SECTION_SECOND_MIDI_ID, value: v },
        }
    }
}

impl From<EncoderSection> for Section {
    fn from(s: EncoderSection) -> (r: Section) {
        s.to_section()
    }
}

impl vstd::std_specs::convert::FromSpecImpl<EncoderSection> for Section {
    open spec fn obeys_from_spec() -> bool {
        true
    }

    open spec fn from_spec(s: EncoderSection) -> Section {
        spec_encoder_section_to(s)
    }
}

/// Reading the wire form of an encoder section gives the section back.
pub proof fn lemma_encoder_section_roundtrip(s: EncoderSection)
    requires s.wf(),
    ensures spec_encoder_section_from(spec_encoder_section_to(s)) == Ok::<EncoderSection, OpenDeckParseError>(s),
{
    match s {
        EncoderSection::MessageType(t) => {
            assert(EncoderMessageType::spec_from_code(t.spec_code()) == Some(t));
        },
        EncoderSection::Accelleration(a) => {
            assert(Accelleration::spec_from_code(a.spec_code()) == Some(a));
        },
        _ => {},
    }
}

/// Setting a section and reading it back gives the section's wire value,
/// except for the high half of the MIDI id, which reads back as 0.
pub proof fn lemma_encoder_set_get(e: Encoder, s: EncoderSection)
    ensures
        !(s is MidiIdMSB) ==> e.spec_set(s).spec_get(s) == spec_encoder_section_to(s).value,
        s is MidiIdMSB ==> e.spec_set(s).spec_get(s) == 0,
{
}


/// Setting one section leaves every section with another identifier reading
/// as before.
pub proof fn lemma_encoder_set_other(e: Encoder, s: EncoderSection, t: EncoderSection)
    requires spec_encoder_section_to(s).id != spec_encoder_section_to(t).id,
    ensures e.spec_set(s).spec_get(t) == e.spec_get(t),
{
    match s {
        EncoderSection::Enabled(..) => {
            match t {
                EncoderSection::Enabled(..) => {},
                EncoderSection::Inverted(..) => {},
                EncoderSection::MessageType(..) => {},
                EncoderSection::MidiIdLSB(..) => {},
                EncoderSection::Channel(..) => {},
                EncoderSection::PulsesPerStep(..) => {},
                EncoderSection::Accelleration(..) => {},
                EncoderSection::MidiIdMSB(..) => {},
                EncoderSection::RemoteSync(..) => {},
                EncoderSection::LowerLimit(..) => {},
                EncoderSection::UpperLimit(..) => {},
                EncoderSection::RepeatedValue(..) => {},
                EncoderSection::SecondMidiId(..) => {},
            }
        },
        EncoderSection::Inverted(..) => {
            match t {
                EncoderSection::Enabled(..) => {},
                EncoderSection::Inverted(..) => {},
                EncoderSection::MessageType(..) => {},
                EncoderSection::MidiIdLSB(..) => {},
                EncoderSection::Channel(..) => {},
                EncoderSection::PulsesPerStep(..) => {},
                EncoderSection::Accelleration(..) => {},
                EncoderSection::MidiIdMSB(..) => {},
                EncoderSection::RemoteSync(..) => {},
                EncoderSection::LowerLimit(..) => {},
                EncoderSection::UpperLimit(..) => {},
                EncoderSection::RepeatedValue(..) => {},
                EncoderSection::SecondMidiId(..) => {},
            }
        },
        EncoderSection::MessageType(..) => {
            match t {
                EncoderSection::Enabled(..) => {},
                EncoderSection::Inverted(..) => {},
                EncoderSection::MessageType(..) => {},
                EncoderSection::MidiIdLSB(..) => {},
                EncoderSection::Channel(..) => {},
                EncoderSection::PulsesPerStep(..) => {},
                EncoderSection::Accelleration(..) => {},
                EncoderSection::MidiIdMSB(..) => {},
                EncoderSection::RemoteSync(..) => {},
                EncoderSection::LowerLimit(..) => {},
                EncoderSection::UpperLimit(..) => {},
                EncoderSection::RepeatedValue(..) => {},
                EncoderSection::SecondMidiId(..) => {},
            }
        },
        EncoderSection::MidiIdLSB(..) => {
            match t {
                EncoderSection::Enabled(..) => {},
                EncoderSection::Inverted(..) => {},
                EncoderSection::MessageType(..) => {},
                EncoderSection::MidiIdLSB(..) => {},
                EncoderSection::Channel(..) => {},
                EncoderSection::PulsesPerStep(..) => {},
                EncoderSection::Accelleration(..) => {},
                EncoderSection::MidiIdMSB(..) => {},
                EncoderSection::RemoteSync(..) => {},
                EncoderSection::LowerLimit(..) => {},
                EncoderSection::UpperLimit(..) => {},
                EncoderSection::RepeatedValue(..) => {},
                EncoderSection::SecondMidiId(..) => {},
            }
        },
        EncoderSection::Channel(..) => {
            match t {
                EncoderSection::Enabled(..) => {},
                EncoderSection::Inverted(..) => {},
                EncoderSection::MessageType(..) => {},
                EncoderSection::MidiIdLSB(..) => {},
                EncoderSection::Channel(..) => {},
                EncoderSection::PulsesPerStep(..) => {},
                EncoderSection::Accelleration(..) => {},
                EncoderSection::MidiIdMSB(..) => {},
                EncoderSection::RemoteSync(..) => {},
                EncoderSection::LowerLimit(..) => {},
                EncoderSection::UpperLimit(..) => {},
                EncoderSection::RepeatedValue(..) => {},
                EncoderSection::SecondMidiId(..) => {},
            }
        },
        EncoderSection::PulsesPerStep(..) => {
            match t {
                EncoderSection::Enabled(..) => {},
                EncoderSection::Inverted(..) => {},
                EncoderSection::MessageType(..) => {},
                EncoderSection::MidiIdLSB(..) => {},
                EncoderSection::Channel(..) => {},
                EncoderSection::PulsesPerStep(..) => {},
                EncoderSection::Accelleration(..) => {},
                EncoderSection::MidiIdMSB(..) => {},
                EncoderSection::RemoteSync(..) => {},
                EncoderSection::LowerLimit(..) => {},
                EncoderSection::UpperLimit(..) => {},
                EncoderSection::RepeatedValue(..) => {},
                EncoderSection::SecondMidiId(..) => {},
            }
        },
        EncoderSection::Accelleration(..) => {
            match t {
                EncoderSection::Enabled(..) => {},
                EncoderSection::Inverted(..) => {},
                EncoderSection::MessageType(..) => {},
                EncoderSection::MidiIdLSB(..) => {},
                EncoderSection::Channel(..) => {},
                EncoderSection::PulsesPerStep(..) => {},
                EncoderSection::Accelleration(..) => {},
                EncoderSection::MidiIdMSB(..) => {},
                EncoderSection::RemoteSync(..) => {},
                EncoderSection::LowerLimit(..) => {},
                EncoderSection::UpperLimit(..) => {},
                EncoderSection::RepeatedValue(..) => {},
                EncoderSection::SecondMidiId(..) => {},
            }
        },
        EncoderSection::MidiIdMSB(..) => {
            match t {
                EncoderSection::Enabled(..) => {},
                EncoderSection::Inverted(..) => {},
                EncoderSection::MessageType(..) => {},
                EncoderSection::MidiIdLSB(..) => {},
                EncoderSection::Channel(..) => {},
                EncoderSection::PulsesPerStep(..) => {},
                EncoderSection::Accelleration(..) => {},
                EncoderSection::MidiIdMSB(..) => {},
                EncoderSection::RemoteSync(..) => {},
                EncoderSection::LowerLimit(..) => {},
                EncoderSection::UpperLimit(..) => {},
                EncoderSection::RepeatedValue(..) => {},
                EncoderSection::SecondMidiId(..) => {},
            }
        },
        EncoderSection::RemoteSync(..) => {
            match t {
                EncoderSection::Enabled(..) => {},
                EncoderSection::Inverted(..) => {},
                EncoderSection::MessageType(..) => {},
                EncoderSection::MidiIdLSB(..) => {},
                EncoderSection::Channel(..) => {},
                EncoderSection::PulsesPerStep(..) => {},
                EncoderSection::Accelleration(..) => {},
                EncoderSection::MidiIdMSB(..) => {},
                EncoderSection::RemoteSync(..) => {},
                EncoderSection::LowerLimit(..) => {},
                EncoderSection::UpperLimit(..) => {},
                EncoderSection::RepeatedValue(..) => {},
                EncoderSection::SecondMidiId(..) => {},
            }
        },
        EncoderSection::LowerLimit(..) => {
            match t {
                EncoderSection::Enabled(..) => {},
                EncoderSection::Inverted(..) => {},
                EncoderSection::MessageType(..) => {},
                EncoderSection::MidiIdLSB(..) => {},
                EncoderSection::Channel(..) => {},
                EncoderSection::PulsesPerStep(..) => {},
                EncoderSection::Accelleration(..) => {},
                EncoderSection::MidiIdMSB(..) => {},
                EncoderSection::RemoteSync(..) => {},
                EncoderSection::LowerLimit(..) => {},
                EncoderSection::UpperLimit(..) => {},
                EncoderSection::RepeatedValue(..) => {},
                EncoderSection::SecondMidiId(..) => {},
            }
        },
        EncoderSection::UpperLimit(..) => {
            match t {
                EncoderSection::Enabled(..) => {},
                EncoderSection::Inverted(..) => {},
                EncoderSection::MessageType(..) => {},
                EncoderSection::MidiIdLSB(..) => {},
                EncoderSection::Channel(..) => {},
                EncoderSection::PulsesPerStep(..) => {},
                EncoderSection::Accelleration(..) => {},
                EncoderSection::MidiIdMSB(..) => {},
                EncoderSection::RemoteSync(..) => {},
                EncoderSection::LowerLimit(..) => {},
                EncoderSection::UpperLimit(..) => {},
                EncoderSection::RepeatedValue(..) => {},
                EncoderSection::SecondMidiId(..) => {},
            }
        },
        EncoderSection::RepeatedValue(..) => {
            match t {
                EncoderSection::Enabled(..) => {},
                EncoderSection::Inverted(..) => {},
                EncoderSection::MessageType(..) => {},
                EncoderSection::MidiIdLSB(..) => {},
                EncoderSection::Channel(..) => {},
                EncoderSection::PulsesPerStep(..) => {},
                EncoderSection::Accelleration(..) => {},
                EncoderSection::MidiIdMSB(..) => {},
                EncoderSection::RemoteSync(..) => {},
                EncoderSection::LowerLimit(..) => {},
                EncoderSection::UpperLimit(..) => {},
                EncoderSection::RepeatedValue(..) => {},
                EncoderSection::SecondMidiId(..) => {},
            }
        },
        EncoderSection::SecondMidiId(..) => {
            match t {
                EncoderSection::Enabled(..) => {},
                EncoderSection::Inverted(..) => {},
                EncoderSection::MessageType(..) => {},
                EncoderSection::MidiIdLSB(..) => {},
                EncoderSection::Channel(..) => {},
                EncoderSection::PulsesPerStep(..) => {},
                EncoderSection::Accelleration(..) => {},
                EncoderSection::MidiIdMSB(..) => {},
                EncoderSection::RemoteSync(..) => {},
                EncoderSection::LowerLimit(..) => {},
                EncoderSection::UpperLimit(..) => {},
                EncoderSection::RepeatedValue(..) => {},
                EncoderSection::SecondMidiId(..) => {},
            }
        },
    }
}

} // verus!
