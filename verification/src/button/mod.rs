//! Buttons: their configuration, its wire form, its backup, and the MIDI
//! messages a press or a release sends.
use vstd::prelude::*;
use crate::channel::ChannelOrAll;

pub mod backup;
pub mod handler;
pub mod parser;
pub mod renderer;

verus! {

/// What a latching button remembers between presses.
#[derive(Debug, Copy, Clone, PartialEq, Eq, Structural)]
pub struct ButtonState {
    /// Whether a latching button is on.
    pub latch_on: bool,
    /// The step of a multi value button.
    pub step: u8,
    /// Whether an increasing and decreasing multi value button counts down.
    pub step_down: bool,
}

impl Default for ButtonState {
    fn default() -> (r: Self)
        ensures r == (ButtonState { latch_on: false, step: 0, step_down: false }),
    {
        ButtonState { latch_on: false, step: 0, step_down: false }
    }
}

#[derive(Debug, Copy, Clone, PartialEq, Eq, Structural)]
pub struct Button {
    pub value: u8,
    pub midi_id: u8,
    pub message_type: ButtonMessageType,
    pub channel: ChannelOrAll,
    pub button_type: ButtonType,
    pub state: ButtonState,
}

#[derive(Debug, Copy, Clone, PartialEq, Eq, Structural)]
pub enum ButtonType {
    Momentary,
    Latching,
}

impl ButtonType {
    pub open spec fn spec_code(self) -> u16 {
        match self {
            ButtonType::Momentary => 0,
            ButtonType::Latching => 1,
        }
    }

    pub open spec fn spec_from_code(v: u16) -> Option<ButtonType> {
        if v == 0 {
            Some(ButtonType::Momentary)
        } else if v == 1 {
            Some(ButtonType::Latching)
        } else {
            None
        }
    }

    pub fn code(self) -> (r: u16)
        ensures r == self.spec_code(),
    {
        match self {
            ButtonType::Momentary => 0,
            ButtonType::Latching => 1,
        }
    }

    pub fn from_code(v: u16) -> (r: Option<ButtonType>)
        ensures r == Self::spec_from_code(v),
    {
        if v == 0 {
            Some(ButtonType::Momentary)
        } else if v == 1 {
            Some(ButtonType::Latching)
        } else {
            None
        }
    }
}

impl Default for ButtonType {
    fn default() -> (r: Self)
        ensures r == ButtonType::Momentary,
    {
        ButtonType::Momentary
    }
}

/// Section identifiers of the button block.
pub const BUTTON_SECTION_TYPE: u8 = 0;
pub const BUTTON_SECTION_MESSAGE_TYPE: u8 = 1;
pub const BUTTON_SECTION_MIDI_ID: u8 = 2;
pub const BUTTON_SECTION_VALUE: u8 = 3;
pub const BUTTON_SECTION_CHANNEL: u8 = 4;

#[derive(Debug, Copy, Clone, PartialEq, Eq, Structural)]
pub enum ButtonSection {
    Type(ButtonType),
    MessageType(ButtonMessageType),
    MidiId(u8),
    Value(u8),
    Channel(ChannelOrAll),
}

#[derive(Debug, Copy, Clone, PartialEq, Eq, Structural)]
pub enum ButtonMessageType {
    Notes,
    ProgramChange,
    ControlChange,
    ControlChangeWithReset,
    MMCStop,
    MMCPlay,
    MMCRecord,
    MMCPause,
    RealTimeClock,
    RealTimeStart,
    RealTimeContinue,
    RealTimeStop,
    RealTimeActiveSensing,
    RealTimeSystemReset,
    ProgramChangeIncr,
    ProgramChangeDecr,
    NoMessage,
    OpenDeckPresetChange,
    MultiValueIncResetNote,
    MultiValueIncDecNote,
    MultiValueIncResetCC,
    MultiValueIncDecCC,
    NoteOffOnly,
    ControlChangeWithValue0,
    Reserved,
    ProgramChangeOffsetIncr,
    ProgramChangeOffsetDecr,
    BPMIncr,
    BPMDecr,
}

impl ButtonMessageType {
    pub open spec fn spec_code(self) -> u16 {
        match self {
            ButtonMessageType::Notes => 0x00,
            ButtonMessageType::ProgramChange => 0x01,
            ButtonMessageType::ControlChange => 0x02,
            ButtonMessageType::ControlChangeWithReset => 0x03,
            ButtonMessageType::MMCStop => 0x04,
            ButtonMessageType::MMCPlay => 0x05,
            ButtonMessageType::MMCRecord => 0x06,
            ButtonMessageType::MMCPause => 0x07,
            ButtonMessageType::RealTimeClock => 0x08,
            ButtonMessageType::RealTimeStart => 0x09,
            ButtonMessageType::RealTimeContinue => 0x0A,
            ButtonMessageType::RealTimeStop => 0x0B,
            ButtonMessageType::RealTimeActiveSensing => 0x0C,
            ButtonMessageType::RealTimeSystemReset => 0x0D,
            ButtonMessageType::ProgramChangeIncr => 0x0E,
            ButtonMessageType::ProgramChangeDecr => 0x0F,
            ButtonMessageType::NoMessage => 0x10,
            ButtonMessageType::OpenDeckPresetChange => 0x11,
            ButtonMessageType::MultiValueIncResetNote => 0x12,
            ButtonMessageType::MultiValueIncDecNote => 0x13,
            ButtonMessageType::MultiValueIncResetCC => 0x14,
            ButtonMessageType::MultiValueIncDecCC => 0x15,
            ButtonMessageType::NoteOffOnly => 0x16,
            ButtonMessageType::ControlChangeWithValue0 => 0x17,
            ButtonMessageType::Reserved => 0x18,
            ButtonMessageType::ProgramChangeOffsetIncr => 0x19,
            ButtonMessageType::ProgramChangeOffsetDecr => 0x1A,
            ButtonMessageType::BPMIncr => 0x1B,
            ButtonMessageType::BPMDecr => 0x1C,
        }
    }

    pub open spec fn spec_from_code(v: u16) -> Option<ButtonMessageType> {
        if v == 0x00 { Some(ButtonMessageType::Notes) }
        else if v == 0x01 { Some(ButtonMessageType::ProgramChange) }
        else if v == 0x02 { Some(ButtonMessageType::ControlChange) }
        else if v == 0x03 { Some(ButtonMessageType::ControlChangeWithReset) }
        else if v == 0x04 { Some(ButtonMessageType::MMCStop) }
        else if v == 0x05 { Some(ButtonMessageType::MMCPlay) }
        else if v == 0x06 { Some(ButtonMessageType::MMCRecord) }
        else if v == 0x07 { Some(ButtonMessageType::MMCPause) }
        else if v == 0x08 { Some(ButtonMessageType::RealTimeClock) }
        else if v == 0x09 { Some(ButtonMessageType::RealTimeStart) }
        else if v == 0x0A { Some(ButtonMessageType::RealTimeContinue) }
        else if v == 0x0B { Some(ButtonMessageType::RealTimeStop) }
        else if v == 0x0C { Some(ButtonMessageType::RealTimeActiveSensing) }
        else if v == 0x0D { Some(ButtonMessageType::RealTimeSystemReset) }
        else if v == 0x0E { Some(ButtonMessageType::ProgramChangeIncr) }
        else if v == 0x0F { Some(ButtonMessageType::ProgramChangeDecr) }
        else if v == 0x10 { Some(ButtonMessageType::NoMessage) }
        else if v == 0x11 { Some(ButtonMessageType::OpenDeckPresetChange) }
        else if v == 0x12 { Some(ButtonMessageType::MultiValueIncResetNote) }
        else if v == 0x13 { Some(ButtonMessageType::MultiValueIncDecNote) }
        else if v == 0x14 { Some(ButtonMessageType::MultiValueIncResetCC) }
        else if v == 0x15 { Some(ButtonMessageType::MultiValueIncDecCC) }
        else if v == 0x16 { Some(ButtonMessageType::NoteOffOnly) }
        else if v == 0x17 { Some(ButtonMessageType::ControlChangeWithValue0) }
        else if v == 0x18 { Some(ButtonMessageType::Reserved) }
        else if v == 0x19 { Some(ButtonMessageType::ProgramChangeOffsetIncr) }
        else if v == 0x1A { Some(ButtonMessageType::ProgramChangeOffsetDecr) }
        else if v == 0x1B { Some(ButtonMessageType::BPMIncr) }
        else if v == 0x1C { Some(ButtonMessageType::BPMDecr) }
        else { None }
    }

    pub fn code(self) -> (r: u16)
        ensures r == self.spec_code(),
    {
        match self {
            ButtonMessageType::Notes => 0x00,
            ButtonMessageType::ProgramChange => 0x01,
            ButtonMessageType::ControlChange => 0x02,
            ButtonMessageType::ControlChangeWithReset => 0x03,
            ButtonMessageType::MMCStop => 0x04,
            ButtonMessageType::MMCPlay => 0x05,
            ButtonMessageType::MMCRecord => 0x06,
            ButtonMessageType::MMCPause => 0x07,
            ButtonMessageType::RealTimeClock => 0x08,
            ButtonMessageType::RealTimeStart => 0x09,
            ButtonMessageType::RealTimeContinue => 0x0A,
            ButtonMessageType::RealTimeStop => 0x0B,
            ButtonMessageType::RealTimeActiveSensing => 0x0C,
            ButtonMessageType::RealTimeSystemReset => 0x0D,
            ButtonMessageType::ProgramChangeIncr => 0x0E,
            ButtonMessageType::ProgramChangeDecr => 0x0F,
            ButtonMessageType::NoMessage => 0x10,
            ButtonMessageType::OpenDeckPresetChange => 0x11,
            ButtonMessageType::MultiValueIncResetNote => 0x12,
            ButtonMessageType::MultiValueIncDecNote => 0x13,
            ButtonMessageType::MultiValueIncResetCC => 0x14,
            ButtonMessageType::MultiValueIncDecCC => 0x15,
            ButtonMessageType::NoteOffOnly => 0x16,
            ButtonMessageType::ControlChangeWithValue0 => 0x17,
            ButtonMessageType::Reserved => 0x18,
            ButtonMessageType::ProgramChangeOffsetIncr => 0x19,
            ButtonMessageType::ProgramChangeOffsetDecr => 0x1A,
            ButtonMessageType::BPMIncr => 0x1B,
            ButtonMessageType::BPMDecr => 0x1C,
        }
    }

    pub fn from_code(v: u16) -> (r: Option<ButtonMessageType>)
        ensures r == Self::spec_from_code(v),
    {
        if v == 0x00 { Some(ButtonMessageType::Notes) }
        else if v == 0x01 { Some(ButtonMessageType::ProgramChange) }
        else if v == 0x02 { Some(ButtonMessageType::ControlChange) }
        else if v == 0x03 { Some(ButtonMessageType::ControlChangeWithReset) }
        else if v == 0x04 { Some(ButtonMessageType::MMCStop) }
        else if v == 0x05 { Some(ButtonMessageType::MMCPlay) }
        else if v == 0x06 { Some(ButtonMessageType::MMCRecord) }
        else if v == 0x07 { Some(ButtonMessageType::MMCPause) }
        else if v == 0x08 { Some(ButtonMessageType::RealTimeClock) }
        else if v == 0x09 { Some(ButtonMessageType::RealTimeStart) }
        else if v == 0x0A { Some(ButtonMessageType::RealTimeContinue) }
        else if v == 0x0B { Some(ButtonMessageType::RealTimeStop) }
        else if v == 0x0C { Some(ButtonMessageType::RealTimeActiveSensing) }
        else if v == 0x0D { Some(ButtonMessageType::RealTimeSystemReset) }
        else if v == 0x0E { Some(ButtonMessageType::ProgramChangeIncr) }
        else if v == 0x0F { Some(ButtonMessageType::ProgramChangeDecr) }
        else if v == 0x10 { Some(ButtonMessageType::NoMessage) }
        else if v == 0x11 { Some(ButtonMessageType::OpenDeckPresetChange) }
        else if v == 0x12 { Some(ButtonMessageType::MultiValueIncResetNote) }
        else if v == 0x13 { Some(ButtonMessageType::MultiValueIncDecNote) }
        else if v == 0x14 { Some(ButtonMessageType::MultiValueIncResetCC) }
        else if v == 0x15 { Some(ButtonMessageType::MultiValueIncDecCC) }
        else if v == 0x16 { Some(ButtonMessageType::NoteOffOnly) }
        else if v == 0x17 { Some(ButtonMessageType::ControlChangeWithValue0) }
        else if v == 0x18 { Some(ButtonMessageType::Reserved) }
        else if v == 0x19 { Some(ButtonMessageType::ProgramChangeOffsetIncr) }
        else if v == 0x1A { Some(ButtonMessageType::ProgramChangeOffsetDecr) }
        else if v == 0x1B { Some(ButtonMessageType::BPMIncr) }
        else if v == 0x1C { Some(ButtonMessageType::BPMDecr) }
        else { None }
    }
}

impl Default for ButtonMessageType {
    fn default() -> (r: Self)
        ensures r == ButtonMessageType::Notes,
    {
        ButtonMessageType::Notes
    }
}

/// Every message type code reads back as its type.
pub proof fn lemma_button_message_type_code(t: ButtonMessageType)
    ensures ButtonMessageType::spec_from_code(t.spec_code()) == Some(t),
{
}

impl Button {
    pub open spec fn spec_new(midi_id: u8) -> Button {
        Button {
            button_type: ButtonType::Momentary,
            value: 0x01,
            midi_id,
            message_type: ButtonMessageType::Notes,
            channel: ChannelOrAll::Channel(0),
            state: ButtonState { latch_on: false, step: 0, step_down: false },
        }
    }

    /// The configuration after setting one section.
    pub open spec fn spec_set(self, section: ButtonSection) -> Button {
        match section {
            ButtonSection::Type(t) => Button { button_type: t, ..self },
            ButtonSection::Value(v) => Button { value: v, ..self },
            ButtonSection::MidiId(id) => Button { midi_id: id, ..self },
            ButtonSection::MessageType(t) => Button { message_type: t, ..self },
            ButtonSection::Channel(c) => Button { channel: c, ..self },
        }
    }

    /// The wire value of the section that `section` names (its payload is ignored).
    pub open spec fn spec_get(self, section: ButtonSection) -> u16 {
        match section {
            ButtonSection::Type(_) => self.button_type.spec_code(),
            ButtonSection::MessageType(_) => self.message_type.spec_code(),
            ButtonSection::Value(_) => self.value as u16,
            ButtonSection::MidiId(_) => self.midi_id as u16,
            ButtonSection::Channel(_) => self.channel.spec_to_wire(),
        }
    }

    pub fn new(midi_id: u8) -> (r: Self)
        ensures r == Self::spec_new(midi_id),
    {
        Button {
            button_type: ButtonType::Momentary,
            value: 0x01,
            midi_id,
            message_type: ButtonMessageType::Notes,
            channel: ChannelOrAll::Channel(0),
            state: ButtonState { latch_on: false, step: 0, step_down: false },
        }
    }

    pub fn set(&mut self, section: ButtonSection)
        ensures *final(self) == old(self).spec_set(section),
    {
        match section {
            ButtonSection::Type(t) => self.button_type = t,
            ButtonSection::Value(v) => self.value = v,
            ButtonSection::MidiId(id) => self.midi_id = id,
            ButtonSection::MessageType(t) => self.message_type = t,
            ButtonSection::Channel(c) => self.channel = c,
        }
    }

    pub fn get(&self, section: ButtonSection) -> (r: u16)
        ensures r == self.spec_get(section),
    {
        match section {
            ButtonSection::Type(_) => self.button_type.code(),
            ButtonSection::MessageType(_) => self.message_type.code(),
            ButtonSection::Value(_) => self.value as u16,
            ButtonSection::MidiId(_) => self.midi_id as u16,
            ButtonSection::Channel(_) => self.channel.to_wire(),
        }
    }
}

impl Default for Button {
    fn default() -> (r: Self)
        ensures r == Button::spec_new(0),
    {
        Button::new(0)
    }
}


impl From<ButtonType> for u16 {
    fn from(v: ButtonType) -> (r: u16) {
        v.code()
    }
}

impl vstd::std_specs::convert::FromSpecImpl<ButtonType> for u16 {
    open spec fn obeys_from_spec() -> bool {
        true
    }

    open spec fn from_spec(v: ButtonType) -> u16 {
        v.spec_code()
    }
}

impl TryFrom<u16> for ButtonType {
    type Error = u16;

    /// The variant with code `v`, or `v` back when there is none.
    fn try_from(v: u16) -> (r: Result<ButtonType, u16>) {
        match ButtonType::from_code(v) {
            Some(x) => Ok(x),
            None => Err(v),
        }
    }
}

impl vstd::std_specs::convert::TryFromSpecImpl<u16> for ButtonType {
    open spec fn obeys_try_from_spec() -> bool {
        true
    }

    open spec fn try_from_spec(v: u16) -> Result<ButtonType, u16> {
        match ButtonType::spec_from_code(v) {
            Some(x) => Ok(x),
            None => Err(v),
        }
    }
}

impl From<ButtonMessageType> for u16 {
    fn from(v: ButtonMessageType) -> (r: u16) {
        v.code()
    }
}

impl vstd::std_specs::convert::FromSpecImpl<ButtonMessageType> for u16 {
    open spec fn obeys_from_spec() -> bool {
        true
    }

    open spec fn from_spec(v: ButtonMessageType) -> u16 {
        v.spec_code()
    }
}

impl TryFrom<u16> for ButtonMessageType {
    type Error = u16;

    /// The variant with code `v`, or `v` back when there is none.
    fn try_from(v: u16) -> (r: Result<ButtonMessageType, u16>) {
        match ButtonMessageType::from_code(v) {
            Some(x) => Ok(x),
            None => Err(v),
        }
    }
}

impl vstd::std_specs::convert::TryFromSpecImpl<u16> for ButtonMessageType {
    open spec fn obeys_try_from_spec() -> bool {
        true
    }

    open spec fn try_from_spec(v: u16) -> Result<ButtonMessageType, u16> {
        match ButtonMessageType::spec_from_code(v) {
            Some(x) => Ok(x),
            None => Err(v),
        }
    }
}

} // verus!
