//! Outputs (LEDs): their configuration, its wire form, its backup, and how
//! incoming MIDI drives them.
use vstd::prelude::*;
use crate::channel::ChannelOrAll;
use crate::global::{flag, spec_flag};

pub mod backup;
pub mod handler;
pub mod parser;
pub mod renderer;

verus! {

#[derive(Debug, Copy, Clone, PartialEq, Eq, Structural)]
pub struct Led {
    /// Whether the output is on.
    pub state: bool,
    /// The level of a multi value output.
    pub level: u8,
    pub color: Color,
    pub blink_testing: bool,
    pub activation_id: u8,
    pub activation_value: u8,
    pub rgb_enabled: bool,
    pub control_type: ControlType,
    pub channel: ChannelOrAll,
}

/// Settings shared by all outputs.
#[derive(Debug, Copy, Clone, PartialEq, Eq, Structural)]
pub struct GlobalLed {
    pub blink_with_midi_clock: bool,
    pub startup_animation: bool,
    pub midi_program_change_offset: bool,
}

impl Default for GlobalLed {
    fn default() -> (r: Self)
        ensures r == (GlobalLed { blink_with_midi_clock: false, startup_animation: false, midi_program_change_offset: false }),
    {
        GlobalLed { blink_with_midi_clock: false, startup_animation: false, midi_program_change_offset: false }
    }
}

impl GlobalLed {
    pub open spec fn spec_set(self, index: LedIndex, value: u16) -> GlobalLed {
        match index {
            LedIndex::BlinkWithMIDIClock => GlobalLed { blink_with_midi_clock: value > 0, ..self },
            LedIndex::EnableStartupAnimation => GlobalLed { startup_animation: value > 0, ..self },
            LedIndex::UseMidiProgramChangeOffset => GlobalLed { midi_program_change_offset: value > 0, ..self },
        }
    }

    pub open spec fn spec_get(self, index: LedIndex) -> u16 {
        match index {
            LedIndex::BlinkWithMIDIClock => spec_flag(self.blink_with_midi_clock),
            LedIndex::EnableStartupAnimation => spec_flag(self.startup_animation),
            LedIndex::UseMidiProgramChangeOffset => spec_flag(self.midi_program_change_offset),
        }
    }

    pub fn set(&mut self, index: LedIndex, value: u16)
        ensures *final(self) == old(self).spec_set(index, value),
    {
        match index {
            LedIndex::BlinkWithMIDIClock => self.blink_with_midi_clock = value > 0,
            LedIndex::EnableStartupAnimation => self.startup_animation = value > 0,
            LedIndex::UseMidiProgramChangeOffset => self.midi_program_change_offset = value > 0,
        }
    }

    pub fn get(&self, index: LedIndex) -> (r: u16)
        ensures r == self.spec_get(index),
    {
        match index {
            LedIndex::BlinkWithMIDIClock => flag(self.blink_with_midi_clock),
            LedIndex::EnableStartupAnimation => flag(self.startup_animation),
            LedIndex::UseMidiProgramChangeOffset => flag(self.midi_program_change_offset),
        }
    }
}

impl Led {
    pub open spec fn spec_new(activation_id: u8) -> Led {
        Led {
            state: false,
            level: 0,
            color: Color::Off,
            blink_testing: false,
            activation_id,
            activation_value: 0,
            rgb_enabled: true,
            control_type: ControlType::MidiInNoteSingleValue,
            channel: ChannelOrAll::Channel(0),
        }
    }

    /// The configuration after setting one section; a global section leaves
    /// the output alone.
    pub open spec fn spec_set(self, section: LedSection) -> Led {
        match section {
            LedSection::State(v) => Led { state: v, ..self },
            LedSection::BlinkTesting(v) => Led { blink_testing: v, ..self },
            LedSection::RGBEnabled(v) => Led { rgb_enabled: v, ..self },
            LedSection::ControlType(v) => Led { control_type: v, ..self },
            LedSection::ActivationId(v) => Led { activation_id: v, ..self },
            LedSection::ActivationValue(v) => Led { activation_value: v, ..self },
            LedSection::Channel(v) => Led { channel: v, ..self },
            LedSection::Global(_) => self,
        }
    }

    /// The wire value of the section that `section` names (its payload is ignored).
    pub open spec fn spec_get(self, section: LedSection) -> u16 {
        match section {
            LedSection::State(_) => spec_flag(self.state),
            LedSection::BlinkTesting(_) => spec_flag(self.blink_testing),
            LedSection::RGBEnabled(_) => spec_flag(self.rgb_enabled),
            LedSection::ControlType(_) => self.control_type.spec_code(),
            LedSection::ActivationId(_) => self.activation_id as u16,
            LedSection::ActivationValue(_) => self.activation_value as u16,
            LedSection::Channel(_) => self.channel.spec_to_wire(),
            LedSection::Global(_) => 0,
        }
    }

    pub fn new(activation_id: u8) -> (r: Self)
        ensures r == Self::spec_new(activation_id),
    {
        Led {
            state: false,
            level: 0,
            color: Color::Off,
            blink_testing: false,
            activation_id,
            activation_value: 0,
            rgb_enabled: true,
            control_type: ControlType::MidiInNoteSingleValue,
            channel: ChannelOrAll::Channel(0),
        }
    }

    pub fn set(&mut self, section: LedSection)
        ensures *final(self) == old(self).spec_set(section),
    {
        match section {
            LedSection::State(v) => self.state = v,
            LedSection::BlinkTesting(v) => self.blink_testing = v,
            LedSection::RGBEnabled(v) => self.rgb_enabled = v,
            LedSection::ControlType(v) => self.control_type = v,
            LedSection::ActivationId(v) => self.activation_id = v,
            LedSection::ActivationValue(v) => self.activation_value = v,
            LedSection::Channel(v) => self.channel = v,
            LedSection::Global(_) => {},
        }
    }

    pub fn get(&self, section: LedSection) -> (r: u16)
        ensures r == self.spec_get(section),
    {
        match section {
            LedSection::State(_) => flag(self.state),
            LedSection::BlinkTesting(_) => flag(self.blink_testing),
            LedSection::RGBEnabled(_) => flag(self.rgb_enabled),
            LedSection::ControlType(_) => self.control_type.code(),
            LedSection::ActivationId(_) => self.activation_id as u16,
            LedSection::ActivationValue(_) => self.activation_value as u16,
            LedSection::Channel(_) => self.channel.to_wire(),
            LedSection::Global(_) => 0,
        }
    }

    /// Turns the output on or off.
    pub fn set_state(&mut self, on: bool)
        ensures *final(self) == (Led { state: on, ..*old(self) }),
    {
        self.state = on;
    }

    /// Whether the output is on.
    pub fn is_on(&self) -> (r: bool)
        ensures r == self.state,
    {
        self.state
    }

    pub fn set_level(&mut self, level: u8)
        ensures *final(self) == (Led { level, ..*old(self) }),
    {
        self.level = level;
    }

    pub fn get_level(&self) -> (r: u8)
        ensures r == self.level,
    {
        self.level
    }

    pub fn set_color(&mut self, color: Color)
        ensures *final(self) == (Led { color, ..*old(self) }),
    {
        self.color = color;
    }

    pub fn get_color(&self) -> (r: Color)
        ensures r == self.color,
    {
        self.color
    }
}

impl Default for Led {
    fn default() -> (r: Self)
        ensures r == Led::spec_new(0),
    {
        Led::new(0)
    }
}

/// Colour of an RGB output.
#[derive(Debug, Copy, Clone, PartialEq, Eq, Structural)]
pub enum Color {
    Off,
    Red,
    Green,
    Yellow,
    Blue,
    Magenta,
    Cyan,
    White,
}

impl Color {
    pub open spec fn spec_code(self) -> u16 {
        match self {
            Color::Off => 0,
            Color::Red => 1,
            Color::Green => 2,
            Color::Yellow => 3,
            Color::Blue => 4,
            Color::Magenta => 5,
            Color::Cyan => 6,
            Color::White => 7,
        }
    }

    pub open spec fn spec_from_code(v: u16) -> Option<Color> {
        if v == 0 { Some(Color::Off) }
        else if v == 1 { Some(Color::Red) }
        else if v == 2 { Some(Color::Green) }
        else if v == 3 { Some(Color::Yellow) }
        else if v == 4 { Some(Color::Blue) }
        else if v == 5 { Some(Color::Magenta) }
        else if v == 6 { Some(Color::Cyan) }
        else if v == 7 { Some(Color::White) }
        else { None }
    }

    pub fn code(self) -> (r: u16)
        ensures r == self.spec_code(),
    {
        match self {
            Color::Off => 0,
            Color::Red => 1,
            Color::Green => 2,
            Color::Yellow => 3,
            Color::Blue => 4,
            Color::Magenta => 5,
            Color::Cyan => 6,
            Color::White => 7,
        }
    }

    pub fn from_code(v: u16) -> (r: Option<Color>)
        ensures r == Self::spec_from_code(v),
    {
        if v == 0 { Some(Color::Off) }
        else if v == 1 { Some(Color::Red) }
        else if v == 2 { Some(Color::Green) }
        else if v == 3 { Some(Color::Yellow) }
        else if v == 4 { Some(Color::Blue) }
        else if v == 5 { Some(Color::Magenta) }
        else if v == 6 { Some(Color::Cyan) }
        else if v == 7 { Some(Color::White) }
        else { None }
    }
}

impl Default for Color {
    fn default() -> (r: Self)
        ensures r == Color::Off,
    {
        Color::Off
    }
}

/// What drives an output.
#[derive(Debug, Copy, Clone, PartialEq, Eq, Structural)]
pub enum ControlType {
    MidiInNoteSingleValue,
    LocalNoteSingleValue,
    MidiInCcSingleValue,
    LocalCcSingleValue,
    ProgramChange,
    PresetChange,
    MidiInNoteMultiValue,
    LocalNoteMultiValue,
    MidiInCcMultiValue,
    LocalCcMultiValue,
    Static,
}

impl ControlType {
    pub open spec fn spec_code(self) -> u16 {
        match self {
            ControlType::MidiInNoteSingleValue => 0,
            ControlType::LocalNoteSingleValue => 1,
            ControlType::MidiInCcSingleValue => 2,
            ControlType::LocalCcSingleValue => 3,
            ControlType::ProgramChange => 4,
            ControlType::PresetChange => 5,
            ControlType::MidiInNoteMultiValue => 6,
            ControlType::LocalNoteMultiValue => 7,
            ControlType::MidiInCcMultiValue => 8,
            ControlType::LocalCcMultiValue => 9,
            ControlType::Static => 10,
        }
    }

    pub open spec fn spec_from_code(v: u16) -> Option<ControlType> {
        if v == 0 { Some(ControlType::MidiInNoteSingleValue) }
        else if v == 1 { Some(ControlType::LocalNoteSingleValue) }
        else if v == 2 { Some(ControlType::MidiInCcSingleValue) }
        else if v == 3 { Some(ControlType::LocalCcSingleValue) }
        else if v == 4 { Some(ControlType::ProgramChange) }
        else if v == 5 { Some(ControlType::PresetChange) }
        else if v == 6 { Some(ControlType::MidiInNoteMultiValue) }
        else if v == 7 { Some(ControlType::LocalNoteMultiValue) }
        else if v == 8 { Some(ControlType::MidiInCcMultiValue) }
        else if v == 9 { Some(ControlType::LocalCcMultiValue) }
        else if v == 10 { Some(ControlType::Static) }
        else { None }
    }

    pub fn code(self) -> (r: u16)
        ensures r == self.spec_code(),
    {
        match self {
            ControlType::MidiInNoteSingleValue => 0,
            ControlType::LocalNoteSingleValue => 1,
            ControlType::MidiInCcSingleValue => 2,
            ControlType::LocalCcSingleValue => 3,
            ControlType::ProgramChange => 4,
            ControlType::PresetChange => 5,
            ControlType::MidiInNoteMultiValue => 6,
            ControlType::LocalNoteMultiValue => 7,
            ControlType::MidiInCcMultiValue => 8,
            ControlType::LocalCcMultiValue => 9,
            ControlType::Static => 10,
        }
    }

    pub fn from_code(v: u16) -> (r: Option<ControlType>)
        ensures r == Self::spec_from_code(v),
    {
        if v == 0 { Some(ControlType::MidiInNoteSingleValue) }
        else if v == 1 { Some(ControlType::LocalNoteSingleValue) }
        else if v == 2 { Some(ControlType::MidiInCcSingleValue) }
        else if v == 3 { Some(ControlType::LocalCcSingleValue) }
        else if v == 4 { Some(ControlType::ProgramChange) }
        else if v == 5 { Some(ControlType::PresetChange) }
        else if v == 6 { Some(ControlType::MidiInNoteMultiValue) }
        else if v == 7 { Some(ControlType::LocalNoteMultiValue) }
        else if v == 8 { Some(ControlType::MidiInCcMultiValue) }
        else if v == 9 { Some(ControlType::LocalCcMultiValue) }
        else if v == 10 { Some(ControlType::Static) }
        else { None }
    }
}

impl Default for ControlType {
    fn default() -> (r: Self)
        ensures r == ControlType::MidiInNoteSingleValue,
    {
        ControlType::MidiInNoteSingleValue
    }
}

/// Indices of the global output settings (1 is no longer in use).
#[derive(Debug, Copy, Clone, PartialEq, Eq, Structural)]
pub enum LedIndex {
    BlinkWithMIDIClock,
    EnableStartupAnimation,
    UseMidiProgramChangeOffset,
}

impl LedIndex {
    pub open spec fn spec_code(self) -> u16 {
        match self {
            LedIndex::BlinkWithMIDIClock => 0,
            LedIndex::EnableStartupAnimation => 2,
            LedIndex::UseMidiProgramChangeOffset => 3,
        }
    }

    pub open spec fn spec_from_code(v: u16) -> Option<LedIndex> {
        if v == 0 { Some(LedIndex::BlinkWithMIDIClock) }
        else if v == 2 { Some(LedIndex::EnableStartupAnimation) }
        else if v == 3 { Some(LedIndex::UseMidiProgramChangeOffset) }
        else { None }
    }

    pub fn code(self) -> (r: u16)
        ensures r == self.spec_code(),
    {
        match self {
            LedIndex::BlinkWithMIDIClock => 0,
            LedIndex::EnableStartupAnimation => 2,
            LedIndex::UseMidiProgramChangeOffset => 3,
        }
    }

    pub fn from_code(v: u16) -> (r: Option<LedIndex>)
        ensures r == Self::spec_from_code(v),
    {
        if v == 0 { Some(LedIndex::BlinkWithMIDIClock) }
        else if v == 2 { Some(LedIndex::EnableStartupAnimation) }
        else if v == 3 { Some(LedIndex::UseMidiProgramChangeOffset) }
        else { None }
    }
}

/// Section identifiers of the output block.
pub const LED_SECTION_STATE: u8 = 0;
pub const LED_SECTION_BLINK_TESTING: u8 = 1;
pub const LED_SECTION_GLOBAL: u8 = 2;
pub const LED_SECTION_ACTIVATION_ID: u8 = 3;
pub const LED_SECTION_RGB_ENABLED: u8 = 4;
pub const LED_SECTION_CONTROL_TYPE: u8 = 5;
pub const LED_SECTION_ACTIVATION_VALUE: u8 = 6;
pub const LED_SECTION_CHANNEL: u8 = 7;

#[derive(Debug, Copy, Clone, PartialEq, Eq, Structural)]
pub enum LedSection {
    State(bool),
    BlinkTesting(bool),
    Global(u16),
    ActivationId(u8),
    ActivationValue(u8),
    RGBEnabled(bool),
    ControlType(ControlType),
    Channel(ChannelOrAll),
}


impl From<Color> for u16 {
    fn from(v: Color) -> (r: u16) {
        v.code()
    }
}

impl vstd::std_specs::convert::FromSpecImpl<Color> for u16 {
    open spec fn obeys_from_spec() -> bool {
        true
    }

    open spec fn from_spec(v: Color) -> u16 {
        v.spec_code()
    }
}

impl TryFrom<u16> for Color {
    type Error = u16;

    /// The variant with code `v`, or `v` back when there is none.
    fn try_from(v: u16) -> (r: Result<Color, u16>) {
        match Color::from_code(v) {
            Some(x) => Ok(x),
            None => Err(v),
        }
    }
}

impl vstd::std_specs::convert::TryFromSpecImpl<u16> for Color {
    open spec fn obeys_try_from_spec() -> bool {
        true
    }

    open spec fn try_from_spec(v: u16) -> Result<Color, u16> {
        match Color::spec_from_code(v) {
            Some(x) => Ok(x),
            None => Err(v),
        }
    }
}

impl From<ControlType> for u16 {
    fn from(v: ControlType) -> (r: u16) {
        v.code()
    }
}

impl vstd::std_specs::convert::FromSpecImpl<ControlType> for u16 {
    open spec fn obeys_from_spec() -> bool {
        true
    }

    open spec fn from_spec(v: ControlType) -> u16 {
        v.spec_code()
    }
}

impl TryFrom<u16> for ControlType {
    type Error = u16;

    /// The variant with code `v`, or `v` back when there is none.
    fn try_from(v: u16) -> (r: Result<ControlType, u16>) {
        match ControlType::from_code(v) {
            Some(x) => Ok(x),
            None => Err(v),
        }
    }
}

impl vstd::std_specs::convert::TryFromSpecImpl<u16> for ControlType {
    open spec fn obeys_try_from_spec() -> bool {
        true
    }

    open spec fn try_from_spec(v: u16) -> Result<ControlType, u16> {
        match ControlType::spec_from_code(v) {
            Some(x) => Ok(x),
            None => Err(v),
        }
    }
}

impl From<LedIndex> for u16 {
    fn from(v: LedIndex) -> (r: u16) {
        v.code()
    }
}

impl vstd::std_specs::convert::FromSpecImpl<LedIndex> for u16 {
    open spec fn obeys_from_spec() -> bool {
        true
    }

    open spec fn from_spec(v: LedIndex) -> u16 {
        v.spec_code()
    }
}

impl TryFrom<u16> for LedIndex {
    type Error = u16;

    /// The variant with code `v`, or `v` back when there is none.
    fn try_from(v: u16) -> (r: Result<LedIndex, u16>) {
        match LedIndex::from_code(v) {
            Some(x) => Ok(x),
            None => Err(v),
        }
    }
}

impl vstd::std_specs::convert::TryFromSpecImpl<u16> for LedIndex {
    open spec fn obeys_try_from_spec() -> bool {
        true
    }

    open spec fn try_from_spec(v: u16) -> Result<LedIndex, u16> {
        match LedIndex::spec_from_code(v) {
            Some(x) => Ok(x),
            None => Err(v),
        }
    }
}

} // verus!
