//! Global settings: the MIDI settings, the preset settings, and their wire form.
use vstd::prelude::*;
use crate::channel::ChannelOrAll;

pub mod backup;
pub mod handler;
pub mod parser;
pub mod renderer;

verus! {

/// The wire value of a flag.
pub open spec fn spec_flag(b: bool) -> u16 {
    if b { 1 } else { 0 }
}

/// The wire value of a flag: 1 when set, 0 otherwise.
pub fn flag(b: bool) -> (r: u16)
    ensures r == spec_flag(b),
{
    if b { 1 } else { 0 }
}

/// Settings of the presets.
#[derive(Debug, Copy, Clone, PartialEq, Eq, Structural)]
pub struct GlobalPreset {
    /// The active preset.
    pub current: usize,
    pub force_value_refresh: bool,
    pub enable_midi_change: bool,
    pub preserve_preset: bool,
}

impl Default for GlobalPreset {
    fn default() -> (r: Self)
        ensures r == (GlobalPreset { current: 0, force_value_refresh: false, enable_midi_change: false, preserve_preset: false }),
    {
        GlobalPreset { current: 0, force_value_refresh: false, enable_midi_change: false, preserve_preset: false }
    }
}

impl GlobalPreset {
    pub open spec fn spec_set(self, index: PresetIndex, value: u16) -> GlobalPreset {
        match index {
            PresetIndex::Active => GlobalPreset { current: value as usize, ..self },
            PresetIndex::ForceValueRefresh => GlobalPreset { force_value_refresh: value > 0, ..self },
            PresetIndex::EnableMidiChange => GlobalPreset { enable_midi_change: value > 0, ..self },
            PresetIndex::Preservation => GlobalPreset { preserve_preset: value > 0, ..self },
        }
    }

    /// The wire value of a setting; the active preset is cut to 16 bits.
    pub open spec fn spec_get(self, index: PresetIndex) -> u16 {
        match index {
            PresetIndex::Active => self.current as u16,
            PresetIndex::ForceValueRefresh => spec_flag(self.force_value_refresh),
            PresetIndex::EnableMidiChange => spec_flag(self.enable_midi_change),
            PresetIndex::Preservation => spec_flag(self.preserve_preset),
        }
    }

    pub fn set(&mut self, index: PresetIndex, value: u16)
        ensures *final(self) == old(self).spec_set(index, value),
    {
        match index {
            PresetIndex::Active => self.current = value as usize,
            PresetIndex::ForceValueRefresh => self.force_value_refresh = value > 0,
            PresetIndex::EnableMidiChange => self.enable_midi_change = value > 0,
            PresetIndex::Preservation => self.preserve_preset = value > 0,
        }
    }

    pub fn get(&self, index: PresetIndex) -> (r: u16)
        ensures r == self.spec_get(index),
    {
        match index {
            PresetIndex::Active => self.current as u16,
            PresetIndex::ForceValueRefresh => flag(self.force_value_refresh),
            PresetIndex::EnableMidiChange => flag(self.enable_midi_change),
            PresetIndex::Preservation => flag(self.preserve_preset),
        }
    }
}

/// The MIDI settings of the device.
#[derive(Debug, Copy, Clone, PartialEq, Eq, Structural)]
pub struct GlobalMidi {
    pub standard_note_off: bool,
    pub running_status: bool,
    pub din_to_usb_thru: bool,
    pub din_midi_state: bool,
    pub usb_to_din_thru: bool,
    pub usb_to_usb_thru: bool,
    pub usb_to_ble_thru: bool,
    pub din_to_din_thru: bool,
    pub din_to_ble_thru: bool,
    pub ble_midi_state: bool,
    pub ble_to_din_thru: bool,
    pub ble_to_usb_thru: bool,
    pub ble_to_ble_thru: bool,
    pub use_global_midi_channel: bool,
    pub global_midi_channel: ChannelOrAll,
    pub send_midi_clock: bool,
}

impl GlobalMidi {
    pub open spec fn spec_default() -> GlobalMidi {
        GlobalMidi {
            standard_note_off: false,
            running_status: false,
            din_to_usb_thru: false,
            din_midi_state: false,
            usb_to_din_thru: false,
            usb_to_usb_thru: false,
            usb_to_ble_thru: false,
            din_to_din_thru: false,
            din_to_ble_thru: false,
            ble_midi_state: false,
            ble_to_din_thru: false,
            ble_to_usb_thru: false,
            ble_to_ble_thru: false,
            use_global_midi_channel: false,
            global_midi_channel: ChannelOrAll::Channel(0),
            send_midi_clock: false,
        }
    }

    pub open spec fn spec_set(self, index: MidiIndex, value: u16) -> GlobalMidi {
        match index {
            MidiIndex::StandardNoteOff => GlobalMidi { standard_note_off: value > 0, ..self },
            MidiIndex::RunningStatus => GlobalMidi { running_status: value > 0, ..self },
            MidiIndex::DINtoUSBthru => GlobalMidi { din_to_usb_thru: value > 0, ..self },
            MidiIndex::DINMIDIstate => GlobalMidi { din_midi_state: value > 0, ..self },
            MidiIndex::USBtoDINthru => GlobalMidi { usb_to_din_thru: value > 0, ..self },
            MidiIndex::USBtoUSBthru => GlobalMidi { usb_to_usb_thru: value > 0, ..self },
            MidiIndex::USBtoBLEthru => GlobalMidi { usb_to_ble_thru: value > 0, ..self },
            MidiIndex::DINtoDINthru => GlobalMidi { din_to_din_thru: value > 0, ..self },
            MidiIndex::DINtoBLEthru => GlobalMidi { din_to_ble_thru: value > 0, ..self },
            MidiIndex::BLEMIDIstate => GlobalMidi { ble_midi_state: value > 0, ..self },
            MidiIndex::BLEtoDINthru => GlobalMidi { ble_to_din_thru: value > 0, ..self },
            MidiIndex::BLEtoUSBthru => GlobalMidi { ble_to_usb_thru: value > 0, ..self },
            MidiIndex::BLEtoBLEthru => GlobalMidi { ble_to_ble_thru: value > 0, ..self },
            MidiIndex::UseGlobalMIDIchannel => GlobalMidi { use_global_midi_channel: value > 0, ..self },
            MidiIndex::SendMIDIclock => GlobalMidi { send_midi_clock: value > 0, ..self },
            MidiIndex::GlobalMIDIchannel => GlobalMidi { global_midi_channel: ChannelOrAll::spec_from_wire(value), ..self },
        }
    }

    pub open spec fn spec_get(self, index: MidiIndex) -> u16 {
        match index {
            MidiIndex::StandardNoteOff => spec_flag(self.standard_note_off),
            MidiIndex::RunningStatus => spec_flag(self.running_status),
            MidiIndex::DINtoUSBthru => spec_flag(self.din_to_usb_thru),
            MidiIndex::DINMIDIstate => spec_flag(self.din_midi_state),
            MidiIndex::USBtoDINthru => spec_flag(self.usb_to_din_thru),
            MidiIndex::USBtoUSBthru => spec_flag(self.usb_to_usb_thru),
            MidiIndex::USBtoBLEthru => spec_flag(self.usb_to_ble_thru),
            MidiIndex::DINtoDINthru => spec_flag(self.din_to_din_thru),
            MidiIndex::DINtoBLEthru => spec_flag(self.din_to_ble_thru),
            MidiIndex::BLEMIDIstate => spec_flag(self.ble_midi_state),
            MidiIndex::BLEtoDINthru => spec_flag(self.ble_to_din_thru),
            MidiIndex::BLEtoUSBthru => spec_flag(self.ble_to_usb_thru),
            MidiIndex::BLEtoBLEthru => spec_flag(self.ble_to_ble_thru),
            MidiIndex::UseGlobalMIDIchannel => spec_flag(self.use_global_midi_channel),
            MidiIndex::SendMIDIclock => spec_flag(self.send_midi_clock),
            MidiIndex::GlobalMIDIchannel => self.global_midi_channel.spec_to_wire(),
        }
    }

    /// Every channel the settings hold can go in a status byte.
    pub open spec fn wf(self) -> bool {
        self.global_midi_channel.wf()
    }

    pub fn set(&mut self, index: MidiIndex, value: u16)
        ensures *final(self) == old(self).spec_set(index, value),
    {
        match index {
            MidiIndex::StandardNoteOff => *self = GlobalMidi { standard_note_off: value > 0, ..*self },
            MidiIndex::RunningStatus => *self = GlobalMidi { running_status: value > 0, ..*self },
            MidiIndex::DINtoUSBthru => *self = GlobalMidi { din_to_usb_thru: value > 0, ..*self },
            MidiIndex::DINMIDIstate => *self = GlobalMidi { din_midi_state: value > 0, ..*self },
            MidiIndex::USBtoDINthru => *self = GlobalMidi { usb_to_din_thru: value > 0, ..*self },
            MidiIndex::USBtoUSBthru => *self = GlobalMidi { usb_to_usb_thru: value > 0, ..*self },
            MidiIndex::USBtoBLEthru => *self = GlobalMidi { usb_to_ble_thru: value > 0, ..*self },
            MidiIndex::DINtoDINthru => *self = GlobalMidi { din_to_din_thru: value > 0, ..*self },
            MidiIndex::DINtoBLEthru => *self = GlobalMidi { din_to_ble_thru: value > 0, ..*self },
            MidiIndex::BLEMIDIstate => *self = GlobalMidi { ble_midi_state: value > 0, ..*self },
            MidiIndex::BLEtoDINthru => *self = GlobalMidi { ble_to_din_thru: value > 0, ..*self },
            MidiIndex::BLEtoUSBthru => *self = GlobalMidi { ble_to_usb_thru: value > 0, ..*self },
            MidiIndex::BLEtoBLEthru => *self = GlobalMidi { ble_to_ble_thru: value > 0, ..*self },
            MidiIndex::UseGlobalMIDIchannel => *self = GlobalMidi { use_global_midi_channel: value > 0, ..*self },
            MidiIndex::SendMIDIclock => *self = GlobalMidi { send_midi_clock: value > 0, ..*self },
            MidiIndex::GlobalMIDIchannel => *self = GlobalMidi { global_midi_channel: ChannelOrAll::from_wire(value), ..*self },
        }
    }

    pub fn get(&self, index: MidiIndex) -> (r: u16)
        ensures r == self.spec_get(index),
    {
        match index {
            MidiIndex::StandardNoteOff => flag(self.standard_note_off),
            MidiIndex::RunningStatus => flag(self.running_status),
            MidiIndex::DINtoUSBthru => flag(self.din_to_usb_thru),
            MidiIndex::DINMIDIstate => flag(self.din_midi_state),
            MidiIndex::USBtoDINthru => flag(self.usb_to_din_thru),
            MidiIndex::USBtoUSBthru => flag(self.usb_to_usb_thru),
            MidiIndex::USBtoBLEthru => flag(self.usb_to_ble_thru),
            MidiIndex::DINtoDINthru => flag(self.din_to_din_thru),
            MidiIndex::DINtoBLEthru => flag(self.din_to_ble_thru),
            MidiIndex::BLEMIDIstate => flag(self.ble_midi_state),
            MidiIndex::BLEtoDINthru => flag(self.ble_to_din_thru),
            MidiIndex::BLEtoUSBthru => flag(self.ble_to_usb_thru),
            MidiIndex::BLEtoBLEthru => flag(self.ble_to_ble_thru),
            MidiIndex::UseGlobalMIDIchannel => flag(self.use_global_midi_channel),
            MidiIndex::SendMIDIclock => flag(self.send_midi_clock),
            MidiIndex::GlobalMIDIchannel => self.global_midi_channel.to_wire(),
        }
    }

    /// Whether every component sends on the global channel.
    pub fn use_global_channel(&self) -> (r: bool)
        ensures r == self.use_global_midi_channel,
    {
        self.use_global_midi_channel
    }

    /// The global channel.
    pub fn global_channel(&self) -> (r: ChannelOrAll)
        ensures r == self.global_midi_channel,
    {
        self.global_midi_channel
    }

    /// Whether a released note is sent as a note off.
    pub fn standard_note_off(&self) -> (r: bool)
        ensures r == self.standard_note_off,
    {
        self.standard_note_off
    }
}

impl Default for GlobalMidi {
    fn default() -> (r: Self)
        ensures r == GlobalMidi::spec_default(),
    {
        GlobalMidi {
            standard_note_off: false,
            running_status: false,
            din_to_usb_thru: false,
            din_midi_state: false,
            usb_to_din_thru: false,
            usb_to_usb_thru: false,
            usb_to_ble_thru: false,
            din_to_din_thru: false,
            din_to_ble_thru: false,
            ble_midi_state: false,
            ble_to_din_thru: false,
            ble_to_usb_thru: false,
            ble_to_ble_thru: false,
            use_global_midi_channel: false,
            global_midi_channel: ChannelOrAll::Channel(0),
            send_midi_clock: false,
        }
    }
}

/// Sections of the global block.
#[derive(Debug, Copy, Clone, PartialEq, Eq, Structural)]
pub enum GlobalSectionId {
    Midi,
    Presets,
}

impl GlobalSectionId {
    pub open spec fn spec_code(self) -> u8 {
        match self {
            GlobalSectionId::Midi => 0,
            GlobalSectionId::Presets => 2,
        }
    }

    pub open spec fn spec_from_code(v: u8) -> Option<GlobalSectionId> {
        if v == 0 { Some(GlobalSectionId::Midi) } else if v == 2 { Some(GlobalSectionId::Presets) } else { None }
    }

    pub fn code(self) -> (r: u8)
        ensures r == self.spec_code(),
    {
        match self {
            GlobalSectionId::Midi => 0,
            GlobalSectionId::Presets => 2,
        }
    }

    pub fn from_code(v: u8) -> (r: Option<GlobalSectionId>)
        ensures r == Self::spec_from_code(v),
    {
        if v == 0 { Some(GlobalSectionId::Midi) } else if v == 2 { Some(GlobalSectionId::Presets) } else { None }
    }
}

/// Indices of the preset settings.
#[derive(Debug, Copy, Clone, PartialEq, Eq, Structural)]
pub enum PresetIndex {
    Active,
    Preservation,
    ForceValueRefresh,
    EnableMidiChange,
}

impl PresetIndex {
    pub open spec fn spec_code(self) -> u16 {
        match self {
            PresetIndex::Active => 0,
            PresetIndex::Preservation => 1,
            PresetIndex::ForceValueRefresh => 2,
            PresetIndex::EnableMidiChange => 3,
        }
    }

    pub open spec fn spec_from_code(v: u16) -> Option<PresetIndex> {
        if v == 0 { Some(PresetIndex::Active) }
        else if v == 1 { Some(PresetIndex::Preservation) }
        else if v == 2 { Some(PresetIndex::ForceValueRefresh) }
        else if v == 3 { Some(PresetIndex::EnableMidiChange) }
        else { None }
    }

    pub fn code(self) -> (r: u16)
        ensures r == self.spec_code(),
    {
        match self {
            PresetIndex::Active => 0,
            PresetIndex::Preservation => 1,
            PresetIndex::ForceValueRefresh => 2,
            PresetIndex::EnableMidiChange => 3,
        }
    }

    pub fn from_code(v: u16) -> (r: Option<PresetIndex>)
        ensures r == Self::spec_from_code(v),
    {
        if v == 0 { Some(PresetIndex::Active) }
        else if v == 1 { Some(PresetIndex::Preservation) }
        else if v == 2 { Some(PresetIndex::ForceValueRefresh) }
        else if v == 3 { Some(PresetIndex::EnableMidiChange) }
        else { None }
    }
}

/// Indices of the MIDI settings.
#[derive(Debug, Copy, Clone, PartialEq, Eq, Structural)]
pub enum MidiIndex {
    StandardNoteOff,
    RunningStatus,
    DINtoUSBthru,
    DINMIDIstate,
    USBtoDINthru,
    USBtoUSBthru,
    USBtoBLEthru,
    DINtoDINthru,
    DINtoBLEthru,
    BLEMIDIstate,
    BLEtoDINthru,
    BLEtoUSBthru,
    BLEtoBLEthru,
    UseGlobalMIDIchannel,
    GlobalMIDIchannel,
    SendMIDIclock,
}

impl MidiIndex {
    pub open spec fn spec_code(self) -> u16 {
        match self {
            MidiIndex::StandardNoteOff => 0x0,
            MidiIndex::RunningStatus => 0x1,
            MidiIndex::DINtoUSBthru => 0x2,
            MidiIndex::DINMIDIstate => 0x3,
            MidiIndex::USBtoDINthru => 0x4,
            MidiIndex::USBtoUSBthru => 0x5,
            MidiIndex::USBtoBLEthru => 0x6,
            MidiIndex::DINtoDINthru => 0x7,
            MidiIndex::DINtoBLEthru => 0x8,
            MidiIndex::BLEMIDIstate => 0x9,
            MidiIndex::BLEtoDINthru => 0xA,
            MidiIndex::BLEtoUSBthru => 0xB,
            MidiIndex::BLEtoBLEthru => 0xC,
            MidiIndex::UseGlobalMIDIchannel => 0xD,
            MidiIndex::GlobalMIDIchannel => 0xE,
            MidiIndex::SendMIDIclock => 0xF,
        }
    }

    pub open spec fn spec_from_code(v: u16) -> Option<MidiIndex> {
        if v == 0x0 { Some(MidiIndex::StandardNoteOff) }
        else if v == 0x1 { Some(MidiIndex::RunningStatus) }
        else if v == 0x2 { Some(MidiIndex::DINtoUSBthru) }
        else if v == 0x3 { Some(MidiIndex::DINMIDIstate) }
        else if v == 0x4 { Some(MidiIndex::USBtoDINthru) }
        else if v == 0x5 { Some(MidiIndex::USBtoUSBthru) }
        else if v == 0x6 { Some(MidiIndex::USBtoBLEthru) }
        else if v == 0x7 { Some(MidiIndex::DINtoDINthru) }
        else if v == 0x8 { Some(MidiIndex::DINtoBLEthru) }
        else if v == 0x9 { Some(MidiIndex::BLEMIDIstate) }
        else if v == 0xA { Some(MidiIndex::BLEtoDINthru) }
        else if v == 0xB { Some(MidiIndex::BLEtoUSBthru) }
        else if v == 0xC { Some(MidiIndex::BLEtoBLEthru) }
        else if v == 0xD { Some(MidiIndex::UseGlobalMIDIchannel) }
        else if v == 0xE { Some(MidiIndex::GlobalMIDIchannel) }
        else if v == 0xF { Some(MidiIndex::SendMIDIclock) }
        else { None }
    }

    pub fn code(self) -> (r: u16)
        ensures r == self.spec_code(),
    {
        match self {
            MidiIndex::StandardNoteOff => 0x0,
            MidiIndex::RunningStatus => 0x1,
            MidiIndex::DINtoUSBthru => 0x2,
            MidiIndex::DINMIDIstate => 0x3,
            MidiIndex::USBtoDINthru => 0x4,
            MidiIndex::USBtoUSBthru => 0x5,
            MidiIndex::USBtoBLEthru => 0x6,
            MidiIndex::DINtoDINthru => 0x7,
            MidiIndex::DINtoBLEthru => 0x8,
            MidiIndex::BLEMIDIstate => 0x9,
            MidiIndex::BLEtoDINthru => 0xA,
            MidiIndex::BLEtoUSBthru => 0xB,
            MidiIndex::BLEtoBLEthru => 0xC,
            MidiIndex::UseGlobalMIDIchannel => 0xD,
            MidiIndex::GlobalMIDIchannel => 0xE,
            MidiIndex::SendMIDIclock => 0xF,
        }
    }

    pub fn from_code(v: u16) -> (r: Option<MidiIndex>)
        ensures r == Self::spec_from_code(v),
    {
        if v == 0x0 { Some(MidiIndex::StandardNoteOff) }
        else if v == 0x1 { Some(MidiIndex::RunningStatus) }
        else if v == 0x2 { Some(MidiIndex::DINtoUSBthru) }
        else if v == 0x3 { Some(MidiIndex::DINMIDIstate) }
        else if v == 0x4 { Some(MidiIndex::USBtoDINthru) }
        else if v == 0x5 { Some(MidiIndex::USBtoUSBthru) }
        else if v == 0x6 { Some(MidiIndex::USBtoBLEthru) }
        else if v == 0x7 { Some(MidiIndex::DINtoDINthru) }
        else if v == 0x8 { Some(MidiIndex::DINtoBLEthru) }
        else if v == 0x9 { Some(MidiIndex::BLEMIDIstate) }
        else if v == 0xA { Some(MidiIndex::BLEtoDINthru) }
        else if v == 0xB { Some(MidiIndex::BLEtoUSBthru) }
        else if v == 0xC { Some(MidiIndex::BLEtoBLEthru) }
        else if v == 0xD { Some(MidiIndex::UseGlobalMIDIchannel) }
        else if v == 0xE { Some(MidiIndex::GlobalMIDIchannel) }
        else if v == 0xF { Some(MidiIndex::SendMIDIclock) }
        else { None }
    }
}

/// Setting a MIDI setting and reading it back gives the value's wire form:
/// a flag reads back as 0 or 1, the global channel as its wire value.
pub proof fn lemma_global_midi_set_get(m: GlobalMidi, index: MidiIndex, value: u16)
    ensures
        index != MidiIndex::GlobalMIDIchannel ==> m.spec_set(index, value).spec_get(index) == spec_flag(value > 0),
        index == MidiIndex::GlobalMIDIchannel ==> m.spec_set(index, value).spec_get(index) == ChannelOrAll::spec_from_wire(value).spec_to_wire(),
        value <= 16 && index == MidiIndex::GlobalMIDIchannel ==> m.spec_set(index, value).spec_get(index) == value,
{
}

/// Setting one MIDI setting leaves every other one reading as before.
pub proof fn lemma_global_midi_set_other(m: GlobalMidi, index: MidiIndex, value: u16, other: MidiIndex)
    requires other != index,
    ensures m.spec_set(index, value).spec_get(other) == m.spec_get(other),
{
    match index {
        MidiIndex::StandardNoteOff => {
            match other {
                MidiIndex::StandardNoteOff => {},
                MidiIndex::RunningStatus => {},
                MidiIndex::DINtoUSBthru => {},
                MidiIndex::DINMIDIstate => {},
                MidiIndex::USBtoDINthru => {},
                MidiIndex::USBtoUSBthru => {},
                MidiIndex::USBtoBLEthru => {},
                MidiIndex::DINtoDINthru => {},
                MidiIndex::DINtoBLEthru => {},
                MidiIndex::BLEMIDIstate => {},
                MidiIndex::BLEtoDINthru => {},
                MidiIndex::BLEtoUSBthru => {},
                MidiIndex::BLEtoBLEthru => {},
                MidiIndex::UseGlobalMIDIchannel => {},
                MidiIndex::SendMIDIclock => {},
                MidiIndex::GlobalMIDIchannel => {},
            }
        },
        MidiIndex::RunningStatus => {
            match other {
                MidiIndex::StandardNoteOff => {},
                MidiIndex::RunningStatus => {},
                MidiIndex::DINtoUSBthru => {},
                MidiIndex::DINMIDIstate => {},
                MidiIndex::USBtoDINthru => {},
                MidiIndex::USBtoUSBthru => {},
                MidiIndex::USBtoBLEthru => {},
                MidiIndex::DINtoDINthru => {},
                MidiIndex::DINtoBLEthru => {},
                MidiIndex::BLEMIDIstate => {},
                MidiIndex::BLEtoDINthru => {},
                MidiIndex::BLEtoUSBthru => {},
                MidiIndex::BLEtoBLEthru => {},
                MidiIndex::UseGlobalMIDIchannel => {},
                MidiIndex::SendMIDIclock => {},
                MidiIndex::GlobalMIDIchannel => {},
            }
        },
        MidiIndex::DINtoUSBthru => {
            match other {
                MidiIndex::StandardNoteOff => {},
                MidiIndex::RunningStatus => {},
                MidiIndex::DINtoUSBthru => {},
                MidiIndex::DINMIDIstate => {},
                MidiIndex::USBtoDINthru => {},
                MidiIndex::USBtoUSBthru => {},
                MidiIndex::USBtoBLEthru => {},
                MidiIndex::DINtoDINthru => {},
                MidiIndex::DINtoBLEthru => {},
                MidiIndex::BLEMIDIstate => {},
                MidiIndex::BLEtoDINthru => {},
                MidiIndex::BLEtoUSBthru => {},
                MidiIndex::BLEtoBLEthru => {},
                MidiIndex::UseGlobalMIDIchannel => {},
                MidiIndex::SendMIDIclock => {},
                MidiIndex::GlobalMIDIchannel => {},
            }
        },
        MidiIndex::DINMIDIstate => {
            match other {
                MidiIndex::StandardNoteOff => {},
                MidiIndex::RunningStatus => {},
                MidiIndex::DINtoUSBthru => {},
                MidiIndex::DINMIDIstate => {},
                MidiIndex::USBtoDINthru => {},
                MidiIndex::USBtoUSBthru => {},
                MidiIndex::USBtoBLEthru => {},
                MidiIndex::DINtoDINthru => {},
                MidiIndex::DINtoBLEthru => {},
                MidiIndex::BLEMIDIstate => {},
                MidiIndex::BLEtoDINthru => {},
                MidiIndex::BLEtoUSBthru => {},
                MidiIndex::BLEtoBLEthru => {},
                MidiIndex::UseGlobalMIDIchannel => {},
                MidiIndex::SendMIDIclock => {},
                MidiIndex::GlobalMIDIchannel => {},
            }
        },
        MidiIndex::USBtoDINthru => {
            match other {
                MidiIndex::StandardNoteOff => {},
                MidiIndex::RunningStatus => {},
                MidiIndex::DINtoUSBthru => {},
                MidiIndex::DINMIDIstate => {},
                MidiIndex::USBtoDINthru => {},
                MidiIndex::USBtoUSBthru => {},
                MidiIndex::USBtoBLEthru => {},
                MidiIndex::DINtoDINthru => {},
                MidiIndex::DINtoBLEthru => {},
                MidiIndex::BLEMIDIstate => {},
                MidiIndex::BLEtoDINthru => {},
                MidiIndex::BLEtoUSBthru => {},
                MidiIndex::BLEtoBLEthru => {},
                MidiIndex::UseGlobalMIDIchannel => {},
                MidiIndex::SendMIDIclock => {},
                MidiIndex::GlobalMIDIchannel => {},
            }
        },
        MidiIndex::USBtoUSBthru => {
            match other {
                MidiIndex::StandardNoteOff => {},
                MidiIndex::RunningStatus => {},
                MidiIndex::DINtoUSBthru => {},
                MidiIndex::DINMIDIstate => {},
                MidiIndex::USBtoDINthru => {},
                MidiIndex::USBtoUSBthru => {},
                MidiIndex::USBtoBLEthru => {},
                MidiIndex::DINtoDINthru => {},
                MidiIndex::DINtoBLEthru => {},
                MidiIndex::BLEMIDIstate => {},
                MidiIndex::BLEtoDINthru => {},
                MidiIndex::BLEtoUSBthru => {},
                MidiIndex::BLEtoBLEthru => {},
                MidiIndex::UseGlobalMIDIchannel => {},
                MidiIndex::SendMIDIclock => {},
                MidiIndex::GlobalMIDIchannel => {},
            }
        },
        MidiIndex::USBtoBLEthru => {
            match other {
                MidiIndex::StandardNoteOff => {},
                MidiIndex::RunningStatus => {},
                MidiIndex::DINtoUSBthru => {},
                MidiIndex::DINMIDIstate => {},
                MidiIndex::USBtoDINthru => {},
                MidiIndex::USBtoUSBthru => {},
                MidiIndex::USBtoBLEthru => {},
                MidiIndex::DINtoDINthru => {},
                MidiIndex::DINtoBLEthru => {},
                MidiIndex::BLEMIDIstate => {},
                MidiIndex::BLEtoDINthru => {},
                MidiIndex::BLEtoUSBthru => {},
                MidiIndex::BLEtoBLEthru => {},
                MidiIndex::UseGlobalMIDIchannel => {},
                MidiIndex::SendMIDIclock => {},
                MidiIndex::GlobalMIDIchannel => {},
            }
        },
        MidiIndex::DINtoDINthru => {
            match other {
                MidiIndex::StandardNoteOff => {},
                MidiIndex::RunningStatus => {},
                MidiIndex::DINtoUSBthru => {},
                MidiIndex::DINMIDIstate => {},
                MidiIndex::USBtoDINthru => {},
                MidiIndex::USBtoUSBthru => {},
                MidiIndex::USBtoBLEthru => {},
                MidiIndex::DINtoDINthru => {},
                MidiIndex::DINtoBLEthru => {},
                MidiIndex::BLEMIDIstate => {},
                MidiIndex::BLEtoDINthru => {},
                MidiIndex::BLEtoUSBthru => {},
                MidiIndex::BLEtoBLEthru => {},
                MidiIndex::UseGlobalMIDIchannel => {},
                MidiIndex::SendMIDIclock => {},
                MidiIndex::GlobalMIDIchannel => {},
            }
        },
        MidiIndex::DINtoBLEthru => {
            match other {
                MidiIndex::StandardNoteOff => {},
                MidiIndex::RunningStatus => {},
                MidiIndex::DINtoUSBthru => {},
                MidiIndex::DINMIDIstate => {},
                MidiIndex::USBtoDINthru => {},
                MidiIndex::USBtoUSBthru => {},
                MidiIndex::USBtoBLEthru => {},
                MidiIndex::DINtoDINthru => {},
                MidiIndex::DINtoBLEthru => {},
                MidiIndex::BLEMIDIstate => {},
                MidiIndex::BLEtoDINthru => {},
                MidiIndex::BLEtoUSBthru => {},
                MidiIndex::BLEtoBLEthru => {},
                MidiIndex::UseGlobalMIDIchannel => {},
                MidiIndex::SendMIDIclock => {},
                MidiIndex::GlobalMIDIchannel => {},
            }
        },
        MidiIndex::BLEMIDIstate => {
            match other {
                MidiIndex::StandardNoteOff => {},
                MidiIndex::RunningStatus => {},
                MidiIndex::DINtoUSBthru => {},
                MidiIndex::DINMIDIstate => {},
                MidiIndex::USBtoDINthru => {},
                MidiIndex::USBtoUSBthru => {},
                MidiIndex::USBtoBLEthru => {},
                MidiIndex::DINtoDINthru => {},
                MidiIndex::DINtoBLEthru => {},
                MidiIndex::BLEMIDIstate => {},
                MidiIndex::BLEtoDINthru => {},
                MidiIndex::BLEtoUSBthru => {},
                MidiIndex::BLEtoBLEthru => {},
                MidiIndex::UseGlobalMIDIchannel => {},
                MidiIndex::SendMIDIclock => {},
                MidiIndex::GlobalMIDIchannel => {},
            }
        },
        MidiIndex::BLEtoDINthru => {
            match other {
                MidiIndex::StandardNoteOff => {},
                MidiIndex::RunningStatus => {},
                MidiIndex::DINtoUSBthru => {},
                MidiIndex::DINMIDIstate => {},
                MidiIndex::USBtoDINthru => {},
                MidiIndex::USBtoUSBthru => {},
                MidiIndex::USBtoBLEthru => {},
                MidiIndex::DINtoDINthru => {},
                MidiIndex::DINtoBLEthru => {},
                MidiIndex::BLEMIDIstate => {},
                MidiIndex::BLEtoDINthru => {},
                MidiIndex::BLEtoUSBthru => {},
                MidiIndex::BLEtoBLEthru => {},
                MidiIndex::UseGlobalMIDIchannel => {},
                MidiIndex::SendMIDIclock => {},
                MidiIndex::GlobalMIDIchannel => {},
            }
        },
        MidiIndex::BLEtoUSBthru => {
            match other {
                MidiIndex::StandardNoteOff => {},
                MidiIndex::RunningStatus => {},
                MidiIndex::DINtoUSBthru => {},
                MidiIndex::DINMIDIstate => {},
                MidiIndex::USBtoDINthru => {},
                MidiIndex::USBtoUSBthru => {},
                MidiIndex::USBtoBLEthru => {},
                MidiIndex::DINtoDINthru => {},
                MidiIndex::DINtoBLEthru => {},
                MidiIndex::BLEMIDIstate => {},
                MidiIndex::BLEtoDINthru => {},
                MidiIndex::BLEtoUSBthru => {},
                MidiIndex::BLEtoBLEthru => {},
                MidiIndex::UseGlobalMIDIchannel => {},
                MidiIndex::SendMIDIclock => {},
                MidiIndex::GlobalMIDIchannel => {},
            }
        },
        MidiIndex::BLEtoBLEthru => {
            match other {
                MidiIndex::StandardNoteOff => {},
                MidiIndex::RunningStatus => {},
                MidiIndex::DINtoUSBthru => {},
                MidiIndex::DINMIDIstate => {},
                MidiIndex::USBtoDINthru => {},
                MidiIndex::USBtoUSBthru => {},
                MidiIndex::USBtoBLEthru => {},
                MidiIndex::DINtoDINthru => {},
                MidiIndex::DINtoBLEthru => {},
                MidiIndex::BLEMIDIstate => {},
                MidiIndex::BLEtoDINthru => {},
                MidiIndex::BLEtoUSBthru => {},
                MidiIndex::BLEtoBLEthru => {},
                MidiIndex::UseGlobalMIDIchannel => {},
                MidiIndex::SendMIDIclock => {},
                MidiIndex::GlobalMIDIchannel => {},
            }
        },
        MidiIndex::UseGlobalMIDIchannel => {
            match other {
                MidiIndex::StandardNoteOff => {},
                MidiIndex::RunningStatus => {},
                MidiIndex::DINtoUSBthru => {},
                MidiIndex::DINMIDIstate => {},
                MidiIndex::USBtoDINthru => {},
                MidiIndex::USBtoUSBthru => {},
                MidiIndex::USBtoBLEthru => {},
                MidiIndex::DINtoDINthru => {},
                MidiIndex::DINtoBLEthru => {},
                MidiIndex::BLEMIDIstate => {},
                MidiIndex::BLEtoDINthru => {},
                MidiIndex::BLEtoUSBthru => {},
                MidiIndex::BLEtoBLEthru => {},
                MidiIndex::UseGlobalMIDIchannel => {},
                MidiIndex::SendMIDIclock => {},
                MidiIndex::GlobalMIDIchannel => {},
            }
        },
        MidiIndex::SendMIDIclock => {
            match other {
                MidiIndex::StandardNoteOff => {},
                MidiIndex::RunningStatus => {},
                MidiIndex::DINtoUSBthru => {},
                MidiIndex::DINMIDIstate => {},
                MidiIndex::USBtoDINthru => {},
                MidiIndex::USBtoUSBthru => {},
                MidiIndex::USBtoBLEthru => {},
                MidiIndex::DINtoDINthru => {},
                MidiIndex::DINtoBLEthru => {},
                MidiIndex::BLEMIDIstate => {},
                MidiIndex::BLEtoDINthru => {},
                MidiIndex::BLEtoUSBthru => {},
                MidiIndex::BLEtoBLEthru => {},
                MidiIndex::UseGlobalMIDIchannel => {},
                MidiIndex::SendMIDIclock => {},
                MidiIndex::GlobalMIDIchannel => {},
            }
        },
        MidiIndex::GlobalMIDIchannel => {
            match other {
                MidiIndex::StandardNoteOff => {},
                MidiIndex::RunningStatus => {},
                MidiIndex::DINtoUSBthru => {},
                MidiIndex::DINMIDIstate => {},
                MidiIndex::USBtoDINthru => {},
                MidiIndex::USBtoUSBthru => {},
                MidiIndex::USBtoBLEthru => {},
                MidiIndex::DINtoDINthru => {},
                MidiIndex::DINtoBLEthru => {},
                MidiIndex::BLEMIDIstate => {},
                MidiIndex::BLEtoDINthru => {},
                MidiIndex::BLEtoUSBthru => {},
                MidiIndex::BLEtoBLEthru => {},
                MidiIndex::UseGlobalMIDIchannel => {},
                MidiIndex::SendMIDIclock => {},
                MidiIndex::GlobalMIDIchannel => {},
            }
        },
    }
}

/// Setting a preset setting and reading it back gives the value's wire form:
/// the active preset reads back as the value itself, every flag as 1 when the
/// value is not 0 and as 0 when it is.
pub proof fn lemma_global_preset_set_get(g: GlobalPreset, index: PresetIndex, value: u16)
    ensures
        index == PresetIndex::Active ==> g.spec_set(index, value).spec_get(index) == value,
        index != PresetIndex::Active ==> g.spec_set(index, value).spec_get(index) == (if value > 0 { 1u16 } else { 0u16 }),
        index == PresetIndex::Active ==> g.spec_set(index, value).current == value,
        index == PresetIndex::Preservation ==> g.spec_set(index, value).preserve_preset == (value > 0),
        index == PresetIndex::ForceValueRefresh ==> g.spec_set(index, value).force_value_refresh == (value > 0),
        index == PresetIndex::EnableMidiChange ==> g.spec_set(index, value).enable_midi_change == (value > 0),
{
}

/// Setting one preset setting leaves every other one reading as before, and
/// each setting reads its own field: the active preset, preservation, forced
/// value refresh and preset change by MIDI.
pub proof fn lemma_global_preset_set_other(g: GlobalPreset, index: PresetIndex, value: u16, other: PresetIndex)
    ensures
        other != index ==> g.spec_set(index, value).spec_get(other) == g.spec_get(other),
        g.spec_get(PresetIndex::Active) == g.current as u16,
        g.spec_get(PresetIndex::Preservation) == (if g.preserve_preset { 1u16 } else { 0u16 }),
        g.spec_get(PresetIndex::ForceValueRefresh) == (if g.force_value_refresh { 1u16 } else { 0u16 }),
        g.spec_get(PresetIndex::EnableMidiChange) == (if g.enable_midi_change { 1u16 } else { 0u16 }),
{
    match index {
        PresetIndex::Active => {
            match other {
                PresetIndex::Active => {},
                PresetIndex::Preservation => {},
                PresetIndex::ForceValueRefresh => {},
                PresetIndex::EnableMidiChange => {},
            }
        },
        PresetIndex::Preservation => {
            match other {
                PresetIndex::Active => {},
                PresetIndex::Preservation => {},
                PresetIndex::ForceValueRefresh => {},
                PresetIndex::EnableMidiChange => {},
            }
        },
        PresetIndex::ForceValueRefresh => {
            match other {
                PresetIndex::Active => {},
                PresetIndex::Preservation => {},
                PresetIndex::ForceValueRefresh => {},
                PresetIndex::EnableMidiChange => {},
            }
        },
        PresetIndex::EnableMidiChange => {
            match other {
                PresetIndex::Active => {},
                PresetIndex::Preservation => {},
                PresetIndex::ForceValueRefresh => {},
                PresetIndex::EnableMidiChange => {},
            }
        },
    }
}

/// A section of the global block: a setting index and its value.
#[derive(Debug, Copy, Clone, PartialEq, Eq, Structural)]
pub enum GlobalSection {
    Midi(MidiIndex, u16),
    Presets(PresetIndex, u16),
}


impl From<PresetIndex> for u16 {
    fn from(v: PresetIndex) -> (r: u16) {
        v.code()
    }
}

impl vstd::std_specs::convert::FromSpecImpl<PresetIndex> for u16 {
    open spec fn obeys_from_spec() -> bool {
        true
    }

    open spec fn from_spec(v: PresetIndex) -> u16 {
        v.spec_code()
    }
}

impl TryFrom<u16> for PresetIndex {
    type Error = u16;

    /// The variant with code `v`, or `v` back when there is none.
    fn try_from(v: u16) -> (r: Result<PresetIndex, u16>) {
        match PresetIndex::from_code(v) {
            Some(x) => Ok(x),
            None => Err(v),
        }
    }
}

impl vstd::std_specs::convert::TryFromSpecImpl<u16> for PresetIndex {
    open spec fn obeys_try_from_spec() -> bool {
        true
    }

    open spec fn try_from_spec(v: u16) -> Result<PresetIndex, u16> {
        match PresetIndex::spec_from_code(v) {
            Some(x) => Ok(x),
            None => Err(v),
        }
    }
}

impl From<MidiIndex> for u16 {
    fn from(v: MidiIndex) -> (r: u16) {
        v.code()
    }
}

impl vstd::std_specs::convert::FromSpecImpl<MidiIndex> for u16 {
    open spec fn obeys_from_spec() -> bool {
        true
    }

    open spec fn from_spec(v: MidiIndex) -> u16 {
        v.spec_code()
    }
}

impl TryFrom<u16> for MidiIndex {
    type Error = u16;

    /// The variant with code `v`, or `v` back when there is none.
    fn try_from(v: u16) -> (r: Result<MidiIndex, u16>) {
        match MidiIndex::from_code(v) {
            Some(x) => Ok(x),
            None => Err(v),
        }
    }
}

impl vstd::std_specs::convert::TryFromSpecImpl<u16> for MidiIndex {
    open spec fn obeys_try_from_spec() -> bool {
        true
    }

    open spec fn try_from_spec(v: u16) -> Result<MidiIndex, u16> {
        match MidiIndex::spec_from_code(v) {
            Some(x) => Ok(x),
            None => Err(v),
        }
    }
}

impl From<GlobalSectionId> for u8 {
    fn from(v: GlobalSectionId) -> (r: u8) {
        v.code()
    }
}

impl vstd::std_specs::convert::FromSpecImpl<GlobalSectionId> for u8 {
    open spec fn obeys_from_spec() -> bool {
        true
    }

    open spec fn from_spec(v: GlobalSectionId) -> u8 {
        v.spec_code()
    }
}

impl TryFrom<u8> for GlobalSectionId {
    type Error = u8;

    /// The variant with code `v`, or `v` back when there is none.
    fn try_from(v: u8) -> (r: Result<GlobalSectionId, u8>) {
        match GlobalSectionId::from_code(v) {
            Some(x) => Ok(x),
            None => Err(v),
        }
    }
}

impl vstd::std_specs::convert::TryFromSpecImpl<u8> for GlobalSectionId {
    open spec fn obeys_try_from_spec() -> bool {
        true
    }

    open spec fn try_from_spec(v: u8) -> Result<GlobalSectionId, u8> {
        match GlobalSectionId::spec_from_code(v) {
            Some(x) => Ok(x),
            None => Err(v),
        }
    }
}

} // verus!
