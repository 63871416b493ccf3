//! How incoming MIDI drives an output.
use vstd::prelude::*;
use crate::channel::ChannelOrAll;
use crate::led::{ControlType, Led};

verus! {

/// What a MIDI message does to an output.
#[derive(Debug, Copy, Clone, PartialEq, Eq, Structural)]
pub enum OutputState {
    NoChange,
    On,
    Off,
    /// The level of a multi value output.
    Level(u8),
}

impl Led {
    pub open spec fn spec_channel_matches(self, channel: u8) -> bool {
        match self.channel {
            ChannelOrAll::All => true,
            ChannelOrAll::Channel(ch) => ch == channel,
            ChannelOrAll::NoChannel => false,
        }
    }

    /// What a note (or, with `is_note_on` only telling a note on from a note
    /// off, a control change) with `channel`, `id` and `value` does to the
    /// output. A static output is always on; otherwise the message must be on
    /// the output's channel and carry its activation id.
    pub open spec fn spec_process_midi(self, channel: u8, id: u8, value: u8, is_note_on: bool) -> OutputState {
        if self.control_type == ControlType::Static {
            OutputState::On
        } else if !self.spec_channel_matches(channel) || self.activation_id != id {
            OutputState::NoChange
        } else {
            match self.control_type {
                ControlType::MidiInNoteSingleValue | ControlType::LocalNoteSingleValue =>
                    if is_note_on && value == self.activation_value {
                        OutputState::On
                    } else if !is_note_on {
                        OutputState::Off
                    } else {
                        OutputState::NoChange
                    },
                ControlType::MidiInCcSingleValue | ControlType::LocalCcSingleValue =>
                    if value == self.activation_value { OutputState::On } else { OutputState::Off },
                ControlType::MidiInNoteMultiValue | ControlType::LocalNoteMultiValue =>
                    if is_note_on { OutputState::Level(value) } else { OutputState::Level(0) },
                ControlType::MidiInCcMultiValue | ControlType::LocalCcMultiValue => OutputState::Level(value),
                _ => OutputState::NoChange,
            }
        }
    }

    /// Processes an incoming MIDI message and returns what it does to the output.
    pub fn process_midi(&self, channel: u8, id: u8, value: u8, is_note_on: bool) -> (r: OutputState)
        ensures r == self.spec_process_midi(channel, id, value, is_note_on),
    {
        let control_type = self.get_control_type();
        if control_type == ControlType::Static {
            return OutputState::On;
        }
        if !self.channel_matches(channel) {
            return OutputState::NoChange;
        }
        if !self.id_matches(id) {
            return OutputState::NoChange;
        }
        match control_type {
            ControlType::MidiInNoteSingleValue | ControlType::LocalNoteSingleValue => {
                if is_note_on && value == self.get_activation_value() {
                    OutputState::On
                } else if !is_note_on {
                    OutputState::Off
                } else {
                    OutputState::NoChange
                }
            },
            ControlType::MidiInCcSingleValue | ControlType::LocalCcSingleValue => {
                if value == self.get_activation_value() {
                    OutputState::On
                } else {
                    OutputState::Off
                }
            },
            ControlType::MidiInNoteMultiValue | ControlType::LocalNoteMultiValue => {
                if is_note_on {
                    OutputState::Level(value)
                } else {
                    OutputState::Level(0)
                }
            },
            ControlType::MidiInCcMultiValue | ControlType::LocalCcMultiValue => OutputState::Level(value),
            _ => OutputState::NoChange,
        }
    }

    fn channel_matches(&self, channel: u8) -> (r: bool)
        ensures r == self.spec_channel_matches(channel),
    {
        match self.get_channel() {
            ChannelOrAll::All => true,
            ChannelOrAll::Channel(ch) => ch == channel,
            ChannelOrAll::NoChannel => false,
        }
    }

    fn id_matches(&self, id: u8) -> (r: bool)
        ensures r == (self.activation_id == id),
    {
        self.get_activation_id() == id
    }

    pub fn get_channel(&self) -> (r: ChannelOrAll)
        ensures r == self.channel,
    {
        self.channel
    }

    pub fn get_activation_id(&self) -> (r: u8)
        ensures r == self.activation_id,
    {
        self.activation_id
    }

    pub fn get_activation_value(&self) -> (r: u8)
        ensures r == self.activation_value,
    {
        self.activation_value
    }

    pub fn get_control_type(&self) -> (r: ControlType)
        ensures r == self.control_type,
    {
        self.control_type
    }
}


/// The output listens to MIDI channel `channel`: it takes every channel, or
/// that one.
pub open spec fn listens_on(led: Led, channel: u8) -> bool {
    led.channel == ChannelOrAll::All || led.channel == ChannelOrAll::Channel(channel)
}

/// What a MIDI message does to an output: a static output is on whatever
/// comes; any other output ignores a message on a channel it does not listen
/// to or with another id than its activation id. Otherwise a single value
/// control change turns it on when it carries the activation value and off
/// when not; a single value note on with the activation value turns it on and
/// a note off turns it off; a multi value output takes the value as its level
/// (a note off as level 0).
pub proof fn lemma_led_midi(led: Led, channel: u8, id: u8, value: u8, is_note_on: bool)
    ensures ({
        let r = led.spec_process_midi(channel, id, value, is_note_on);
        &&& led.control_type == ControlType::Static ==> r == OutputState::On
        &&& led.control_type != ControlType::Static && !listens_on(led, channel) ==> r == OutputState::NoChange
        &&& led.control_type != ControlType::Static && led.activation_id != id ==> r == OutputState::NoChange
        &&& listens_on(led, channel) && led.activation_id == id ==> {
            &&& (led.control_type == ControlType::MidiInCcSingleValue || led.control_type == ControlType::LocalCcSingleValue)
                ==> r == (if value == led.activation_value { OutputState::On } else { OutputState::Off })
            &&& (led.control_type == ControlType::MidiInNoteSingleValue || led.control_type == ControlType::LocalNoteSingleValue) ==> {
                &&& !is_note_on ==> r == OutputState::Off
                &&& is_note_on && value == led.activation_value ==> r == OutputState::On
                &&& is_note_on && value != led.activation_value ==> r == OutputState::NoChange
            }
            &&& (led.control_type == ControlType::MidiInNoteMultiValue || led.control_type == ControlType::LocalNoteMultiValue)
                ==> r == OutputState::Level(if is_note_on { value } else { 0 })
            &&& (led.control_type == ControlType::MidiInCcMultiValue || led.control_type == ControlType::LocalCcMultiValue)
                ==> r == OutputState::Level(value)
        }
    }),
{
}

} // verus!
