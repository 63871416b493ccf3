//! The MIDI messages an analog input sends for a new reading.
//!
//! The reading arrives already scaled to the input's limits.
use vstd::prelude::*;
use crate::analog::{Analog, AnalogMessageType};
use crate::channel::ChannelOrAll;
use crate::handler::{nrpn_encode, spec_nrpn_encode, ChannelMessages, HiRes};
use crate::midi::{write_optional, written, BufferTooSmall, MidiMessage};

verus! {

/// How many messages one reading sends on each channel.
pub open spec fn spec_analog_nr_of_messages(t: AnalogMessageType) -> usize {
    match t {
        AnalogMessageType::Button => 0,
        AnalogMessageType::PotentiometerWithCCMessage7Bit => 1,
        AnalogMessageType::PotentiometerWithCCMessage14Bit => 2,
        AnalogMessageType::PitchBend => 1,
        AnalogMessageType::PotentiometerWithNoteMessage => 1,
        AnalogMessageType::FSR => 1,
        AnalogMessageType::NRPN7 => 3,
        AnalogMessageType::NRPN14 => 4,
    }
}

/// The `index`-th message of a reading `value` on channel `ch`.
pub open spec fn spec_analog_message(a: Analog, value: u16, ch: u8, index: usize) -> Option<MidiMessage> {
    match a.message_type {
        AnalogMessageType::Button => None,
        AnalogMessageType::PotentiometerWithCCMessage7Bit =>
            Some(MidiMessage::ControlChange { channel: ch, control: a.midi_id as u8, value: value as u8 }),
        AnalogMessageType::PotentiometerWithCCMessage14Bit =>
            if index == 0 {
                Some(MidiMessage::ControlChange { channel: ch, control: a.midi_id as u8, value: HiRes(value).spec_msb() })
            } else {
                Some(MidiMessage::ControlChange { channel: ch, control: (a.midi_id + 32) as u8, value: HiRes(value).spec_lsb() })
            },
        AnalogMessageType::PitchBend => Some(MidiMessage::PitchBend { channel: ch, bend: value }),
        AnalogMessageType::PotentiometerWithNoteMessage | AnalogMessageType::FSR =>
            Some(MidiMessage::NoteOn { channel: ch, note: a.midi_id as u8, velocity: value as u8 }),
        AnalogMessageType::NRPN7 | AnalogMessageType::NRPN14 => {
            let (control, data) = spec_nrpn_encode(index, a.midi_id, value);
            Some(MidiMessage::ControlChange { channel: ch, control, value: data })
        },
    }
}

/// The message can be made: the MIDI id and the reading fit their fields.
pub open spec fn analog_message_defined(a: Analog, value: u16, ch: u8, index: usize) -> bool {
    &&& ch < 16
    &&& a.message_type == AnalogMessageType::PotentiometerWithCCMessage14Bit && index != 0 ==> a.midi_id + 32 <= u16::MAX
    &&& spec_analog_message(a, value, ch, index) matches Some(m) ==> m.wf()
}

/// The messages of one reading of an analog input, made as they are asked for.
pub struct AnalogMessages<'a> {
    pub analog: &'a mut Analog,
    pub value: u16,
    pub channel_messages: ChannelMessages,
}

impl<'a> AnalogMessages<'a> {
    /// The messages of reading `value`, on the input's channel.
    pub fn new(analog: &'a mut Analog, value: u16) -> (r: Self)
        ensures
            *r.analog == *old(analog),
            *final(analog) == *final(r.analog),
            r.value == value,
            r.channel_messages == ChannelMessages::spec_new_with_multiple_messages(
                old(analog).channel, spec_analog_nr_of_messages(old(analog).message_type)),
    {
        Self::new_with_channel(analog, value, None)
    }

    /// The messages of reading `value`, on `channel_override` in place of the
    /// input's channel when there is one.
    pub fn new_with_channel(analog: &'a mut Analog, value: u16, channel_override: Option<ChannelOrAll>) -> (r: Self)
        ensures
            *r.analog == *old(analog),
            *final(analog) == *final(r.analog),
            r.value == value,
            r.channel_messages == ChannelMessages::spec_new_with_multiple_messages(
                match channel_override { Some(c) => c, None => old(analog).channel },
                spec_analog_nr_of_messages(old(analog).message_type)),
    {
        let nr_of_messages: usize = match analog.message_type {
            AnalogMessageType::Button => 0,
            AnalogMessageType::PotentiometerWithCCMessage7Bit => 1,
            AnalogMessageType::PotentiometerWithCCMessage14Bit => 2,
            AnalogMessageType::PitchBend => 1,
            AnalogMessageType::PotentiometerWithNoteMessage => 1,
            AnalogMessageType::FSR => 1,
            AnalogMessageType::NRPN7 => 3,
            AnalogMessageType::NRPN14 => 4,
        };
        let ch = match channel_override {
            Some(c) => c,
            None => analog.channel,
        };
        let channel_messages = ChannelMessages::new_with_multiple_messages(ch, nr_of_messages);
        Self { analog, value, channel_messages }
    }

    /// The next message can be made without a panic.
    pub open spec fn next_defined(self) -> bool {
        &&& self.channel_messages.wf()
        &&& self.analog.enabled ==> (self.channel_messages.spec_next().1 matches Some(item) ==>
                analog_message_defined(*self.analog, self.value, item.0, item.1))
    }

    /// What a call of `next` did: `self` became `new`, the buffer went from
    /// `before` to `after`, and it returned `r`.
    pub open spec fn next_post(self, new: Self, before: Seq<u8>, after: Seq<u8>, r: Result<Option<usize>, BufferTooSmall>) -> bool {
        &&& *new.analog == *self.analog
        &&& new.value == self.value
        &&& !self.analog.enabled ==> {
            &&& r == Ok::<Option<usize>, BufferTooSmall>(None)
            &&& new.channel_messages == self.channel_messages
            &&& after == before
        }
        &&& self.analog.enabled ==> {
            &&& new.channel_messages == self.channel_messages.spec_next().0
            &&& self.channel_messages.spec_next().1 is None ==> r == Ok::<Option<usize>, BufferTooSmall>(None) && after == before
            &&& self.channel_messages.spec_next().1 matches Some(item) ==> {
                let m = spec_analog_message(*self.analog, self.value, item.0, item.1);
                &&& m is None ==> r == Ok::<Option<usize>, BufferTooSmall>(None) && after == before
                &&& m matches Some(msg) ==> written(msg, before, after, r)
            }
        }
    }

    /// Writes the next message into `buffer` and returns its length; `Ok(None)`
    /// when the input is disabled or every message has been sent.
    pub fn next(&mut self, buffer: &mut [u8]) -> (r: Result<Option<usize>, BufferTooSmall>)
        requires old(self).next_defined(),
        ensures
            old(self).next_post(*final(self), old(buffer)@, final(buffer)@, r),
            *final(final(self).analog) == *final(old(self).analog),
    {
        if !self.analog.enabled {
            return Ok(None);
        }
        let (channel, index) = match self.channel_messages.next() {
            Some((channel, index)) => (channel, index),
            None => return Ok(None),
        };
        let value = self.value;
        let midi_id = self.analog.midi_id;
        let m: Option<MidiMessage> = match self.analog.message_type {
            AnalogMessageType::Button => None,
            AnalogMessageType::PotentiometerWithCCMessage7Bit =>
                Some(MidiMessage::ControlChange { channel, control: midi_id as u8, value: value as u8 }),
            AnalogMessageType::PotentiometerWithCCMessage14Bit => {
                let (v, id) = HiRes::new(value).control_change(index, midi_id);
                Some(MidiMessage::ControlChange { channel, control: id, value: v })
            },
            AnalogMessageType::PitchBend => Some(MidiMessage::PitchBend { channel, bend: value }),
            AnalogMessageType::PotentiometerWithNoteMessage | AnalogMessageType::FSR =>
                Some(MidiMessage::NoteOn { channel, note: midi_id as u8, velocity: value as u8 }),
            AnalogMessageType::NRPN7 | AnalogMessageType::NRPN14 => {
                let (control, data) = nrpn_encode(index, midi_id, value);
                Some(MidiMessage::ControlChange { channel, control, value: data })
            },
        };
        write_optional(m, buffer)
    }
}

} // verus!
