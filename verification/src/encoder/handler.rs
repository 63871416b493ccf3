//! The MIDI messages an encoder sends when it turns.
use vstd::prelude::*;
use crate::channel::ChannelOrAll;
use crate::encoder::{Encoder, EncoderMessageType, EncoderState};
use crate::handler::{ChannelMessages, HiRes};
use crate::midi::{write_optional, written, BufferTooSmall, MidiMessage};

verus! {

#[derive(Debug, Copy, Clone, PartialEq, Eq, Structural)]
pub enum EncoderPulse {
    Clockwise,
    CounterClockwise,
}

impl EncoderPulse {
    pub open spec fn spec_invert(self) -> EncoderPulse {
        match self {
            EncoderPulse::Clockwise => EncoderPulse::CounterClockwise,
            EncoderPulse::CounterClockwise => EncoderPulse::Clockwise,
        }
    }

    pub fn invert(self) -> (r: EncoderPulse)
        ensures r == self.spec_invert(),
    {
        match self {
            EncoderPulse::Clockwise => EncoderPulse::CounterClockwise,
            EncoderPulse::CounterClockwise => EncoderPulse::Clockwise,
        }
    }
}

/// How many messages one step sends on each channel.
pub open spec fn spec_encoder_nr_of_messages(t: EncoderMessageType) -> usize {
    match t {
        EncoderMessageType::ControlChange14bit => 2,
        EncoderMessageType::TwoNoteWithFixedValueBothDirections => 2,
        EncoderMessageType::NRPN14 => 2,
        EncoderMessageType::PresetChange => 0,
        _ => 1,
    }
}

/// The value one step up (clockwise) or down moves to, held between the
/// lower and the upper limit (the lower one wins when they cross).
pub open spec fn spec_increment(e: Encoder, p: EncoderPulse) -> Encoder {
    let v = match p {
        EncoderPulse::Clockwise => e.value + 1,
        EncoderPulse::CounterClockwise => e.value - 1,
    };
    let v = if v > e.upper_limit { e.upper_limit as int } else { v };
    let v = if v < e.lower_limit { e.lower_limit as int } else { v };
    Encoder { value: v as u16, ..e }
}

pub open spec fn increment_defined(e: Encoder, p: EncoderPulse) -> bool {
    match p {
        EncoderPulse::Clockwise => e.value < u16::MAX,
        EncoderPulse::CounterClockwise => e.value > 0,
    }
}

/// Counts a pulse: a step is made once `pulses_per_step` pulses are seen,
/// and the count starts over.
pub open spec fn spec_pulse_count_reached(e: Encoder) -> (Encoder, bool) {
    let count = e.state.pulse_count + 1;
    if count < e.pulses_per_step {
        (Encoder { state: EncoderState { pulse_count: count as u8 }, ..e }, false)
    } else {
        (Encoder { state: EncoderState { pulse_count: 0 }, ..e }, true)
    }
}

/// The control change value of a relative encoder mode for a pulse.
pub open spec fn spec_relative_value(t: EncoderMessageType, p: EncoderPulse) -> u8 {
    match t {
        EncoderMessageType::ControlChange7Fh01h => if p == EncoderPulse::Clockwise { 0x01u8 } else { 0x7Fu8 },
        EncoderMessageType::ControlChange3Fh41h => if p == EncoderPulse::Clockwise { 0x3Fu8 } else { 0x41u8 },
        _ => if p == EncoderPulse::Clockwise { 0x41u8 } else { 0x01u8 },
    }
}

/// The `index`-th message of a step on channel `ch`, and the encoder after it.
pub open spec fn spec_encoder_step(e: Encoder, p: EncoderPulse, ch: u8, index: usize) -> (Encoder, Option<MidiMessage>) {
    match e.message_type {
        EncoderMessageType::ControlChange => {
            let e2 = spec_increment(e, p);
            (e2, Some(MidiMessage::ControlChange { channel: ch, control: e2.midi_id as u8, value: e2.value as u8 }))
        },
        EncoderMessageType::ControlChange14bit => {
            let e2 = if index == 0 { spec_increment(e, p) } else { e };
            if index == 0 {
                (e2, Some(MidiMessage::ControlChange { channel: ch, control: e2.midi_id as u8, value: HiRes(e2.value).spec_msb() }))
            } else {
                (e2, Some(MidiMessage::ControlChange { channel: ch, control: (e2.midi_id + 32) as u8, value: HiRes(e2.value).spec_lsb() }))
            }
        },
        EncoderMessageType::ControlChange7Fh01h | EncoderMessageType::ControlChange3Fh41h | EncoderMessageType::ControlChange41h01h =>
            (e, Some(MidiMessage::ControlChange { channel: ch, control: e.midi_id as u8, value: spec_relative_value(e.message_type, p) })),
        EncoderMessageType::PitchBend => {
            let e2 = spec_increment(e, p);
            (e2, Some(MidiMessage::PitchBend { channel: ch, bend: e2.value }))
        },
        _ => (e, None),
    }
}

/// A step's message can be made without an overflow or a field out of range.
pub open spec fn encoder_step_defined(e: Encoder, p: EncoderPulse, ch: u8, index: usize) -> bool {
    &&& ch < 16
    &&& (e.message_type == EncoderMessageType::ControlChange || e.message_type == EncoderMessageType::PitchBend
            || (e.message_type == EncoderMessageType::ControlChange14bit && index == 0)) ==> increment_defined(e, p)
    &&& e.message_type == EncoderMessageType::ControlChange14bit && index != 0 ==> e.midi_id + 32 <= u16::MAX
    &&& spec_encoder_step(e, p, ch, index).1 matches Some(m) ==> m.wf()
}

impl Encoder {
    /// The messages of one pulse; an inverted encoder turns the other way.
    pub fn handle(&mut self, p: EncoderPulse) -> (r: EncoderMessages<'_>)
        ensures
            *r.encoder == *old(self),
            *final(self) == *final(r.encoder),
            r.pulse == (if old(self).inverted { p.spec_invert() } else { p }),
            r.channel_messages == ChannelMessages::spec_new_with_multiple_messages(
                old(self).channel, spec_encoder_nr_of_messages(old(self).message_type)),
    {
        self.handle_with_channel(p, None)
    }

    /// The messages of one pulse, on `channel_override` in place of the
    /// encoder's channel when there is one.
    pub fn handle_with_channel(&mut self, p: EncoderPulse, channel_override: Option<ChannelOrAll>) -> (r: EncoderMessages<'_>)
        ensures
            *r.encoder == *old(self),
            *final(self) == *final(r.encoder),
            r.pulse == (if old(self).inverted { p.spec_invert() } else { p }),
            r.channel_messages == ChannelMessages::spec_new_with_multiple_messages(
                match channel_override { Some(c) => c, None => old(self).channel },
                spec_encoder_nr_of_messages(old(self).message_type)),
    {
        let p = if self.inverted { p.invert() } else { p };
        EncoderMessages::new_with_channel(self, p, channel_override)
    }

    /// Moves the value one step up (clockwise) or down, held within the limits.
    pub fn increment(&mut self, p: &EncoderPulse)
        requires increment_defined(*old(self), *p),
        ensures *final(self) == spec_increment(*old(self), *p),
    {
        match p {
            EncoderPulse::Clockwise => {
                self.value += 1;
            },
            EncoderPulse::CounterClockwise => {
                self.value -= 1;
            },
        }
        if self.value > self.upper_limit {
            self.value = self.upper_limit;
        }
        if self.value < self.lower_limit {
            self.value = self.lower_limit;
        }
    }

    /// Counts a pulse and tells whether it completes a step.
    pub fn pulse_count_reached(&mut self) -> (r: bool)
        requires old(self).state.pulse_count < u8::MAX,
        ensures (*final(self), r) == spec_pulse_count_reached(*old(self)),
    {
        self.state.pulse_count += 1;
        if self.state.pulse_count < self.pulses_per_step {
            return false;
        }
        self.state.pulse_count = 0;
        true
    }
}

/// The messages of one pulse of an encoder, made as they are asked for.
pub struct EncoderMessages<'a> {
    pub encoder: &'a mut Encoder,
    pub channel_messages: ChannelMessages,
    pub pulse: EncoderPulse,
}

impl<'a> EncoderMessages<'a> {
    pub fn new(encoder: &'a mut Encoder, pulse: EncoderPulse) -> (r: Self)
        ensures
            *r.encoder == *old(encoder),
            *final(encoder) == *final(r.encoder),
            r.pulse == pulse,
            r.channel_messages == ChannelMessages::spec_new_with_multiple_messages(
                old(encoder).channel, spec_encoder_nr_of_messages(old(encoder).message_type)),
    {
        Self::new_with_channel(encoder, pulse, None)
    }

    pub fn new_with_channel(encoder: &'a mut Encoder, pulse: EncoderPulse, channel_override: Option<ChannelOrAll>) -> (r: Self)
        ensures
            *r.encoder == *old(encoder),
            *final(encoder) == *final(r.encoder),
            r.pulse == pulse,
            r.channel_messages == ChannelMessages::spec_new_with_multiple_messages(
                match channel_override { Some(c) => c, None => old(encoder).channel },
                spec_encoder_nr_of_messages(old(encoder).message_type)),
    {
        let nr_of_messages: usize = match encoder.message_type {
            EncoderMessageType::ControlChange => 1,
            EncoderMessageType::ControlChange14bit => 2,
            EncoderMessageType::ControlChange7Fh01h => 1,
            EncoderMessageType::ControlChange3Fh41h => 1,
            EncoderMessageType::ControlChange41h01h => 1,
            EncoderMessageType::SingleNoteWithVariableValue => 1,
            EncoderMessageType::SingleNoteWithFixedValueBothDirections => 1,
            EncoderMessageType::SingleNoteWithFixedValueOneDirection0OtherDirection => 1,
            EncoderMessageType::TwoNoteWithFixedValueBothDirections => 2,
            EncoderMessageType::PitchBend => 1,
            EncoderMessageType::ProgramChange => 1,
            EncoderMessageType::NRPN7 => 1,
            EncoderMessageType::NRPN14 => 2,
            EncoderMessageType::PresetChange => 0,
            EncoderMessageType::BPM => 1,
        };
        let ch = match channel_override {
            Some(c) => c,
            None => encoder.channel,
        };
        let channel_messages = ChannelMessages::new_with_multiple_messages(ch, nr_of_messages);
        Self { encoder, channel_messages, pulse }
    }

    /// The next message can be made without a panic.
    pub open spec fn next_defined(self) -> bool {
        let (e1, reached) = spec_pulse_count_reached(*self.encoder);
        &&& self.channel_messages.wf()
        &&& self.encoder.enabled ==> self.encoder.state.pulse_count < u8::MAX
        &&& self.encoder.enabled && reached ==> (self.channel_messages.spec_next().1 matches Some(item) ==>
                encoder_step_defined(e1, self.pulse, item.0, item.1))
    }

    /// What a call of `next` did: `self` became `new`, the buffer went from
    /// `before` to `after`, and it returned `r`.
    pub open spec fn next_post(self, new: Self, before: Seq<u8>, after: Seq<u8>, r: Result<Option<usize>, BufferTooSmall>) -> bool {
        &&& new.pulse == self.pulse
        &&& !self.encoder.enabled ==> {
            &&& r == Ok::<Option<usize>, BufferTooSmall>(None)
            &&& *new.encoder == *self.encoder
            &&& new.channel_messages == self.channel_messages
            &&& after == before
        }
        &&& self.encoder.enabled ==> {
            let (e1, reached) = spec_pulse_count_reached(*self.encoder);
            &&& !reached ==> {
                &&& r == Ok::<Option<usize>, BufferTooSmall>(None)
                &&& *new.encoder == e1
                &&& new.channel_messages == self.channel_messages
                &&& after == before
            }
            &&& reached ==> {
                &&& new.channel_messages == self.channel_messages.spec_next().0
                &&& self.channel_messages.spec_next().1 is None ==> {
                    &&& r == Ok::<Option<usize>, BufferTooSmall>(None)
                    &&& *new.encoder == e1
                    &&& after == before
                }
                &&& self.channel_messages.spec_next().1 matches Some(item) ==> {
                    let (e2, m) = spec_encoder_step(e1, self.pulse, item.0, item.1);
                    &&& *new.encoder == e2
                    &&& m is None ==> r == Ok::<Option<usize>, BufferTooSmall>(None) && after == before
                    &&& m matches Some(msg) ==> written(msg, before, after, r)
                }
            }
        }
    }

    /// Writes the next message into `buffer` and returns its length; `Ok(None)`
    /// when the encoder is disabled, when the pulse does not complete a step,
    /// or when every message has been sent. Every call counts a pulse.
    pub fn next(&mut self, buffer: &mut [u8]) -> (r: Result<Option<usize>, BufferTooSmall>)
        requires old(self).next_defined(),
        ensures
            old(self).next_post(*final(self), old(buffer)@, final(buffer)@, r),
            *final(final(self).encoder) == *final(old(self).encoder),
    {
        if !self.encoder.enabled {
            return Ok(None);
        }
        if !self.encoder.pulse_count_reached() {
            return Ok(None);
        }
        let (channel, index) = match self.channel_messages.next() {
            Some((channel, index)) => (channel, index),
            None => return Ok(None),
        };
        let pulse = self.pulse;
        let m: Option<MidiMessage> = match self.encoder.message_type {
            EncoderMessageType::ControlChange => {
                self.encoder.increment(&pulse);
                Some(MidiMessage::ControlChange { channel, control: self.encoder.midi_id as u8, value: self.encoder.value as u8 })
            },
            EncoderMessageType::ControlChange14bit => {
                if index == 0 {
                    self.encoder.increment(&pulse);
                }
                let (value, id) = HiRes::new(self.encoder.value).control_change(index, self.encoder.midi_id);
                Some(MidiMessage::ControlChange { channel, control: id, value })
            },
            EncoderMessageType::ControlChange7Fh01h => {
                let value: u8 = match pulse {
                    EncoderPulse::Clockwise => 0x01,
                    EncoderPulse::CounterClockwise => 0x7F,
                };
                Some(MidiMessage::ControlChange { channel, control: self.encoder.midi_id as u8, value })
            },
            EncoderMessageType::ControlChange3Fh41h => {
                let value: u8 = match pulse {
                    EncoderPulse::Clockwise => 0x3F,
                    EncoderPulse::CounterClockwise => 0x41,
                };
                Some(MidiMessage::ControlChange { channel, control: self.encoder.midi_id as u8, value })
            },
            EncoderMessageType::ControlChange41h01h => {
                let value: u8 = match pulse {
                    EncoderPulse::Clockwise => 0x41,
                    EncoderPulse::CounterClockwise => 0x01,
                };
                Some(MidiMessage::ControlChange { channel, control: self.encoder.midi_id as u8, value })
            },
            EncoderMessageType::PitchBend => {
                self.encoder.increment(&pulse);
                Some(MidiMessage::PitchBend { channel, bend: self.encoder.value })
            },
            EncoderMessageType::ProgramChange => None,
            EncoderMessageType::NRPN7 => None,
            EncoderMessageType::NRPN14 => None,
            EncoderMessageType::SingleNoteWithVariableValue => None,
            EncoderMessageType::SingleNoteWithFixedValueBothDirections => None,
            EncoderMessageType::SingleNoteWithFixedValueOneDirection0OtherDirection => None,
            EncoderMessageType::TwoNoteWithFixedValueBothDirections => None,
            EncoderMessageType::PresetChange => None,
            EncoderMessageType::BPM => None,
        };
        write_optional(m, buffer)
    }
}


/// The value a step moves an encoder to: one up (clockwise) or one down,
/// held within the limits.
pub open spec fn stepped_value(e: Encoder, p: EncoderPulse) -> int {
    let v = if p == EncoderPulse::Clockwise { e.value + 1 } else { e.value - 1 };
    if v > e.upper_limit { e.upper_limit as int } else if v < e.lower_limit { e.lower_limit as int } else { v }
}

/// One step of an encoder moves its value one up (clockwise) or one down,
/// held between its limits, and changes nothing else; at a limit it stays.
pub proof fn lemma_encoder_increment(e: Encoder, p: EncoderPulse)
    requires e.lower_limit <= e.value <= e.upper_limit, p == EncoderPulse::Clockwise ==> e.value < u16::MAX,
    ensures
        spec_increment(e, p).value == stepped_value(e, p),
        spec_increment(e, p) == (Encoder { value: spec_increment(e, p).value, ..e }),
        e.lower_limit <= spec_increment(e, p).value <= e.upper_limit,
        p == EncoderPulse::Clockwise && e.value < e.upper_limit ==> spec_increment(e, p).value == e.value + 1,
        p == EncoderPulse::CounterClockwise && e.value > e.lower_limit ==> spec_increment(e, p).value == e.value - 1,
        p == EncoderPulse::Clockwise && e.value == e.upper_limit ==> spec_increment(e, p).value == e.value,
        p == EncoderPulse::CounterClockwise && e.value == e.lower_limit ==> spec_increment(e, p).value == e.value,
{
}

/// What a step of an encoder sends on channel `ch`, message by message:
/// - a 14 bit control change sends two control changes of the value after the
///   step, first the high seven bits on the MIDI id and then the low seven on
///   the MIDI id + 32, so that `high * 128 + low` is that value; the second
///   message does not step again;
/// - a 7 bit control change sends the value after the step on the MIDI id;
/// - pitch bend sends the value after the step as the bend;
/// - the relative modes leave the value and send a fixed code for the
///   direction on the MIDI id: 0x01 clockwise and 0x7F counter clockwise
///   (7Fh01h), 0x3F and 0x41 (3Fh41h), 0x41 and 0x01 (41h01h).
pub proof fn lemma_encoder_messages(e: Encoder, p: EncoderPulse, ch: u8)
    requires
        increment_defined(e, p),
        e.upper_limit < 0x4000,
        e.lower_limit <= e.upper_limit,
    ensures ({
        let (e1, m0) = spec_encoder_step(e, p, ch, 0);
        let (e2, m1) = spec_encoder_step(e1, p, ch, 1);
        let v = stepped_value(e, p);
        &&& e.message_type == EncoderMessageType::ControlChange14bit ==> {
            &&& e1 == (Encoder { value: v as u16, ..e })
            &&& e2 == e1
            &&& m0 matches Some(MidiMessage::ControlChange { channel: c0, control: k0, value: hi })
            &&& m1 matches Some(MidiMessage::ControlChange { channel: c1, control: k1, value: lo })
            &&& c0 == ch && c1 == ch
            &&& k0 == e.midi_id as u8 && k1 == (e.midi_id + 32) as u8
            &&& hi < 128 && lo < 128
            &&& hi * 128 + lo == v
        }
        &&& e.message_type == EncoderMessageType::ControlChange ==> {
            &&& e1 == (Encoder { value: v as u16, ..e })
            &&& m0 == Some(MidiMessage::ControlChange { channel: ch, control: e.midi_id as u8, value: v as u8 })
        }
        &&& e.message_type == EncoderMessageType::PitchBend ==> {
            &&& e1 == (Encoder { value: v as u16, ..e })
            &&& m0 == Some(MidiMessage::PitchBend { channel: ch, bend: v as u16 })
        }
        &&& e.message_type == EncoderMessageType::ControlChange7Fh01h ==> e1 == e
            && m0 == Some(MidiMessage::ControlChange { channel: ch, control: e.midi_id as u8,
                value: if p == EncoderPulse::Clockwise { 0x01u8 } else { 0x7Fu8 } })
        &&& e.message_type == EncoderMessageType::ControlChange3Fh41h ==> e1 == e
            && m0 == Some(MidiMessage::ControlChange { channel: ch, control: e.midi_id as u8,
                value: if p == EncoderPulse::Clockwise { 0x3Fu8 } else { 0x41u8 } })
        &&& e.message_type == EncoderMessageType::ControlChange41h01h ==> e1 == e
            && m0 == Some(MidiMessage::ControlChange { channel: ch, control: e.midi_id as u8,
                value: if p == EncoderPulse::Clockwise { 0x41u8 } else { 0x01u8 } })
    }),
{
    let v = stepped_value(e, p);
    if e.message_type == EncoderMessageType::ControlChange14bit {
        let x = v as u16;
        assert(x == v);
        assert(((x / 128) % 128) * 128 + x % 128 == x) by (nonlinear_arith) requires x < 0x4000;
    }
}


/// Pulses are counted up to `pulses_per_step`: a pulse that does not reach it
/// only counts, and the one that does makes a step and starts the count over.
/// Only the count changes.
pub proof fn lemma_encoder_pulse_count(e: Encoder)
    requires e.state.pulse_count < u8::MAX,
    ensures ({
        let (e1, reached) = spec_pulse_count_reached(e);
        &&& reached <==> e.state.pulse_count + 1 >= e.pulses_per_step
        &&& reached ==> e1.state.pulse_count == 0
        &&& !reached ==> e1.state.pulse_count == e.state.pulse_count + 1
        &&& e1 == (Encoder { state: e1.state, ..e })
    }),
{
}

/// Message types of an encoder that send nothing and leave it as it is.
pub proof fn lemma_encoder_silent_types(e: Encoder, p: EncoderPulse, ch: u8, index: usize)
    requires
        e.message_type != EncoderMessageType::ControlChange,
        e.message_type != EncoderMessageType::ControlChange14bit,
        e.message_type != EncoderMessageType::ControlChange7Fh01h,
        e.message_type != EncoderMessageType::ControlChange3Fh41h,
        e.message_type != EncoderMessageType::ControlChange41h01h,
        e.message_type != EncoderMessageType::PitchBend,
    ensures spec_encoder_step(e, p, ch, index) == (e, None::<MidiMessage>),
{
}

/// A call of `next` on a disabled encoder sends nothing and changes nothing;
/// on an enabled one, a pulse that does not complete a step sends nothing and
/// only counts.
pub open spec fn idle_call_outcome<'a>(it: EncoderMessages<'a>, new: EncoderMessages<'a>, before: Seq<u8>, after: Seq<u8>, r: Result<Option<usize>, BufferTooSmall>) -> bool {
    &&& !it.encoder.enabled ==> r == Ok::<Option<usize>, BufferTooSmall>(None) && *new.encoder == *it.encoder && after == before
    &&& it.encoder.enabled && it.encoder.state.pulse_count + 1 < it.encoder.pulses_per_step ==>
            r == Ok::<Option<usize>, BufferTooSmall>(None) && after == before
            && new.encoder.value == it.encoder.value
            && new.encoder.state.pulse_count == it.encoder.state.pulse_count + 1
}

/// Every call of `next` meets `idle_call_outcome`.
pub proof fn lemma_encoder_next_idle<'a>(it: EncoderMessages<'a>, new: EncoderMessages<'a>, before: Seq<u8>, after: Seq<u8>, r: Result<Option<usize>, BufferTooSmall>)
    requires it.next_post(new, before, after, r),
    ensures idle_call_outcome(it, new, before, after, r),
{
}
} // verus!
