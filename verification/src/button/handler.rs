//! The MIDI messages a button sends when it is pressed or released.
use vstd::prelude::*;
use crate::button::{Button, ButtonMessageType, ButtonState, ButtonType};
use crate::channel::ChannelOrAll;
use crate::handler::ChannelMessages;
use crate::midi::{write_optional, written, BufferTooSmall, MidiMessage};

verus! {

pub const MAX_MIDI_ID: u8 = 127;
pub const MAX_VALUE: u8 = 127;

/// MIDI machine control commands.
pub const MMC_STOP: u8 = 0x01;
pub const MMC_PLAY: u8 = 0x02;
pub const MMC_RECORD: u8 = 0x06;
pub const MMC_PAUSE: u8 = 0x09;

#[derive(Debug, Copy, Clone, PartialEq, Eq, Structural)]
pub enum Action {
    Pressed,
    Released,
}

/// Whether a press or release turns the button on, off, or leaves it.
#[derive(Debug, Copy, Clone, PartialEq, Eq, Structural)]
pub enum ButtonStatus {
    Off,
    On,
    Unchanged,
}

pub open spec fn spec_latch(b: Button, action: Action) -> (Button, ButtonStatus) {
    match b.button_type {
        ButtonType::Momentary => match action {
            Action::Pressed => (b, ButtonStatus::On),
            Action::Released => (b, ButtonStatus::Off),
        },
        ButtonType::Latching => match action {
            Action::Pressed => {
                let on = !b.state.latch_on;
                (Button { state: ButtonState { latch_on: on, ..b.state }, ..b }, if on { ButtonStatus::On } else { ButtonStatus::Off })
            },
            Action::Released => (b, ButtonStatus::Unchanged),
        },
    }
}

pub open spec fn spec_incr_midi_id(b: Button, action: Action) -> Button {
    match action {
        Action::Pressed => Button { midi_id: if b.midi_id >= MAX_MIDI_ID { 0 } else { (b.midi_id + 1) as u8 }, ..b },
        Action::Released => b,
    }
}

pub open spec fn spec_decr_midi_id(b: Button, action: Action) -> Button {
    match action {
        Action::Pressed => Button { midi_id: if b.midi_id == 0 { MAX_MIDI_ID } else { (b.midi_id - 1) as u8 }, ..b },
        Action::Released => b,
    }
}

/// Multi value, increase then reset: the step goes up by one and the value
/// sent is step times the configured value, back to the configured value once
/// that would pass 127.
pub open spec fn spec_inc_reset(b: Button) -> (Button, u8) {
    let s1 = b.state.step + 1;
    let result = s1 * b.value;
    if result > MAX_VALUE {
        (Button { state: ButtonState { step: 1, ..b.state }, ..b }, b.value)
    } else {
        (Button { state: ButtonState { step: s1 as u8, ..b.state }, ..b }, result as u8)
    }
}

pub open spec fn inc_reset_defined(b: Button) -> bool {
    &&& b.state.step < 255
    &&& (b.state.step + 1) * b.value <= 255
    &&& b.value <= MAX_VALUE
}

/// Multi value, increase then decrease: the step walks up until step times
/// the configured value would pass 127, then walks down to one and up again.
pub open spec fn spec_inc_dec(b: Button) -> (Button, u8) {
    if b.state.step_down {
        if b.state.step <= 1 {
            (Button { state: ButtonState { step: 2, step_down: false, ..b.state }, ..b }, (2 * b.value) as u8)
        } else {
            let s = b.state.step - 1;
            (Button { state: ButtonState { step: s as u8, ..b.state }, ..b }, (s * b.value) as u8)
        }
    } else {
        let s1 = b.state.step + 1;
        let result = s1 * b.value;
        if result > MAX_VALUE {
            let s2 = s1 - 2;
            (Button { state: ButtonState { step: s2 as u8, step_down: true, ..b.state }, ..b }, (s2 * b.value) as u8)
        } else {
            (Button { state: ButtonState { step: s1 as u8, ..b.state }, ..b }, result as u8)
        }
    }
}

pub open spec fn inc_dec_defined(b: Button) -> bool {
    if b.state.step_down {
        if b.state.step <= 1 {
            2 * b.value <= MAX_VALUE
        } else {
            (b.state.step - 1) * b.value <= MAX_VALUE
        }
    } else {
        &&& b.state.step < 255
        &&& (b.state.step + 1) * b.value <= 255
        &&& (b.state.step + 1) * b.value > MAX_VALUE ==> b.state.step + 1 >= 2 && (b.state.step - 1) * b.value <= MAX_VALUE
    }
}

pub open spec fn on_press(action: Action, m: MidiMessage) -> Option<MidiMessage> {
    match action {
        Action::Pressed => Some(m),
        Action::Released => None,
    }
}

/// One message of a button event on channel `ch`: the button after it, and the
/// message it sends, if any.
pub open spec fn spec_step(b: Button, action: Action, standard_note_off: bool, ch: u8) -> (Button, Option<MidiMessage>) {
    let (b1, status) = spec_latch(b, action);
    match b1.message_type {
        ButtonMessageType::Notes => (b1, match status {
            ButtonStatus::On => Some(MidiMessage::NoteOn { channel: ch, note: b1.midi_id, velocity: b1.value }),
            ButtonStatus::Off => if standard_note_off {
                Some(MidiMessage::NoteOff { channel: ch, note: b1.midi_id, velocity: 0 })
            } else {
                Some(MidiMessage::NoteOn { channel: ch, note: b1.midi_id, velocity: 0 })
            },
            ButtonStatus::Unchanged => None,
        }),
        ButtonMessageType::NoteOffOnly => (b1, on_press(action, MidiMessage::NoteOff { channel: ch, note: b1.midi_id, velocity: b1.value })),
        ButtonMessageType::ProgramChange => (b1, on_press(action, MidiMessage::ProgramChange { channel: ch, program: b1.midi_id })),
        ButtonMessageType::ControlChange => (b1, on_press(action, MidiMessage::ControlChange { channel: ch, control: b1.midi_id, value: b1.value })),
        ButtonMessageType::ControlChangeWithReset => (b1, match status {
            ButtonStatus::On => Some(MidiMessage::ControlChange { channel: ch, control: b1.midi_id, value: b1.value }),
            ButtonStatus::Off => Some(MidiMessage::ControlChange { channel: ch, control: b1.midi_id, value: 0 }),
            ButtonStatus::Unchanged => None,
        }),
        ButtonMessageType::ControlChangeWithValue0 => (b1, on_press(action, MidiMessage::ControlChange { channel: ch, control: b1.midi_id, value: 0 })),
        ButtonMessageType::MMCStop => (b1, on_press(action, MidiMessage::MachineControl { device: b1.midi_id, command: MMC_STOP })),
        ButtonMessageType::MMCPlay => (b1, on_press(action, MidiMessage::MachineControl { device: b1.midi_id, command: MMC_PLAY })),
        ButtonMessageType::MMCRecord => (b1, on_press(action, MidiMessage::MachineControl { device: b1.midi_id, command: MMC_RECORD })),
        ButtonMessageType::MMCPause => (b1, on_press(action, MidiMessage::MachineControl { device: b1.midi_id, command: MMC_PAUSE })),
        ButtonMessageType::RealTimeClock => (b1, on_press(action, MidiMessage::TimingClock)),
        ButtonMessageType::RealTimeStart => (b1, on_press(action, MidiMessage::Start)),
        ButtonMessageType::RealTimeContinue => (b1, on_press(action, MidiMessage::Continue)),
        ButtonMessageType::RealTimeStop => (b1, on_press(action, MidiMessage::Stop)),
        ButtonMessageType::RealTimeActiveSensing => (b1, on_press(action, MidiMessage::ActiveSensing)),
        ButtonMessageType::RealTimeSystemReset => (b1, on_press(action, MidiMessage::Reset)),
        ButtonMessageType::ProgramChangeIncr => {
            let b2 = spec_incr_midi_id(b1, action);
            (b2, on_press(action, MidiMessage::ProgramChange { channel: ch, program: b2.midi_id }))
        },
        ButtonMessageType::ProgramChangeDecr => {
            let b2 = spec_decr_midi_id(b1, action);
            (b2, on_press(action, MidiMessage::ProgramChange { channel: ch, program: b2.midi_id }))
        },
        ButtonMessageType::MultiValueIncResetNote => match action {
            Action::Pressed => {
                let (b2, v) = spec_inc_reset(b1);
                (b2, Some(MidiMessage::NoteOn { channel: ch, note: b1.midi_id, velocity: v }))
            },
            Action::Released => (b1, None),
        },
        ButtonMessageType::MultiValueIncDecNote => match action {
            Action::Pressed => {
                let (b2, v) = spec_inc_dec(b1);
                (b2, Some(MidiMessage::NoteOn { channel: ch, note: b1.midi_id, velocity: v }))
            },
            Action::Released => (b1, None),
        },
        ButtonMessageType::MultiValueIncResetCC => match action {
            Action::Pressed => {
                let (b2, v) = spec_inc_reset(b1);
                (b2, Some(MidiMessage::ControlChange { channel: ch, control: b1.midi_id, value: v }))
            },
            Action::Released => (b1, None),
        },
        ButtonMessageType::MultiValueIncDecCC => match action {
            Action::Pressed => {
                let (b2, v) = spec_inc_dec(b1);
                (b2, Some(MidiMessage::ControlChange { channel: ch, control: b1.midi_id, value: v }))
            },
            Action::Released => (b1, None),
        },
        _ => (b1, None),
    }
}

/// The button after a message of an event that did not fit in the buffer: a
/// multi value button has not taken its step (a latching one has still
/// toggled); any other is as after the message.
pub open spec fn spec_step_unwritten(b: Button, action: Action, standard_note_off: bool, ch: u8) -> Button {
    let (b1, _) = spec_latch(b, action);
    match b1.message_type {
        ButtonMessageType::MultiValueIncResetNote | ButtonMessageType::MultiValueIncDecNote
            | ButtonMessageType::MultiValueIncResetCC | ButtonMessageType::MultiValueIncDecCC => b1,
        _ => spec_step(b, action, standard_note_off, ch).0,
    }
}

/// A message of a button event can be made without an overflow or a value out
/// of its MIDI range.
pub open spec fn step_defined(b: Button, action: Action, ch: u8) -> bool {
    let (b1, status) = spec_latch(b, action);
    &&& ch < 16
    &&& (action == Action::Pressed ==> match b1.message_type {
            ButtonMessageType::MultiValueIncResetNote | ButtonMessageType::MultiValueIncResetCC => inc_reset_defined(b1),
            ButtonMessageType::MultiValueIncDecNote | ButtonMessageType::MultiValueIncDecCC => inc_dec_defined(b1),
            _ => true,
        })
    &&& (spec_step(b, action, false, ch).1 matches Some(m) ==> m.wf())
    &&& (spec_step(b, action, true, ch).1 matches Some(m) ==> m.wf())
}

impl Button {
    fn latch(&mut self, action: Action) -> (r: ButtonStatus)
        ensures (*final(self), r) == spec_latch(*old(self), action),
    {
        match self.button_type {
            ButtonType::Momentary => match action {
                Action::Pressed => ButtonStatus::On,
                Action::Released => ButtonStatus::Off,
            },
            ButtonType::Latching => {
                if let Action::Pressed = action {
                    self.state.latch_on = !self.state.latch_on;
                    if self.state.latch_on {
                        return ButtonStatus::On;
                    } else {
                        return ButtonStatus::Off;
                    }
                }
                ButtonStatus::Unchanged
            },
        }
    }

    fn incr_midi_id(&mut self, action: Action)
        ensures *final(self) == spec_incr_midi_id(*old(self), action),
    {
        if let Action::Pressed = action {
            if self.midi_id >= MAX_MIDI_ID {
                self.midi_id = 0
            } else {
                self.midi_id += 1
            }
        }
    }

    fn decr_midi_id(&mut self, action: Action)
        ensures *final(self) == spec_decr_midi_id(*old(self), action),
    {
        if let Action::Pressed = action {
            if self.midi_id == 0 {
                self.midi_id = MAX_MIDI_ID
            } else {
                self.midi_id -= 1
            }
        }
    }

    fn multi_value_inc_reset(&mut self) -> (r: u8)
        requires inc_reset_defined(*old(self)),
        ensures (*final(self), r) == spec_inc_reset(*old(self)), r <= MAX_VALUE,
    {
        self.state.step += 1;
        let result = self.state.step * self.value;
        if result > MAX_VALUE {
            self.state.step = 1;
            return self.value;
        }
        result
    }

    fn multi_value_inc_dec(&mut self) -> (r: u8)
        requires inc_dec_defined(*old(self)),
        ensures (*final(self), r) == spec_inc_dec(*old(self)), r <= MAX_VALUE,
    {
        if self.state.step_down {
            if self.state.step <= 1 {
                self.state.step = 2;
                self.state.step_down = false;
                let result = self.state.step * self.value;
                return result;
            }
            self.state.step -= 1;
            let result = self.state.step * self.value;
            result
        } else {
            self.state.step += 1;
            let mut result = self.state.step * self.value;
            if result > MAX_VALUE {
                self.state.step_down = true;
                self.state.step -= 2;
                result = self.state.step * self.value;
            }
            result
        }
    }

    /// Sends a program change of the button's MIDI id on a press, nothing on a release.
    pub fn program_change(&self, action: Action, channel: u8, buffer: &mut [u8]) -> (r: Result<Option<usize>, BufferTooSmall>)
        requires action == Action::Pressed ==> channel < 16 && self.midi_id < 128,
        ensures
            action == Action::Released ==> r == Ok::<Option<usize>, BufferTooSmall>(None) && final(buffer)@ == old(buffer)@,
            action == Action::Pressed ==> written(MidiMessage::ProgramChange { channel, program: self.midi_id }, old(buffer)@, final(buffer)@, r),
    {
        if let Action::Pressed = action {
            return write_optional(Some(MidiMessage::ProgramChange { channel, program: self.midi_id }), buffer);
        }
        Ok(None)
    }

    /// The messages of one press or release, on the button's own channel,
    /// with a release of a note sent as a note on of velocity 0.
    pub fn handle(&mut self, action: Action) -> (r: ButtonMessages<'_>)
        ensures
            *r.button == *old(self),
            *final(self) == *final(r.button),
            r.action == action,
            !r.standard_note_off,
            r.channel_messages == ChannelMessages::spec_new_with_multiple_messages(old(self).channel, 1),
    {
        ButtonMessages::new(self, action)
    }

    /// The messages of one press or release, with a release of a note sent as
    /// a note off when `standard_note_off` holds, and on `channel_override`
    /// in place of the button's channel when there is one.
    pub fn handle_with_options(&mut self, action: Action, standard_note_off: bool, channel_override: Option<ChannelOrAll>) -> (r: ButtonMessages<'_>)
        ensures
            *r.button == *old(self),
            *final(self) == *final(r.button),
            r.action == action,
            r.standard_note_off == standard_note_off,
            r.channel_messages == ChannelMessages::spec_new_with_multiple_messages(
                match channel_override { Some(c) => c, None => old(self).channel }, 1),
    {
        ButtonMessages::new_with_options(self, action, standard_note_off, channel_override)
    }
}

/// The messages of one button event, one per channel, made as they are asked for.
pub struct ButtonMessages<'a> {
    pub button: &'a mut Button,
    pub action: Action,
    pub channel_messages: ChannelMessages,
    pub standard_note_off: bool,
}

impl<'a> ButtonMessages<'a> {
    pub fn new(button: &'a mut Button, action: Action) -> (r: Self)
        ensures
            *r.button == *old(button),
            *final(button) == *final(r.button),
            r.action == action,
            !r.standard_note_off,
            r.channel_messages == ChannelMessages::spec_new_with_multiple_messages(old(button).channel, 1),
    {
        let ch = button.channel;
        Self { button, action, channel_messages: ChannelMessages::new(ch), standard_note_off: false }
    }

    pub fn new_with_options(button: &'a mut Button, action: Action, standard_note_off: bool, channel_override: Option<ChannelOrAll>) -> (r: Self)
        ensures
            *r.button == *old(button),
            *final(button) == *final(r.button),
            r.action == action,
            r.standard_note_off == standard_note_off,
            r.channel_messages == ChannelMessages::spec_new_with_multiple_messages(
                match channel_override { Some(c) => c, None => old(button).channel }, 1),
    {
        let ch = match channel_override {
            Some(c) => c,
            None => button.channel,
        };
        Self { button, action, channel_messages: ChannelMessages::new(ch), standard_note_off }
    }

    /// The next message can be made without a panic.
    pub open spec fn next_defined(self) -> bool {
        &&& self.channel_messages.wf()
        &&& (self.channel_messages.spec_next().1 matches Some(item) ==> step_defined(*self.button, self.action, item.0))
    }

    /// What a call of `next` did: `self` became `new`, the buffer went from
    /// `before` to `after`, and it returned `r`.
    pub open spec fn next_post(self, new: Self, before: Seq<u8>, after: Seq<u8>, r: Result<Option<usize>, BufferTooSmall>) -> bool {
        &&& new.channel_messages == self.channel_messages.spec_next().0
        &&& new.action == self.action
        &&& new.standard_note_off == self.standard_note_off
        &&& self.channel_messages.spec_next().1 is None ==> {
            &&& r == Ok::<Option<usize>, BufferTooSmall>(None)
            &&& *new.button == *self.button
            &&& after == before
        }
        &&& self.channel_messages.spec_next().1 matches Some(item) ==> {
            let (b, m) = spec_step(*self.button, self.action, self.standard_note_off, item.0);
            &&& *new.button == if r is Err { spec_step_unwritten(*self.button, self.action, self.standard_note_off, item.0) } else { b }
            &&& m is None ==> r == Ok::<Option<usize>, BufferTooSmall>(None) && after == before
            &&& m matches Some(msg) ==> written(msg, before, after, r)
        }
    }

    /// Writes the message for the next channel into `buffer` and returns its
    /// length; `Ok(None)` once every channel has had its message, or when the
    /// event sends nothing.
    pub fn next(&mut self, buffer: &mut [u8]) -> (r: Result<Option<usize>, BufferTooSmall>)
        requires old(self).next_defined(),
        ensures
            old(self).next_post(*final(self), old(buffer)@, final(buffer)@, r),
            *final(final(self).button) == *final(old(self).button),
    {
        let channel = match self.channel_messages.next() {
            Some((channel, _)) => channel,
            None => return Ok(None),
        };
        let action = self.action;
        let status = self.button.latch(action);
        let m: Option<MidiMessage> = match self.button.message_type {
            ButtonMessageType::Notes => match status {
                ButtonStatus::On => Some(MidiMessage::NoteOn { channel, note: self.button.midi_id, velocity: self.button.value }),
                ButtonStatus::Off => if self.standard_note_off {
                    Some(MidiMessage::NoteOff { channel, note: self.button.midi_id, velocity: 0 })
                } else {
                    Some(MidiMessage::NoteOn { channel, note: self.button.midi_id, velocity: 0 })
                },
                ButtonStatus::Unchanged => None,
            },
            ButtonMessageType::NoteOffOnly => pressed(action, MidiMessage::NoteOff { channel, note: self.button.midi_id, velocity: self.button.value }),
            ButtonMessageType::ProgramChange => {
                return self.button.program_change(action, channel, buffer);
            },
            ButtonMessageType::ControlChange => pressed(action, MidiMessage::ControlChange { channel, control: self.button.midi_id, value: self.button.value }),
            ButtonMessageType::ControlChangeWithReset => match status {
                ButtonStatus::On => Some(MidiMessage::ControlChange { channel, control: self.button.midi_id, value: self.button.value }),
                ButtonStatus::Off => Some(MidiMessage::ControlChange { channel, control: self.button.midi_id, value: 0 }),
                ButtonStatus::Unchanged => None,
            },
            ButtonMessageType::ControlChangeWithValue0 => pressed(action, MidiMessage::ControlChange { channel, control: self.button.midi_id, value: 0 }),
            ButtonMessageType::MMCStop => pressed(action, MidiMessage::MachineControl { device: self.button.midi_id, command: MMC_STOP }),
            ButtonMessageType::MMCPlay => pressed(action, MidiMessage::MachineControl { device: self.button.midi_id, command: MMC_PLAY }),
            ButtonMessageType::MMCRecord => pressed(action, MidiMessage::MachineControl { device: self.button.midi_id, command: MMC_RECORD }),
            ButtonMessageType::MMCPause => pressed(action, MidiMessage::MachineControl { device: self.button.midi_id, command: MMC_PAUSE }),
            ButtonMessageType::RealTimeClock => pressed(action, MidiMessage::TimingClock),
            ButtonMessageType::RealTimeStart => pressed(action, MidiMessage::Start),
            ButtonMessageType::RealTimeContinue => pressed(action, MidiMessage::Continue),
            ButtonMessageType::RealTimeStop => pressed(action, MidiMessage::Stop),
            ButtonMessageType::RealTimeActiveSensing => pressed(action, MidiMessage::ActiveSensing),
            ButtonMessageType::RealTimeSystemReset => pressed(action, MidiMessage::Reset),
            ButtonMessageType::ProgramChangeIncr => {
                self.button.incr_midi_id(action);
                return self.button.program_change(action, channel, buffer);
            },
            ButtonMessageType::ProgramChangeDecr => {
                self.button.decr_midi_id(action);
                return self.button.program_change(action, channel, buffer);
            },
            ButtonMessageType::MultiValueIncResetNote => {
                if let Action::Pressed = action {
                    // the step is kept only once its message is written
                    let mut stepped = *self.button;
                    let v = stepped.multi_value_inc_reset();
                    let r = write_optional(Some(MidiMessage::NoteOn { channel, note: stepped.midi_id, velocity: v }), buffer);
                    if let Ok(_) = r {
                        *self.button = stepped;
                    }
                    return r;
                } else {
                    None
                }
            },
            ButtonMessageType::MultiValueIncDecNote => {
                if let Action::Pressed = action {
                    // the step is kept only once its message is written
                    let mut stepped = *self.button;
                    let v = stepped.multi_value_inc_dec();
                    let r = write_optional(Some(MidiMessage::NoteOn { channel, note: stepped.midi_id, velocity: v }), buffer);
                    if let Ok(_) = r {
                        *self.button = stepped;
                    }
                    return r;
                } else {
                    None
                }
            },
            ButtonMessageType::MultiValueIncResetCC => {
                if let Action::Pressed = action {
                    // the step is kept only once its message is written
                    let mut stepped = *self.button;
                    let v = stepped.multi_value_inc_reset();
                    let r = write_optional(Some(MidiMessage::ControlChange { channel, control: stepped.midi_id, value: v }), buffer);
                    if let Ok(_) = r {
                        *self.button = stepped;
                    }
                    return r;
                } else {
                    None
                }
            },
            ButtonMessageType::MultiValueIncDecCC => {
                if let Action::Pressed = action {
                    // the step is kept only once its message is written
                    let mut stepped = *self.button;
                    let v = stepped.multi_value_inc_dec();
                    let r = write_optional(Some(MidiMessage::ControlChange { channel, control: stepped.midi_id, value: v }), buffer);
                    if let Ok(_) = r {
                        *self.button = stepped;
                    }
                    return r;
                } else {
                    None
                }
            },
            ButtonMessageType::ProgramChangeOffsetIncr => None,
            ButtonMessageType::ProgramChangeOffsetDecr => None,
            ButtonMessageType::BPMIncr => None,
            ButtonMessageType::BPMDecr => None,
            ButtonMessageType::OpenDeckPresetChange => None,
            ButtonMessageType::NoMessage => None,
            ButtonMessageType::Reserved => None,
        };
        write_optional(m, buffer)
    }
}

/// The message on a press, nothing on a release.
fn pressed(action: Action, m: MidiMessage) -> (r: Option<MidiMessage>)
    ensures r == on_press(action, m),
{
    match action {
        Action::Pressed => Some(m),
        Action::Released => None,
    }
}


/// The button after each of `actions` on channel `ch`, in order, and the
/// message that each sent, if any.
pub open spec fn spec_button_run(b: Button, actions: Seq<Action>, standard_note_off: bool, ch: u8) -> (Button, Seq<Option<MidiMessage>>)
    decreases actions.len(),
{
    if actions.len() == 0 {
        (b, Seq::<Option<MidiMessage>>::empty())
    } else {
        let (b1, ms) = spec_button_run(b, actions.drop_last(), standard_note_off, ch);
        let (b2, m) = spec_step(b1, actions.last(), standard_note_off, ch);
        (b2, ms.push(m))
    }
}

/// How many of `actions` are presses.
pub open spec fn spec_press_count(actions: Seq<Action>) -> nat
    decreases actions.len(),
{
    if actions.len() == 0 {
        0
    } else {
        spec_press_count(actions.drop_last()) + if actions.last() == Action::Pressed { 1nat } else { 0nat }
    }
}

/// The message of a latching note button that the `p`-th press sends:
/// note on with the button's value on odd presses, note off (or note on with
/// velocity 0) on even ones.
pub open spec fn spec_latching_note(b: Button, p: nat, standard_note_off: bool, ch: u8) -> MidiMessage {
    if p % 2 == 1 {
        MidiMessage::NoteOn { channel: ch, note: b.midi_id, velocity: b.value }
    } else if standard_note_off {
        MidiMessage::NoteOff { channel: ch, note: b.midi_id, velocity: 0 }
    } else {
        MidiMessage::NoteOn { channel: ch, note: b.midi_id, velocity: 0 }
    }
}

/// A latching note button that starts off toggles once per press: after any
/// run of presses and releases it is on exactly when it was pressed an odd
/// number of times, each press sends a note on with the button's value when
/// it turns the button on and a note off (or a note on with velocity 0) when
/// it turns it off, and a release sends nothing. Nothing but the latch
/// changes. Each event sends one message per channel it goes to, and each of
/// these messages takes a step, so this is the run of events on one channel.
pub proof fn lemma_latching_button_toggles(b: Button, actions: Seq<Action>, standard_note_off: bool, ch: u8)
    requires
        b.button_type == ButtonType::Latching,
        b.message_type == ButtonMessageType::Notes,
        !b.state.latch_on,
    ensures
        ({
            let (b2, ms) = spec_button_run(b, actions, standard_note_off, ch);
            &&& b2 == (Button { state: ButtonState { latch_on: spec_press_count(actions) % 2 == 1, ..b.state }, ..b })
            &&& ms.len() == actions.len()
            &&& forall|j: int| 0 <= j < actions.len() ==> #[trigger] ms[j] == if actions[j] == Action::Pressed {
                Some(spec_latching_note(b, spec_press_count(actions.take(j + 1)), standard_note_off, ch))
            } else {
                None::<MidiMessage>
            }
        }),
    decreases actions.len(),
{
    if actions.len() > 0 {
        let prev = actions.drop_last();
        lemma_latching_button_toggles(b, prev, standard_note_off, ch);
        assert(actions.take(actions.len() as int) =~= actions);
        assert forall|j: int| 0 <= j < prev.len() implies #[trigger] actions.take(j + 1) == prev.take(j + 1) by {
            assert(actions.take(j + 1) =~= prev.take(j + 1));
        }
        let (b2, ms) = spec_button_run(b, actions, standard_note_off, ch);
        let (b1, ms1) = spec_button_run(b, prev, standard_note_off, ch);
        assert forall|j: int| 0 <= j < actions.len() implies #[trigger] ms[j] == if actions[j] == Action::Pressed {
                Some(spec_latching_note(b, spec_press_count(actions.take(j + 1)), standard_note_off, ch))
            } else {
                None::<MidiMessage>
            } by {
            if j < prev.len() {
                assert(ms[j] == ms1[j]);
                assert(actions[j] == prev[j]);
            }
        }
    }
}


/// The latch status an event gives a button, from its fields: a momentary
/// button is on while pressed and off when released; a latching one flips on
/// each press and keeps its state on a release.
pub open spec fn event_turns_on(b: Button, action: Action) -> bool {
    if b.button_type == ButtonType::Momentary { action == Action::Pressed } else { action == Action::Pressed && !b.state.latch_on }
}

pub open spec fn event_turns_off(b: Button, action: Action) -> bool {
    if b.button_type == ButtonType::Momentary { action == Action::Released } else { action == Action::Pressed && b.state.latch_on }
}

/// What one event of a button sends on channel `ch`, and the button after
/// it, for the message types that follow the latch or the press:
/// - a latching button flips its latch on each press and nothing else
///   changes; a momentary one does not change;
/// - notes: a note on with the button's value when the event turns it on;
///   when it turns it off, a note off with velocity 0, or a note on with
///   velocity 0 without the standard note off;
/// - control change with reset: the button's value when it turns on, and 0 on
///   the MIDI id when it turns off (a release of a momentary button, the
///   second press of a latching one);
/// - control change, note off only, program change and control change with
///   value 0: their message on a press and nothing on a release;
/// - an event that turns nothing on or off (the release of a latching button)
///   sends nothing for notes and control change with reset.
pub proof fn lemma_button_messages(b: Button, action: Action, standard_note_off: bool, ch: u8)
    ensures ({
        let (b2, m) = spec_step(b, action, standard_note_off, ch);
        let t = b.message_type;
        &&& (t == ButtonMessageType::Notes || t == ButtonMessageType::ControlChangeWithReset || t == ButtonMessageType::ControlChange
            || t == ButtonMessageType::NoteOffOnly || t == ButtonMessageType::ProgramChange || t == ButtonMessageType::ControlChangeWithValue0) ==>
            b2 == (if b.button_type == ButtonType::Latching && action == Action::Pressed {
                Button { state: ButtonState { latch_on: !b.state.latch_on, ..b.state }, ..b }
            } else {
                b
            })
        &&& t == ButtonMessageType::Notes ==> {
            &&& event_turns_on(b, action) ==> m == Some(MidiMessage::NoteOn { channel: ch, note: b.midi_id, velocity: b.value })
            &&& event_turns_off(b, action) && standard_note_off ==> m == Some(MidiMessage::NoteOff { channel: ch, note: b.midi_id, velocity: 0 })
            &&& event_turns_off(b, action) && !standard_note_off ==> m == Some(MidiMessage::NoteOn { channel: ch, note: b.midi_id, velocity: 0 })
            &&& !event_turns_on(b, action) && !event_turns_off(b, action) ==> m is None
        }
        &&& t == ButtonMessageType::ControlChangeWithReset ==> {
            &&& event_turns_on(b, action) ==> m == Some(MidiMessage::ControlChange { channel: ch, control: b.midi_id, value: b.value })
            &&& event_turns_off(b, action) ==> m == Some(MidiMessage::ControlChange { channel: ch, control: b.midi_id, value: 0 })
            &&& !event_turns_on(b, action) && !event_turns_off(b, action) ==> m is None
        }
        &&& action == Action::Released && (t == ButtonMessageType::ControlChange || t == ButtonMessageType::NoteOffOnly
            || t == ButtonMessageType::ProgramChange || t == ButtonMessageType::ControlChangeWithValue0) ==> m is None
        &&& action == Action::Pressed ==> {
            &&& t == ButtonMessageType::ControlChange ==> m == Some(MidiMessage::ControlChange { channel: ch, control: b.midi_id, value: b.value })
            &&& t == ButtonMessageType::NoteOffOnly ==> m == Some(MidiMessage::NoteOff { channel: ch, note: b.midi_id, velocity: b.value })
            &&& t == ButtonMessageType::ProgramChange ==> m == Some(MidiMessage::ProgramChange { channel: ch, program: b.midi_id })
            &&& t == ButtonMessageType::ControlChangeWithValue0 ==> m == Some(MidiMessage::ControlChange { channel: ch, control: b.midi_id, value: 0 })
        }
    }),
{
}

} // verus!
