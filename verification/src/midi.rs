//! MIDI 1.0 messages that components emit, and their writing into a byte
//! buffer through the `midi2` crate.
use vstd::prelude::*;
use midi2::{Channeled, Data, Sysex};
use midi2::ux::{u4, u7, u14};
use midi2::channel_voice1::{ControlChange, NoteOff, NoteOn, PitchBend, ProgramChange};
use midi2::system_common::{ActiveSensing, Continue, Reset, Start, Stop, TimingClock};
use midi2::sysex7::Sysex7;

verus! {

#[verifier::external_type_specification]
#[verifier::external_body]
pub struct ExBufferOverflow(midi2::error::BufferOverflow);

/// The buffer handed to a message writer is too small for the message.
#[derive(Debug, Copy, Clone, PartialEq, Eq, Structural)]
pub struct BufferTooSmall;

/// A MIDI 1.0 message as plain values.
#[derive(Debug, Copy, Clone, PartialEq, Eq, Structural)]
pub enum MidiMessage {
    NoteOn { channel: u8, note: u8, velocity: u8 },
    NoteOff { channel: u8, note: u8, velocity: u8 },
    ControlChange { channel: u8, control: u8, value: u8 },
    ProgramChange { channel: u8, program: u8 },
    PitchBend { channel: u8, bend: u16 },
    /// A MIDI machine control command (a universal real time SysEx).
    MachineControl { device: u8, command: u8 },
    TimingClock,
    Start,
    Continue,
    Stop,
    ActiveSensing,
    Reset,
}

impl MidiMessage {
    /// Every field fits in its MIDI field: channels in four bits, data in seven,
    /// a bend in fourteen.
    pub open spec fn wf(self) -> bool {
        match self {
            MidiMessage::NoteOn { channel, note, velocity } => channel < 16 && note < 128 && velocity < 128,
            MidiMessage::NoteOff { channel, note, velocity } => channel < 16 && note < 128 && velocity < 128,
            MidiMessage::ControlChange { channel, control, value } => channel < 16 && control < 128 && value < 128,
            MidiMessage::ProgramChange { channel, program } => channel < 16 && program < 128,
            MidiMessage::PitchBend { channel, bend } => channel < 16 && bend < 0x4000,
            MidiMessage::MachineControl { device, command } => device < 128 && command < 128,
            _ => true,
        }
    }

    /// The bytes of the message in the MIDI 1.0 byte stream format.
    pub open spec fn bytes(self) -> Seq<u8> {
        match self {
            MidiMessage::NoteOn { channel, note, velocity } => seq![(0x90 + channel) as u8, note, velocity],
            MidiMessage::NoteOff { channel, note, velocity } => seq![(0x80 + channel) as u8, note, velocity],
            MidiMessage::ControlChange { channel, control, value } => seq![(0xB0 + channel) as u8, control, value],
            MidiMessage::ProgramChange { channel, program } => seq![(0xC0 + channel) as u8, program],
            MidiMessage::PitchBend { channel, bend } => seq![(0xE0 + channel) as u8, (bend % 128) as u8, (bend / 128) as u8],
            MidiMessage::MachineControl { device, command } => seq![0xF0u8, 0x7Fu8, device, 0x06u8, command, 0xF7u8],
            MidiMessage::TimingClock => seq![0xF8u8],
            MidiMessage::Start => seq![0xFAu8],
            MidiMessage::Continue => seq![0xFBu8],
            MidiMessage::Stop => seq![0xFCu8],
            MidiMessage::ActiveSensing => seq![0xFEu8],
            MidiMessage::Reset => seq![0xFFu8],
        }
    }
}

/// `midi2` `NoteOn::try_new_with_buffer` and its setters: writes a note on of
/// three bytes at the start of the buffer, or reports a buffer shorter than three.
#[verifier::external_body]
fn write_note_on(buffer: &mut [u8], channel: u8, note: u8, velocity: u8) -> (r: Result<usize, midi2::error::BufferOverflow>)
    requires channel < 16, note < 128, velocity < 128,
    ensures
        final(buffer)@.len() == old(buffer)@.len(),
        r is Ok <==> old(buffer)@.len() >= 3,
        r is Ok ==> r->Ok_0 == 3 && final(buffer)@.take(3) == seq![(0x90 + channel) as u8, note, velocity],
{
    let mut m = NoteOn::try_new_with_buffer(buffer)?;
    m.set_channel(u4::new(channel));
    m.set_note_number(u7::new(note));
    m.set_velocity(u7::new(velocity));
    Ok(m.data().len())
}

/// `midi2` `NoteOff::try_new_with_buffer` and its setters: writes a note off of
/// three bytes, or reports a buffer shorter than three.
#[verifier::external_body]
fn write_note_off(buffer: &mut [u8], channel: u8, note: u8, velocity: u8) -> (r: Result<usize, midi2::error::BufferOverflow>)
    requires channel < 16, note < 128, velocity < 128,
    ensures
        final(buffer)@.len() == old(buffer)@.len(),
        r is Ok <==> old(buffer)@.len() >= 3,
        r is Ok ==> r->Ok_0 == 3 && final(buffer)@.take(3) == seq![(0x80 + channel) as u8, note, velocity],
{
    let mut m = NoteOff::try_new_with_buffer(buffer)?;
    m.set_channel(u4::new(channel));
    m.set_note_number(u7::new(note));
    m.set_velocity(u7::new(velocity));
    Ok(m.data().len())
}

/// `midi2` `ControlChange::try_new_with_buffer` and its setters: writes a
/// control change of three bytes, or reports a buffer shorter than three.
#[verifier::external_body]
fn write_control_change(buffer: &mut [u8], channel: u8, control: u8, value: u8) -> (r: Result<usize, midi2::error::BufferOverflow>)
    requires channel < 16, control < 128, value < 128,
    ensures
        final(buffer)@.len() == old(buffer)@.len(),
        r is Ok <==> old(buffer)@.len() >= 3,
        r is Ok ==> r->Ok_0 == 3 && final(buffer)@.take(3) == seq![(0xB0 + channel) as u8, control, value],
{
    let mut m = ControlChange::try_new_with_buffer(buffer)?;
    m.set_channel(u4::new(channel));
    m.set_control(u7::new(control));
    m.set_control_data(u7::new(value));
    Ok(m.data().len())
}

/// `midi2` `ProgramChange::try_new_with_buffer` and its setters: writes a
/// program change of two bytes, or reports a buffer shorter than two.
#[verifier::external_body]
fn write_program_change(buffer: &mut [u8], channel: u8, program: u8) -> (r: Result<usize, midi2::error::BufferOverflow>)
    requires channel < 16, program < 128,
    ensures
        final(buffer)@.len() == old(buffer)@.len(),
        r is Ok <==> old(buffer)@.len() >= 2,
        r is Ok ==> r->Ok_0 == 2 && final(buffer)@.take(2) == seq![(0xC0 + channel) as u8, program],
{
    let mut m = ProgramChange::try_new_with_buffer(buffer)?;
    m.set_channel(u4::new(channel));
    m.set_program(u7::new(program));
    Ok(m.data().len())
}

/// `midi2` `PitchBend::try_new_with_buffer` and its setters: writes a pitch
/// bend of three bytes (the low and then the high seven bits of the bend),
/// or reports a buffer shorter than three.
#[verifier::external_body]
fn write_pitch_bend(buffer: &mut [u8], channel: u8, bend: u16) -> (r: Result<usize, midi2::error::BufferOverflow>)
    requires channel < 16, bend < 0x4000,
    ensures
        final(buffer)@.len() == old(buffer)@.len(),
        r is Ok <==> old(buffer)@.len() >= 3,
        r is Ok ==> r->Ok_0 == 3 && final(buffer)@.take(3) == seq![(0xE0 + channel) as u8, (bend % 128) as u8, (bend / 128) as u8],
{
    let mut m = PitchBend::try_new_with_buffer(buffer)?;
    m.set_channel(u4::new(channel));
    m.set_bend(u14::new(bend));
    Ok(m.data().len())
}

/// `midi2` `Sysex7::try_new_with_buffer` and `try_set_payload`: writes the
/// SysEx start byte, the payload and the end byte, or reports a buffer too
/// short for them (what it then holds is not stated).
#[verifier::external_body]
pub(crate) fn write_sysex(buffer: &mut [u8], payload: &[u8]) -> (r: Result<usize, midi2::error::BufferOverflow>)
    requires
        forall|i: int| 0 <= i < payload@.len() ==> payload@[i] < 128,
    ensures
        final(buffer)@.len() == old(buffer)@.len(),
        r is Ok <==> old(buffer)@.len() >= payload@.len() + 2,
        r is Ok ==> r->Ok_0 == payload@.len() + 2 && final(buffer)@.take(r->Ok_0 as int) == seq![0xF0u8] + payload@ + seq![0xF7u8],
{
    let mut m = Sysex7::try_new_with_buffer(buffer)?;
    m.try_set_payload(payload.iter().copied().map(u7::new))?;
    Ok(m.data().len())
}

/// `midi2` `TimingClock::try_new_with_buffer`: writes the single byte 0xF8.
#[verifier::external_body]
fn write_timing_clock(buffer: &mut [u8]) -> (r: Result<usize, midi2::error::BufferOverflow>)
    ensures
        final(buffer)@.len() == old(buffer)@.len(),
        r is Ok <==> old(buffer)@.len() >= 1,
        r is Ok ==> r->Ok_0 == 1 && final(buffer)@.take(1) == seq![0xF8u8],
{
    let m = TimingClock::try_new_with_buffer(buffer)?;
    Ok(m.data().len())
}

/// `midi2` `Start::try_new_with_buffer`: writes the single byte 0xFA.
#[verifier::external_body]
fn write_start(buffer: &mut [u8]) -> (r: Result<usize, midi2::error::BufferOverflow>)
    ensures
        final(buffer)@.len() == old(buffer)@.len(),
        r is Ok <==> old(buffer)@.len() >= 1,
        r is Ok ==> r->Ok_0 == 1 && final(buffer)@.take(1) == seq![0xFAu8],
{
    let m = Start::try_new_with_buffer(buffer)?;
    Ok(m.data().len())
}

/// `midi2` `Continue::try_new_with_buffer`: writes the single byte 0xFB.
#[verifier::external_body]
fn write_continue(buffer: &mut [u8]) -> (r: Result<usize, midi2::error::BufferOverflow>)
    ensures
        final(buffer)@.len() == old(buffer)@.len(),
        r is Ok <==> old(buffer)@.len() >= 1,
        r is Ok ==> r->Ok_0 == 1 && final(buffer)@.take(1) == seq![0xFBu8],
{
    let m = Continue::try_new_with_buffer(buffer)?;
    Ok(m.data().len())
}

/// `midi2` `Stop::try_new_with_buffer`: writes the single byte 0xFC.
#[verifier::external_body]
fn write_stop(buffer: &mut [u8]) -> (r: Result<usize, midi2::error::BufferOverflow>)
    ensures
        final(buffer)@.len() == old(buffer)@.len(),
        r is Ok <==> old(buffer)@.len() >= 1,
        r is Ok ==> r->Ok_0 == 1 && final(buffer)@.take(1) == seq![0xFCu8],
{
    let m = Stop::try_new_with_buffer(buffer)?;
    Ok(m.data().len())
}

/// `midi2` `ActiveSensing::try_new_with_buffer`: writes the single byte 0xFE.
#[verifier::external_body]
fn write_active_sensing(buffer: &mut [u8]) -> (r: Result<usize, midi2::error::BufferOverflow>)
    ensures
        final(buffer)@.len() == old(buffer)@.len(),
        r is Ok <==> old(buffer)@.len() >= 1,
        r is Ok ==> r->Ok_0 == 1 && final(buffer)@.take(1) == seq![0xFEu8],
{
    let m = ActiveSensing::try_new_with_buffer(buffer)?;
    Ok(m.data().len())
}

/// `midi2` `Reset::try_new_with_buffer`: writes the single byte 0xFF.
#[verifier::external_body]
fn write_reset(buffer: &mut [u8]) -> (r: Result<usize, midi2::error::BufferOverflow>)
    ensures
        final(buffer)@.len() == old(buffer)@.len(),
        r is Ok <==> old(buffer)@.len() >= 1,
        r is Ok ==> r->Ok_0 == 1 && final(buffer)@.take(1) == seq![0xFFu8],
{
    let m = Reset::try_new_with_buffer(buffer)?;
    Ok(m.data().len())
}

/// Maps the error of a `midi2` writer to the library's own.
fn map_overflow(r: Result<usize, midi2::error::BufferOverflow>) -> (o: Result<usize, BufferTooSmall>)
    ensures
        r is Ok <==> o is Ok,
        r is Ok ==> o->Ok_0 == r->Ok_0,
{
    match r {
        Ok(n) => Ok(n),
        Err(_) => Err(BufferTooSmall),
    }
}

/// Writes a message at the start of `buffer`. Succeeds exactly when the
/// buffer can hold the message, and then returns its length, with the
/// buffer starting with the message's bytes.
pub fn write_message(m: MidiMessage, buffer: &mut [u8]) -> (r: Result<usize, BufferTooSmall>)
    requires m.wf(),
    ensures
        final(buffer)@.len() == old(buffer)@.len(),
        r is Ok <==> old(buffer)@.len() >= m.bytes().len(),
        r is Ok ==> r->Ok_0 == m.bytes().len() && final(buffer)@.take(r->Ok_0 as int) == m.bytes(),
{
    let r = match m {
        MidiMessage::NoteOn { channel, note, velocity } => write_note_on(buffer, channel, note, velocity),
        MidiMessage::NoteOff { channel, note, velocity } => write_note_off(buffer, channel, note, velocity),
        MidiMessage::ControlChange { channel, control, value } => write_control_change(buffer, channel, control, value),
        MidiMessage::ProgramChange { channel, program } => write_program_change(buffer, channel, program),
        MidiMessage::PitchBend { channel, bend } => write_pitch_bend(buffer, channel, bend),
        MidiMessage::MachineControl { device, command } => {
            let payload: [u8; 4] = [0x7F, device, 0x06, command];
            let r = write_sysex(buffer, payload.as_slice());
            proof {
                assert(seq![0xF0u8] + payload@ + seq![0xF7u8] =~= m.bytes());
            }
            r
        },
        MidiMessage::TimingClock => write_timing_clock(buffer),
        MidiMessage::Start => write_start(buffer),
        MidiMessage::Continue => write_continue(buffer),
        MidiMessage::Stop => write_stop(buffer),
        MidiMessage::ActiveSensing => write_active_sensing(buffer),
        MidiMessage::Reset => write_reset(buffer),
    };
    map_overflow(r)
}

} // verus!

verus! {

/// What a writer of message `m` did: `r` is `Ok(Some(n))` with the buffer
/// starting with the `n` bytes of `m` exactly when the buffer could hold them,
/// and `Err` otherwise; the buffer keeps its length.
pub open spec fn written(m: MidiMessage, before: Seq<u8>, after: Seq<u8>, r: Result<Option<usize>, BufferTooSmall>) -> bool {
    &&& after.len() == before.len()
    &&& (r is Ok <==> before.len() >= m.bytes().len())
    &&& (r is Ok ==> r == Ok::<Option<usize>, BufferTooSmall>(Some(m.bytes().len() as usize)) && after.take(m.bytes().len() as int) == m.bytes())
}

/// Writes `m` when there is one; with none, leaves the buffer alone and yields `Ok(None)`.
pub fn write_optional(m: Option<MidiMessage>, buffer: &mut [u8]) -> (r: Result<Option<usize>, BufferTooSmall>)
    requires m matches Some(msg) ==> msg.wf(),
    ensures
        m is None ==> r == Ok::<Option<usize>, BufferTooSmall>(None) && final(buffer)@ == old(buffer)@,
        m matches Some(msg) ==> written(msg, old(buffer)@, final(buffer)@, r),
{
    match m {
        None => Ok(None),
        Some(msg) => match write_message(msg, buffer) {
            Ok(n) => Ok(Some(n)),
            Err(e) => Err(e),
        },
    }
}

} // verus!
