use opendeck::button::handler::Action;
use opendeck::config::{Config, FirmwareVersion, SystemAction, SystemHandler};
use opendeck::{SpecialRequest, SpecialResponse};
use opendeck::encoder::handler::EncoderPulse;
use opendeck::renderer::RenderError;
use opendeck::{Amount, Block, OpenDeckRequest, OpenDeckResponse, Wish, MAX_MESSAGE_SIZE};

use core::sync::atomic::{AtomicBool, Ordering};
use opendeck::analog::{AnalogMessageType, AnalogSection};
use opendeck::button::{ButtonMessageType, ButtonSection, ButtonType};
use opendeck::encoder::{EncoderMessageType, EncoderSection};
use opendeck::global::MidiIndex;
use opendeck::led::{ControlType, LedSection};
use opendeck::ChannelOrAll;

static CALLED: AtomicBool = AtomicBool::new(false);

struct TrackingHandler;
impl SystemHandler for TrackingHandler {
    fn reboot(&self) {}
    fn bootloader(&self) {}
    fn factory_reset(&self) {
        CALLED.store(true, Ordering::Relaxed);
    }
}

struct NoopHandler;
impl SystemHandler for NoopHandler {
    fn reboot(&self) {}
    fn bootloader(&self) {}
    fn factory_reset(&self) {}
}

/// The bytes of a response that was written.
fn out(r: Result<Option<usize>, RenderError>, buf: &[u8]) -> Vec<u8> {
    let n = r.unwrap().unwrap();
    buf[..n].to_vec()
}

/// The bytes of a MIDI message that was written.
fn midi(r: Result<Option<usize>, opendeck::midi::BufferTooSmall>, buf: &[u8]) -> Vec<u8> {
    let n = r.unwrap().unwrap();
    buf[..n].to_vec()
}

#[test]
fn test_process_sysex_handshake() {
    let version = FirmwareVersion {
        major: 1,
        minor: 0,
        revision: 0,
    };
    let uid = 12345;
    let mut config = Config::<1, 1, 1, 1, 1, _>::new(version, uid, NoopHandler);

    let request = [0xF0, 0x00, 0x53, 0x43, 0x00, 0x00, 0x01, 0xF7]; // Example SysEx request for handshake
    let mut responses = config.process_sysex(&request);

    let exp = &[0xF0, 0x00, 0x53, 0x43, 0x01, 0x00, 0x01, 0xF7][..];
    let buf = &mut [0; MAX_MESSAGE_SIZE];
    assert_eq!(
        out(responses.next(buf, &mut config), buf),
        exp
    );
}

#[test]
fn test_process_sysex_configuration() {
    let version = FirmwareVersion {
        major: 1,
        minor: 0,
        revision: 0,
    };
    let uid = 12345;
    let mut config = Config::<1, 1, 1, 1, 1, _>::new(version, uid, NoopHandler);

    let request = [
        0xF0, 0x00, 0x53, 0x43, 0x00, 0x00, 0x00, 0x00, 0x03, 0x03, 0x00, 0x00, 0x00, 0x00,
        0xF7,
    ];
    let mut responses = config.process_sysex(&request);

    let exp = &[
        0xF0, 0x00, 0x53, 0x43, 0x01, 0x00, 0x00, 0x00, 0x03, 0x03, 0x00, 0x00, 0x00, 0x00,
        0x00, 0x00, 0xF7,
    ];
    let buf = &mut [0; MAX_MESSAGE_SIZE];
    assert_eq!(
        out(responses.next(buf, &mut config), buf),
        exp
    );
}

#[test]
fn test_get_all_with_ack() {
    let version = FirmwareVersion {
        major: 1,
        minor: 0,
        revision: 0,
    };
    let uid = 12345;
    let mut config = Config::<1, 20, 1, 1, 1, _>::new(version, uid, NoopHandler);

    let request = [
        0xF0, 0x00, 0x53, 0x43, 0x00, 0x7E, 0x00, 0x01, 0x01, 0x02, 0x00, 0x00, 0x00, 0x00,
        0xF7,
    ];
    let mut responses = config.process_sysex(&request);
    let buf = &mut [0; MAX_MESSAGE_SIZE];
    let resp1 = [
        0xF0, 0x00, 0x53, 0x43, 0x01, 0x00, 0x00, 0x01, 0x01, 0x02, 0x00, 0x00, 0x00, 0x00,
        0x00, 0x00, 0x00, 0x01, 0x00, 0x02, 0x00, 0x03, 0x00, 0x04, 0x00, 0x05, 0x00, 0x06,
        0x00, 0x07, 0x00, 0x08, 0x00, 0x09, 0x00, 0x0A, 0x00, 0x0B, 0x00, 0x0C, 0x00, 0x0D,
        0x00, 0x0E, 0x00, 0x0F, 0x00, 0x10, 0x00, 0x11, 0x00, 0x12, 0x00, 0x13, 0xF7,
    ];
    assert_eq!(
        out(responses.next(buf, &mut config), buf),
        resp1
    );
    let resp2 = &[
        0xF0, 0x00, 0x53, 0x43, 0x01, 0x7E, 0x00, 0x01, 0x01, 0x02, 0x00, 0x00, 0x00, 0x00,
        0xF7,
    ];
    assert_eq!(
        out(responses.next(buf, &mut config), buf),
        resp2
    );
    assert_eq!(responses.next(&mut [], &mut config).unwrap(), None);
}

#[test]
fn test_get_all_multipart_two_parts() {
    let version = FirmwareVersion {
        major: 1,
        minor: 0,
        revision: 0,
    };
    let mut config = Config::<1, 64, 1, 1, 1, _>::new(version, 0, NoopHandler);

    // Handshake first
    let handshake = [0xF0, 0x00, 0x53, 0x43, 0x00, 0x00, 0x01, 0xF7];
    let buf = &mut [0; MAX_MESSAGE_SIZE];
    let mut responses = config.process_sysex(&handshake);
    responses.next(buf, &mut config).unwrap();

    // GET ALL, MIDI IDs for buttons, part=0x7F (return all parts)
    let request = [
        0xF0, 0x00, 0x53, 0x43, 0x00, 0x7F, 0x00, 0x01, 0x01, 0x02, 0x00, 0x00, 0x00, 0x00,
        0xF7,
    ];
    let mut responses = config.process_sysex(&request);

    // Part 0: 32 values (default MIDI IDs = 0..31)
    let r1 = out(responses.next(buf, &mut config), buf);
    let d1 = r1;
    assert_eq!(d1[0], 0xF0);
    assert_eq!(d1[5], 0x00); // MESSAGE_PART = 0
                             // 32 two-byte values = 64 bytes of payload
                             // Header: F0 00 53 43 01 <part> 00 01 01 02 00 00 00 00 = 14 bytes + payload + F7
    let expected_len_part = 14 + 32 * 2 + 1; // 79
    assert_eq!(d1.len(), expected_len_part);
    assert_eq!(d1[14], 0x00); // first value high byte = 0
    assert_eq!(d1[15], 0x00); // first value low byte = 0

    // Part 1: 32 values (default MIDI IDs = 32..63)
    let r2 = out(responses.next(buf, &mut config), buf);
    let d2 = r2;
    assert_eq!(d2[5], 0x01); // MESSAGE_PART = 1
    assert_eq!(d2.len(), expected_len_part);
    // First value in part 1 should be MIDI ID 32 (encoded as two bytes)
    assert_eq!(d2[14], 0x00); // high byte of 32
    assert_eq!(d2[15], 0x20); // low byte of 32

    // No more parts
    assert!(responses.next(buf, &mut config).unwrap().is_none());
}

#[test]
fn test_get_all_multipart_with_ack() {
    let version = FirmwareVersion {
        major: 1,
        minor: 0,
        revision: 0,
    };
    let mut config = Config::<1, 64, 1, 1, 1, _>::new(version, 0, NoopHandler);

    // Handshake
    let handshake = [0xF0, 0x00, 0x53, 0x43, 0x00, 0x00, 0x01, 0xF7];
    let buf = &mut [0; MAX_MESSAGE_SIZE];
    let mut responses = config.process_sysex(&handshake);
    responses.next(buf, &mut config).unwrap();

    // GET ALL, MIDI IDs for buttons, part=0x7E (return all parts + final ACK)
    let request = [
        0xF0, 0x00, 0x53, 0x43, 0x00, 0x7E, 0x00, 0x01, 0x01, 0x02, 0x00, 0x00, 0x00, 0x00,
        0xF7,
    ];
    let mut responses = config.process_sysex(&request);

    // Part 0
    let r1 = out(responses.next(buf, &mut config), buf);
    assert_eq!(r1[5], 0x00);

    // Part 1
    let r2 = out(responses.next(buf, &mut config), buf);
    assert_eq!(r2[5], 0x01);

    // Final ACK (empty data, part=0x7E)
    let r3 = out(responses.next(buf, &mut config), buf);
    let d3 = r3;
    assert_eq!(d3[5], 0x7E); // MESSAGE_PART = 0x7E
    assert_eq!(d3[4], 0x01); // MESSAGE_STATUS = ACK
                             // No payload values — just header + F7
    assert_eq!(*d3.last().unwrap(), 0xF7);

    // Done
    assert!(responses.next(buf, &mut config).unwrap().is_none());
}

#[test]
fn test_get_all_exactly_32_single_part() {
    let version = FirmwareVersion {
        major: 1,
        minor: 0,
        revision: 0,
    };
    let mut config = Config::<1, 32, 1, 1, 1, _>::new(version, 0, NoopHandler);

    let handshake = [0xF0, 0x00, 0x53, 0x43, 0x00, 0x00, 0x01, 0xF7];
    let buf = &mut [0; MAX_MESSAGE_SIZE];
    let mut responses = config.process_sysex(&handshake);
    responses.next(buf, &mut config).unwrap();

    // GET ALL, part=0x7F
    let request = [
        0xF0, 0x00, 0x53, 0x43, 0x00, 0x7F, 0x00, 0x01, 0x01, 0x02, 0x00, 0x00, 0x00, 0x00,
        0xF7,
    ];
    let mut responses = config.process_sysex(&request);

    let r1 = out(responses.next(buf, &mut config), buf);
    assert_eq!(r1[5], 0x00); // part 0
    assert_eq!(r1.len(), 14 + 32 * 2 + 1);

    // No more
    assert!(responses.next(buf, &mut config).unwrap().is_none());
}

#[test]
fn test_get_all_specific_part() {
    let version = FirmwareVersion {
        major: 1,
        minor: 0,
        revision: 0,
    };
    let mut config = Config::<1, 64, 1, 1, 1, _>::new(version, 0, NoopHandler);

    let handshake = [0xF0, 0x00, 0x53, 0x43, 0x00, 0x00, 0x01, 0xF7];
    let buf = &mut [0; MAX_MESSAGE_SIZE];
    let mut responses = config.process_sysex(&handshake);
    responses.next(buf, &mut config).unwrap();

    // GET ALL button MIDI IDs, part=1 (only parameters 32-63)
    let request = [
        0xF0, 0x00, 0x53, 0x43, 0x00, 0x01, 0x00, 0x01, 0x01, 0x02, 0x00, 0x00, 0x00, 0x00,
        0xF7,
    ];
    let mut responses = config.process_sysex(&request);

    let r1 = out(responses.next(buf, &mut config), buf);
    assert_eq!(r1[5], 0x01); // part 1
    assert_eq!(r1.len(), 14 + 32 * 2 + 1);
    // First value = MIDI ID 32
    assert_eq!(r1[14], 0x00);
    assert_eq!(r1[15], 0x20);

    // Only one message for a specific part
    assert!(responses.next(buf, &mut config).unwrap().is_none());
}

#[test]
fn test_get_all_multipart_encoders() {
    let version = FirmwareVersion {
        major: 1,
        minor: 0,
        revision: 0,
    };
    let mut config = Config::<1, 1, 1, 48, 1, _>::new(version, 0, NoopHandler);

    let handshake = [0xF0, 0x00, 0x53, 0x43, 0x00, 0x00, 0x01, 0xF7];
    let buf = &mut [0; MAX_MESSAGE_SIZE];
    let mut responses = config.process_sysex(&handshake);
    responses.next(buf, &mut config).unwrap();

    // GET ALL encoder MIDI IDs, part=0x7F
    let request = [
        0xF0, 0x00, 0x53, 0x43, 0x00, 0x7F, 0x00, 0x01, 0x02, 0x03, 0x00, 0x00, 0x00, 0x00,
        0xF7,
    ];
    let mut responses = config.process_sysex(&request);

    // Part 0: 32 values
    let r1 = out(responses.next(buf, &mut config), buf);
    assert_eq!(r1[5], 0x00);
    assert_eq!(r1.len(), 14 + 32 * 2 + 1);

    // Part 1: 16 values (48 - 32)
    let r2 = out(responses.next(buf, &mut config), buf);
    assert_eq!(r2[5], 0x01);
    assert_eq!(r2.len(), 14 + 16 * 2 + 1);
    // First value in part 1 = encoder index 32 (default MIDI ID = 32)
    assert_eq!(r2[14], 0x00);
    assert_eq!(r2[15], 0x20);

    assert!(responses.next(buf, &mut config).unwrap().is_none());
}

#[test]
fn test_get_all_multipart_analog() {
    let version = FirmwareVersion {
        major: 1,
        minor: 0,
        revision: 0,
    };
    let mut config = Config::<1, 1, 40, 1, 1, _>::new(version, 0, NoopHandler);

    let handshake = [0xF0, 0x00, 0x53, 0x43, 0x00, 0x00, 0x01, 0xF7];
    let buf = &mut [0; MAX_MESSAGE_SIZE];
    let mut responses = config.process_sysex(&handshake);
    responses.next(buf, &mut config).unwrap();

    // GET ALL analog MIDI IDs, part=0x7F
    let request = [
        0xF0, 0x00, 0x53, 0x43, 0x00, 0x7F, 0x00, 0x01, 0x03, 0x03, 0x00, 0x00, 0x00, 0x00,
        0xF7,
    ];
    let mut responses = config.process_sysex(&request);

    // Part 0: 32 values
    let r1 = out(responses.next(buf, &mut config), buf);
    assert_eq!(r1[5], 0x00);
    assert_eq!(r1.len(), 14 + 32 * 2 + 1);

    // Part 1: 8 values (40 - 32)
    let r2 = out(responses.next(buf, &mut config), buf);
    assert_eq!(r2[5], 0x01);
    assert_eq!(r2.len(), 14 + 8 * 2 + 1);

    assert!(responses.next(buf, &mut config).unwrap().is_none());
}

#[test]
fn test_get_all_multipart_leds() {
    let version = FirmwareVersion {
        major: 1,
        minor: 0,
        revision: 0,
    };
    let mut config = Config::<1, 1, 1, 1, 96, _>::new(version, 0, NoopHandler);

    let handshake = [0xF0, 0x00, 0x53, 0x43, 0x00, 0x00, 0x01, 0xF7];
    let buf = &mut [0; MAX_MESSAGE_SIZE];
    let mut responses = config.process_sysex(&handshake);
    responses.next(buf, &mut config).unwrap();

    // GET ALL LED activation IDs (section 3), part=0x7F
    let request = [
        0xF0, 0x00, 0x53, 0x43, 0x00, 0x7F, 0x00, 0x01, 0x04, 0x03, 0x00, 0x00, 0x00, 0x00,
        0xF7,
    ];
    let mut responses = config.process_sysex(&request);

    // Part 0: 32 values
    let r1 = out(responses.next(buf, &mut config), buf);
    assert_eq!(r1[5], 0x00);
    assert_eq!(r1.len(), 14 + 32 * 2 + 1);

    // Part 1: 32 values
    let r2 = out(responses.next(buf, &mut config), buf);
    assert_eq!(r2[5], 0x01);
    assert_eq!(r2.len(), 14 + 32 * 2 + 1);

    // Part 2: 32 values (96 - 64)
    let r3 = out(responses.next(buf, &mut config), buf);
    assert_eq!(r3[5], 0x02);
    assert_eq!(r3.len(), 14 + 32 * 2 + 1);

    assert!(responses.next(buf, &mut config).unwrap().is_none());
}

#[test]
fn test_local_loopback_output() {

    let version = FirmwareVersion {
        major: 1,
        minor: 0,
        revision: 0,
    };
    let mut config: Config<1, 2, 2, 2, 2, _> = Config::new(version, 0, NoopHandler);

    // Directly configure output 0 on the preset
    let preset = config.current_preset_mut().unwrap();
    let led = preset.led_mut(0).unwrap();
    led.set(LedSection::ControlType(ControlType::LocalNoteSingleValue));
    led.set(LedSection::ActivationId(0));
    led.set(LedSection::ActivationValue(127));
    led.set(LedSection::Channel(ChannelOrAll::Channel(1)));

    // Output should be off initially
    assert!(!config.output_state(0));
    assert_eq!(config.output_count(), 2);

    // Simulate local Note On (note 0, velocity 127, channel 1)
    let changed = config.notify_local_midi(1, 0, 127, true, false);
    assert_eq!(changed, 1, "expected 1 output to change");
    assert!(config.output_state(0));

    // Simulate local Note Off
    config.notify_local_midi(1, 0, 0, false, false);
    assert!(!config.output_state(0));
}

#[test]
fn test_preset_default_with_different_analog_and_encoder_counts() {
    // Config<P=1, B=6, A=2, E=4, L=8> — A != E exposes the generic param swap
    let version = FirmwareVersion {
        major: 1,
        minor: 0,
        revision: 0,
    };
    let config: Config<1, 6, 2, 4, 8, _> = Config::new(version, 0, NoopHandler);
    let preset = config.presets.get(0).unwrap();
    assert_eq!(preset.buttons.len(), 6);
    assert_eq!(preset.analogs.len(), 2);
    assert_eq!(preset.encoders.len(), 4);
    assert_eq!(preset.leds.len(), 8);
}

#[test]
fn test_global_midi_channel_overrides_button_channel() {

    let version = FirmwareVersion {
        major: 1,
        minor: 0,
        revision: 0,
    };
    let mut config: Config<1, 2, 1, 1, 1, _> = Config::new(version, 0, NoopHandler);

    // Configure button 0 on channel 1 (0-based) with Note message
    let preset = config.current_preset_mut().unwrap();
    let b = preset.button_mut(0).unwrap();
    b.set(ButtonSection::MessageType(ButtonMessageType::Notes));
    b.set(ButtonSection::Channel(ChannelOrAll::Channel(0))); // channel 1 (0-based)
    b.set(ButtonSection::Value(127));

    // Enable global MIDI channel and set it to channel 5 (wire format 1-based)
    config.global.midi.set(MidiIndex::UseGlobalMIDIchannel, 1);
    config.global.midi.set(MidiIndex::GlobalMIDIchannel, 5); // wire 5 → Channel(5) → MIDI ch 5

    // Button press should use global channel (5) not per-component channel (0)
    let mut buf = [0u8; 8];
    let mut messages = config.handle_button(0, Action::Pressed);
    let msg = midi(messages.next(&mut buf), &buf);
    // Note On on channel 5 = status 0x95
    assert_eq!(msg[0] & 0xF0, 0x90); // Note On
    assert_eq!(msg[0] & 0x0F, 5); // channel 5
}

#[test]
fn test_standard_note_off_enabled_sends_real_note_off() {

    let version = FirmwareVersion {
        major: 1,
        minor: 0,
        revision: 0,
    };
    let mut config: Config<1, 2, 1, 1, 1, _> = Config::new(version, 0, NoopHandler);

    // Configure button 0 as momentary Note
    let preset = config.current_preset_mut().unwrap();
    let b = preset.button_mut(0).unwrap();
    b.set(ButtonSection::Type(ButtonType::Momentary));
    b.set(ButtonSection::MessageType(ButtonMessageType::Notes));
    b.set(ButtonSection::Channel(ChannelOrAll::Channel(0)));
    b.set(ButtonSection::MidiId(60));
    b.set(ButtonSection::Value(100));

    // Enable standard note off
    config.global.midi.set(MidiIndex::StandardNoteOff, 1);

    // Press → Note On
    let mut buf = [0u8; 8];
    let mut messages = config.handle_button(0, Action::Pressed);
    let msg = midi(messages.next(&mut buf), &buf);
    assert_eq!(msg, &[0x90, 60, 100]);

    // Release → should send real Note Off (0x80) not Note On vel=0 (0x90 vel=0)
    let mut messages = config.handle_button(0, Action::Released);
    let msg = midi(messages.next(&mut buf), &buf);
    assert_eq!(msg[0], 0x80); // Note Off status
    assert_eq!(msg[1], 60); // same note
}

#[test]
fn test_global_midi_channel_overrides_encoder_channel() {

    let version = FirmwareVersion {
        major: 1,
        minor: 0,
        revision: 0,
    };
    let mut config: Config<1, 1, 1, 2, 1, _> = Config::new(version, 0, NoopHandler);

    // Configure encoder 0: enabled, CC 7-bit, channel 2 (0-based = 1)
    let preset = config.current_preset_mut().unwrap();
    let e = preset.encoder_mut(0).unwrap();
    e.set(EncoderSection::Enabled(true));
    e.set(EncoderSection::MessageType(
        EncoderMessageType::ControlChange,
    ));
    e.set(EncoderSection::Channel(ChannelOrAll::Channel(1))); // ch 2
    e.set(EncoderSection::PulsesPerStep(1));

    // Enable global channel = 10 (wire format)
    config.global.midi.set(MidiIndex::UseGlobalMIDIchannel, 1);
    config.global.midi.set(MidiIndex::GlobalMIDIchannel, 10); // wire 10 → Channel(10) → MIDI ch 10

    let mut buf = [0u8; 8];
    let mut messages = config.handle_encoder(0, EncoderPulse::Clockwise);
    let msg = midi(messages.next(&mut buf), &buf);
    // CC on channel 10 = status 0xBA
    assert_eq!(msg[0], 0xBA);
}

#[test]
fn test_global_midi_channel_overrides_analog_channel() {

    let version = FirmwareVersion {
        major: 1,
        minor: 0,
        revision: 0,
    };
    let mut config: Config<1, 1, 2, 1, 1, _> = Config::new(version, 0, NoopHandler);

    // Configure analog 0: enabled, CC 7-bit, channel 3 (0-based = 2)
    let preset = config.current_preset_mut().unwrap();
    let a = preset.analog_mut(0).unwrap();
    a.set(AnalogSection::Enabled(true));
    a.set(AnalogSection::MessageType(
        AnalogMessageType::PotentiometerWithCCMessage7Bit,
    ));
    a.set(AnalogSection::Channel(ChannelOrAll::Channel(2)));

    // Enable global channel = 7 (wire format)
    config.global.midi.set(MidiIndex::UseGlobalMIDIchannel, 1);
    config.global.midi.set(MidiIndex::GlobalMIDIchannel, 7); // wire 7 → Channel(7) → MIDI ch 7

    let mut buf = [0u8; 8];
    let mut messages = config.handle_analog(0, 2048); // mid-range ADC value
    let msg = midi(messages.next(&mut buf), &buf);
    // CC on channel 7 = status 0xB7
    assert_eq!(msg[0], 0xB7);
}

#[test]
fn test_global_channel_disabled_uses_component_channel() {

    let version = FirmwareVersion {
        major: 1,
        minor: 0,
        revision: 0,
    };
    let mut config: Config<1, 2, 1, 1, 1, _> = Config::new(version, 0, NoopHandler);

    // Configure button 0 on channel 3
    let preset = config.current_preset_mut().unwrap();
    let b = preset.button_mut(0).unwrap();
    b.set(ButtonSection::MessageType(ButtonMessageType::Notes));
    b.set(ButtonSection::Channel(ChannelOrAll::Channel(3)));
    b.set(ButtonSection::Value(127));

    // Enable global channel, use it, then disable it
    config.global.midi.set(MidiIndex::UseGlobalMIDIchannel, 1);
    config.global.midi.set(MidiIndex::GlobalMIDIchannel, 10);

    let mut buf = [0u8; 8];
    let mut messages = config.handle_button(0, Action::Pressed);
    let msg = midi(messages.next(&mut buf), &buf);
    assert_eq!(msg[0] & 0x0F, 10); // global channel

    // Now disable global channel
    config.global.midi.set(MidiIndex::UseGlobalMIDIchannel, 0);

    let mut messages = config.handle_button(0, Action::Pressed);
    let msg = midi(messages.next(&mut buf), &buf);
    assert_eq!(msg[0] & 0x0F, 3); // back to component channel
}

#[test]
fn test_serial_number_request() {
    let version = FirmwareVersion {
        major: 1,
        minor: 0,
        revision: 0,
    };
    let mut config = Config::<1, 1, 1, 1, 1, _>::new(version, 0, NoopHandler);
    config.set_serial_number(&[0xAB, 0xCD, 0xEF, 0x12]);

    let request = [0xF0, 0x00, 0x53, 0x43, 0x00, 0x00, 0x53, 0xF7];
    let mut responses = config.process_sysex(&request);
    let buf = &mut [0; MAX_MESSAGE_SIZE];
    let resp = out(responses.next(buf, &mut config), buf);
    let data = resp;
    assert_eq!(data[0], 0xF0);
    assert_eq!(data[6], 0x53); // serial number special ID
                               // First byte 0xAB encoded as two bytes: high=0x01, low=0x2B
    assert_eq!(data[7], 0x01);
    assert_eq!(data[8], 0x2B);
    assert_eq!(*data.last().unwrap(), 0xF7);
}

#[test]
fn test_factory_reset_calls_handler() {

    let version = FirmwareVersion {
        major: 1,
        minor: 0,
        revision: 0,
    };
    let mut config = Config::<1, 1, 1, 1, 1, _>::new(version, 0, TrackingHandler);

    // Handshake first (required to enable SysEx)
    config.process_sysex(&[0xF0, 0x00, 0x53, 0x43, 0x00, 0x00, 0x01, 0xF7]);

    CALLED.store(false, Ordering::Relaxed);
    let request = [0xF0, 0x00, 0x53, 0x43, 0x00, 0x00, 0x44, 0xF7];
    let mut responses = config.process_sysex(&request);
    let buf = &mut [0; MAX_MESSAGE_SIZE];
    let _ = responses.next(buf, &mut config);

    assert!(
        CALLED.load(Ordering::Relaxed),
        "factory_reset() should have been called"
    );
}

#[test]
fn test_global_led_settings_stored_and_retrievable() {
    let version = FirmwareVersion {
        major: 1,
        minor: 0,
        revision: 0,
    };
    let mut config: Config<1, 1, 1, 1, 1, _> = Config::new(version, 0, NoopHandler);

    // SET global LED setting: BlinkWithMIDIClock (index 0) = 1
    config.process_req(OpenDeckRequest::Configuration(
        Wish::SetValue,
        Amount::Single,
        Block::Led(0, LedSection::Global(1)),
    ));

    // GET should return 1
    let res = config.process_req(OpenDeckRequest::Configuration(
        Wish::Get,
        Amount::Single,
        Block::Led(0, LedSection::Global(0)),
    ));
    assert_eq!(
        res,
        Some(OpenDeckResponse::Configuration(
            Wish::Get,
            Amount::Single,
            Block::Led(0, LedSection::Global(0)),
            heapless::Vec::from_slice(&[1]).unwrap(),
        ))
    );
}

#[test]
fn test_button_preset_change() {

    let version = FirmwareVersion {
        major: 1,
        minor: 0,
        revision: 0,
    };
    let mut config: Config<3, 2, 1, 1, 1, _> = Config::new(version, 0, NoopHandler);

    // Configure button 0 as preset change to preset 1
    config.process_req(OpenDeckRequest::Configuration(
        Wish::SetValue,
        Amount::Single,
        Block::Button(
            0,
            ButtonSection::MessageType(ButtonMessageType::OpenDeckPresetChange),
        ),
    ));
    config.process_req(OpenDeckRequest::Configuration(
        Wish::SetValue,
        Amount::Single,
        Block::Button(0, ButtonSection::MidiId(1)),
    ));

    assert_eq!(config.active_preset(), 0);

    // Press the button
    config.handle_button(0, Action::Pressed);

    assert_eq!(config.active_preset(), 1);
}

#[test]
fn test_encoder_preset_change() {

    let version = FirmwareVersion {
        major: 1,
        minor: 0,
        revision: 0,
    };
    let mut config: Config<3, 1, 1, 1, 1, _> = Config::new(version, 0, NoopHandler);

    // Configure encoder 0 as preset change on all presets
    for preset in 0..3usize {
        config.global.preset.current = preset;
        config.process_req(OpenDeckRequest::Configuration(
            Wish::SetValue,
            Amount::Single,
            Block::Encoder(0, EncoderSection::Enabled(true)),
        ));
        config.process_req(OpenDeckRequest::Configuration(
            Wish::SetValue,
            Amount::Single,
            Block::Encoder(
                0,
                EncoderSection::MessageType(EncoderMessageType::PresetChange),
            ),
        ));
    }
    config.global.preset.current = 0;

    assert_eq!(config.active_preset(), 0);

    // Clockwise → increment
    config.handle_encoder(0, EncoderPulse::Clockwise);
    assert_eq!(config.active_preset(), 1);

    config.handle_encoder(0, EncoderPulse::Clockwise);
    assert_eq!(config.active_preset(), 2);

    // Clamp at max (P-1 = 2)
    config.handle_encoder(0, EncoderPulse::Clockwise);
    assert_eq!(config.active_preset(), 2);

    // Counter-clockwise → decrement
    config.handle_encoder(0, EncoderPulse::CounterClockwise);
    assert_eq!(config.active_preset(), 1);

    // Clamp at 0
    config.handle_encoder(0, EncoderPulse::CounterClockwise);
    config.handle_encoder(0, EncoderPulse::CounterClockwise);
    assert_eq!(config.active_preset(), 0);
}

#[test]
fn test_button_bpm_increment() {

    let version = FirmwareVersion {
        major: 1,
        minor: 0,
        revision: 0,
    };
    let mut config: Config<1, 2, 1, 1, 1, _> = Config::new(version, 0, NoopHandler);

    config.process_req(OpenDeckRequest::Configuration(
        Wish::SetValue,
        Amount::Single,
        Block::Button(0, ButtonSection::MessageType(ButtonMessageType::BPMIncr)),
    ));

    assert_eq!(config.bpm().get(), 120);

    let mut buf = [0u8; 8];
    let mut m = config.handle_button(0, Action::Pressed);
    assert_eq!(m.next(&mut buf), Ok(None));

    assert_eq!(config.bpm().get(), 121);
}

#[test]
fn test_button_bpm_decrement() {

    let version = FirmwareVersion {
        major: 1,
        minor: 0,
        revision: 0,
    };
    let mut config: Config<1, 2, 1, 1, 1, _> = Config::new(version, 0, NoopHandler);

    config.process_req(OpenDeckRequest::Configuration(
        Wish::SetValue,
        Amount::Single,
        Block::Button(0, ButtonSection::MessageType(ButtonMessageType::BPMDecr)),
    ));

    assert_eq!(config.bpm().get(), 120);

    let mut buf = [0u8; 8];
    let mut m = config.handle_button(0, Action::Pressed);
    assert_eq!(m.next(&mut buf), Ok(None));

    assert_eq!(config.bpm().get(), 119);
}

#[test]
fn test_encoder_bpm_mode() {

    let version = FirmwareVersion {
        major: 1,
        minor: 0,
        revision: 0,
    };
    let mut config: Config<1, 1, 1, 2, 1, _> = Config::new(version, 0, NoopHandler);

    config.process_req(OpenDeckRequest::Configuration(
        Wish::SetValue,
        Amount::Single,
        Block::Encoder(0, EncoderSection::Enabled(true)),
    ));
    config.process_req(OpenDeckRequest::Configuration(
        Wish::SetValue,
        Amount::Single,
        Block::Encoder(0, EncoderSection::MessageType(EncoderMessageType::BPM)),
    ));

    assert_eq!(config.bpm().get(), 120);

    let mut buf = [0u8; 8];
    let mut m = config.handle_encoder(0, EncoderPulse::Clockwise);
    assert_eq!(m.next(&mut buf), Ok(None));
    assert_eq!(config.bpm().get(), 121);

    let mut m = config.handle_encoder(0, EncoderPulse::CounterClockwise);
    assert_eq!(m.next(&mut buf), Ok(None));
    assert_eq!(config.bpm().get(), 120);
}

#[test]
fn test_external_midi_cc_updates_led_level() {

    let version = FirmwareVersion {
        major: 1,
        minor: 0,
        revision: 0,
    };
    let mut config: Config<1, 1, 1, 1, 2, _> = Config::new(version, 0, NoopHandler);

    // Configure LED 0: MidiInCcMultiValue, activation ID=3, channel=1
    config.process_req(OpenDeckRequest::Configuration(
        Wish::SetValue,
        Amount::Single,
        Block::Led(0, LedSection::ControlType(ControlType::MidiInCcMultiValue)),
    ));
    config.process_req(OpenDeckRequest::Configuration(
        Wish::SetValue,
        Amount::Single,
        Block::Led(0, LedSection::ActivationId(3)),
    ));
    config.process_req(OpenDeckRequest::Configuration(
        Wish::SetValue,
        Amount::Single,
        Block::Led(0, LedSection::Channel(ChannelOrAll::Channel(0))),
    ));

    // Verify control type was stored
    assert_eq!(
        config.output_control_type(0),
        ControlType::MidiInCcMultiValue
    );

    // Send external MIDI CC#3 value=100 on channel 0
    let changed = config.notify_external_midi(0, 3, 100, false, true);
    assert!(changed > 0, "LED should have been updated");
    assert_eq!(config.output_level(0), 100);
}

#[test]
fn test_external_midi_note_updates_led_level() {

    let version = FirmwareVersion {
        major: 1,
        minor: 0,
        revision: 0,
    };
    let mut config: Config<1, 1, 1, 1, 2, _> = Config::new(version, 0, NoopHandler);

    // Configure LED 0: MidiInNoteMultiValue, activation ID=60, channel=1
    config.process_req(OpenDeckRequest::Configuration(
        Wish::SetValue,
        Amount::Single,
        Block::Led(
            0,
            LedSection::ControlType(ControlType::MidiInNoteMultiValue),
        ),
    ));
    config.process_req(OpenDeckRequest::Configuration(
        Wish::SetValue,
        Amount::Single,
        Block::Led(0, LedSection::ActivationId(60)),
    ));
    config.process_req(OpenDeckRequest::Configuration(
        Wish::SetValue,
        Amount::Single,
        Block::Led(0, LedSection::Channel(ChannelOrAll::Channel(0))),
    ));

    assert_eq!(
        config.output_control_type(0),
        ControlType::MidiInNoteMultiValue
    );

    // Send external Note On, note=60, velocity=80, channel 0
    let changed = config.notify_external_midi(0, 60, 80, true, false);
    assert!(changed > 0, "LED should have been updated");
    assert_eq!(config.output_level(0), 80);

    // Higher velocity
    let changed = config.notify_external_midi(0, 60, 127, true, false);
    assert!(changed > 0);
    assert_eq!(config.output_level(0), 127);

    // Note off → level 0
    let changed = config.notify_external_midi(0, 60, 0, false, false);
    assert!(changed > 0);
    assert_eq!(config.output_level(0), 0);
}

#[test]
fn test_program_change_button_produces_2_byte_message() {

    let version = FirmwareVersion {
        major: 1,
        minor: 0,
        revision: 0,
    };
    let mut config = Config::<1, 10, 2, 2, 10, _>::new(version, 0, NoopHandler);

    // Configure button 2 as ProgramChange with program=5, channel=1
    config.process_req(OpenDeckRequest::Configuration(
        Wish::SetValue,
        Amount::Single,
        Block::Button(
            2,
            ButtonSection::MessageType(ButtonMessageType::ProgramChange),
        ),
    ));
    config.process_req(OpenDeckRequest::Configuration(
        Wish::SetValue,
        Amount::Single,
        Block::Button(2, ButtonSection::MidiId(5)),
    ));

    // Press button → should produce a ProgramChange message
    let mut buf = [0u8; 6];
    let mut messages = config.handle_button(2, opendeck::button::handler::Action::Pressed);
    let msg = messages.next(&mut buf).unwrap();
    assert!(msg.is_some(), "ProgramChange button must produce a message");

    let m = msg.unwrap();
    let data = &buf[..m];
    // ProgramChange is 2 bytes: [0xC0 | channel, program]
    assert_eq!(data.len(), 2, "ProgramChange is a 2-byte MIDI message");
    assert_eq!(data[0] & 0xF0, 0xC0);
    assert_eq!(data[1], 5); // program number
}

#[test]
fn process_sysex_answers_short_and_wrong_status_requests_with_an_error() {
    let version = FirmwareVersion {
        major: 1,
        minor: 0,
        revision: 0,
    };
    let mut config = Config::<1, 1, 1, 1, 1, _>::new(version, 1, NoopHandler);
    let buf = &mut [0; MAX_MESSAGE_SIZE];

    // a configuration request cut before its new value
    let short = [0xF0, 0x00, 0x53, 0x43, 0x00, 0x00, 0x00, 0x00, 0x03, 0x03, 0x00, 0x05, 0x00, 0xF7];
    let mut responses = config.process_sysex(&short);
    assert_eq!(
        out(responses.next(buf, &mut config), buf),
        [0xF0, 0x00, 0x53, 0x43, 0x0B, 0x00, 0x01, 0xF7]
    );

    // a message that is not a request
    let response = [0xF0, 0x00, 0x53, 0x43, 0x01, 0x00, 0x01, 0xF7];
    let mut responses = config.process_sysex(&response);
    assert_eq!(
        out(responses.next(buf, &mut config), buf),
        [0xF0, 0x00, 0x53, 0x43, 0x02, 0x00, 0x01, 0xF7]
    );
}

#[test]
fn multipart_get_all_gives_each_part_then_nothing() {
    let version = FirmwareVersion {
        major: 1,
        minor: 0,
        revision: 0,
    };
    let mut config = Config::<1, 70, 1, 1, 1, _>::new(version, 1, NoopHandler);
    let buf = &mut [0; MAX_MESSAGE_SIZE];
    // get all button MIDI ids, every part followed by an acknowledgement
    let request = [0xF0, 0x00, 0x53, 0x43, 0x00, 0x7E, 0x00, 0x01, 0x01, 0x02, 0x00, 0x00, 0x00, 0x00, 0xF7];
    let mut responses = config.process_sysex(&request);
    let sizes = [32usize, 32, 6];
    for (part, n) in sizes.iter().enumerate() {
        let msg = out(responses.next(buf, &mut config), buf);
        assert_eq!(msg[5], part as u8);
        assert_eq!(msg.len(), 15 + 2 * n);
    }
    let ack = out(responses.next(buf, &mut config), buf);
    assert_eq!(ack[5], 0x7E);
    assert_eq!(ack.len(), 15);
    assert_eq!(responses.next(buf, &mut config), Ok(None));
    assert_eq!(responses.next(buf, &mut config), Ok(None));
}

static REBOOTS: AtomicBool = AtomicBool::new(false);
static BOOTLOADERS: AtomicBool = AtomicBool::new(false);
static RESETS: AtomicBool = AtomicBool::new(false);

struct RecordingHandler;
impl SystemHandler for RecordingHandler {
    fn reboot(&self) {
        REBOOTS.store(true, Ordering::Relaxed);
    }
    fn bootloader(&self) {
        BOOTLOADERS.store(true, Ordering::Relaxed);
    }
    fn factory_reset(&self) {
        RESETS.store(true, Ordering::Relaxed);
    }
}

#[test]
fn factory_reset_is_acknowledged_and_only_resets() {
    let version = FirmwareVersion {
        major: 1,
        minor: 0,
        revision: 0,
    };
    let mut config = Config::<1, 1, 1, 1, 1, _>::new(version, 0, RecordingHandler);
    assert_eq!(
        config.process_special_req(SpecialRequest::FactoryReset),
        (Some(SpecialResponse::FactoryReset), Some(SystemAction::FactoryReset))
    );
    assert_eq!(config.process_special_req(SpecialRequest::Reboot), (None, Some(SystemAction::Reboot)));
    assert_eq!(
        config.process_special_req(SpecialRequest::BootloaderMode),
        (None, Some(SystemAction::Bootloader))
    );
    assert_eq!(
        config.process_special_req(SpecialRequest::Handshake),
        (Some(SpecialResponse::Handshake), None)
    );
    // deciding performs nothing
    assert!(!RESETS.load(Ordering::Relaxed));

    let request = [0xF0, 0x00, 0x53, 0x43, 0x00, 0x00, 0x44, 0xF7];
    let mut responses = config.process_sysex(&request);
    let buf = &mut [0; MAX_MESSAGE_SIZE];
    assert_eq!(
        out(responses.next(buf, &mut config), buf),
        [0xF0, 0x00, 0x53, 0x43, 0x01, 0x00, 0x44, 0xF7]
    );
    assert!(RESETS.load(Ordering::Relaxed));
    assert!(!REBOOTS.load(Ordering::Relaxed));
    assert!(!BOOTLOADERS.load(Ordering::Relaxed));
}
