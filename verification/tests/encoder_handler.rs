use opendeck::channel::ChannelOrAll;
use opendeck::encoder::handler::EncoderPulse;
use opendeck::encoder::{Encoder, EncoderMessageType};
use opendeck::midi::BufferTooSmall;

/// The bytes of a message that was written.
fn out(r: Result<Option<usize>, BufferTooSmall>, buf: &[u8]) -> Vec<u8> {
    let n = r.unwrap().unwrap();
    buf[..n].to_vec()
}

#[test]
fn handler_test_increment() {
    let mut encoder = Encoder {
        lower_limit: 2,
        upper_limit: 4,
        pulses_per_step: 1,
        ..Encoder::default()
    };
    encoder.increment(&EncoderPulse::Clockwise);
    assert_eq!(2, encoder.value);
    encoder.increment(&EncoderPulse::Clockwise);
    assert_eq!(3, encoder.value);
    encoder.increment(&EncoderPulse::Clockwise);
    assert_eq!(4, encoder.value);
    encoder.increment(&EncoderPulse::Clockwise);
    assert_eq!(4, encoder.value);
    encoder.increment(&EncoderPulse::CounterClockwise);
    assert_eq!(3, encoder.value);
    encoder.increment(&EncoderPulse::CounterClockwise);
    assert_eq!(2, encoder.value);
    encoder.increment(&EncoderPulse::CounterClockwise);
    assert_eq!(2, encoder.value);
}

#[test]
fn test_pulses_per_count() {
    let mut encoder = Encoder {
        value: 0,
        pulses_per_step: 4,
        ..Encoder::default()
    };
    assert!(!encoder.pulse_count_reached());
    assert!(!encoder.pulse_count_reached());
    assert!(!encoder.pulse_count_reached());
    assert!(encoder.pulse_count_reached());
}

#[test]
fn handler_test_disable() {
    let mut buf = [0x00u8; 8];
    let mut encoder = Encoder {
        enabled: false,
        ..Encoder::default()
    };
    let mut it = encoder.handle(EncoderPulse::Clockwise);

    assert_eq!(Ok(None), it.next(&mut buf));
}

#[test]
fn handler_test_cc_7bit() {
    let mut buf = [0x00u8; 8];
    let mut encoder = Encoder {
        enabled: true,
        message_type: EncoderMessageType::ControlChange,
        value: 1,
        pulses_per_step: 1,
        midi_id: 0x03,
        channel: ChannelOrAll::Channel(1),
        ..Encoder::default()
    };
    let mut it = encoder.handle(EncoderPulse::Clockwise);

    let m = out(it.next(&mut buf), &buf);
    assert_eq!(m, [0xB1, 0x03, 0x02]);
    assert_eq!(Ok(None), it.next(&mut buf));
}

#[test]
fn test_cc_7bit_inverted() {
    let mut buf = [0x00u8; 8];
    let mut encoder = Encoder {
        enabled: true,
        inverted: true,
        message_type: EncoderMessageType::ControlChange,
        value: 1,
        midi_id: 0x03,
        pulses_per_step: 1,
        channel: ChannelOrAll::Channel(1),
        ..Encoder::default()
    };
    let mut it = encoder.handle(EncoderPulse::Clockwise);

    let m = out(it.next(&mut buf), &buf);
    assert_eq!(m, [0xB1, 0x03, 0x00]);
    assert_eq!(Ok(None), it.next(&mut buf));
}

#[test]
fn test_cc_7bit_more_pulses_needed() {
    let mut buf = [0x00u8; 8];
    let mut encoder = Encoder {
        enabled: true,
        inverted: true,
        message_type: EncoderMessageType::ControlChange,
        value: 1,
        midi_id: 0x03,
        pulses_per_step: 2,
        channel: ChannelOrAll::Channel(1),
        ..Encoder::default()
    };
    let mut it = encoder.handle(EncoderPulse::Clockwise);
    assert_eq!(Ok(None), it.next(&mut buf));

    let mut it = encoder.handle(EncoderPulse::Clockwise);
    let m = out(it.next(&mut buf), &buf);
    assert_eq!(m, [0xB1, 0x03, 0x00]);
    assert_eq!(Ok(None), it.next(&mut buf));
}

#[test]
fn handler_test_cc_14bit() {
    let mut buf = [0x00u8; 8];
    let mut encoder = Encoder {
        enabled: true,
        message_type: EncoderMessageType::ControlChange14bit,
        value: 999,
        upper_limit: 0x3FFF,
        pulses_per_step: 1,
        midi_id: 0x03,
        channel: ChannelOrAll::Channel(1),
        ..Encoder::default()
    };
    let mut it = encoder.handle(EncoderPulse::Clockwise);

    let m = out(it.next(&mut buf), &buf);
    assert_eq!(m, [0xB1, 0x03, 7]);
    let m = out(it.next(&mut buf), &buf);
    assert_eq!(m, [0xB1, 0x23, 104]);
    assert_eq!(Ok(None), it.next(&mut buf));
}

#[test]
fn test_control_change_7fh01h() {
    let mut buf = [0x00u8; 8];
    let mut encoder = Encoder {
        enabled: true,
        message_type: EncoderMessageType::ControlChange7Fh01h,
        midi_id: 0x03,
        pulses_per_step: 1,
        channel: ChannelOrAll::Channel(1),
        ..Encoder::default()
    };

    // Test Clockwise pulse
    let mut it = encoder.handle(EncoderPulse::Clockwise);
    let m = out(it.next(&mut buf), &buf);
    assert_eq!(m, [0xB1, 0x03, 0x01]);
    assert_eq!(Ok(None), it.next(&mut buf));

    // Test CounterClockwise pulse
    let mut it = encoder.handle(EncoderPulse::CounterClockwise);
    let m = out(it.next(&mut buf), &buf);
    assert_eq!(m, [0xB1, 0x03, 0x7F]);
    assert_eq!(Ok(None), it.next(&mut buf));
}

#[test]
fn test_control_change_3fh41h() {
    let mut buf = [0x00u8; 8];
    let mut encoder = Encoder {
        enabled: true,
        message_type: EncoderMessageType::ControlChange3Fh41h,
        midi_id: 0x03,
        pulses_per_step: 1,
        channel: ChannelOrAll::Channel(1),
        ..Encoder::default()
    };

    // Test Clockwise pulse
    let mut it = encoder.handle(EncoderPulse::Clockwise);
    let m = out(it.next(&mut buf), &buf);
    assert_eq!(m, [0xB1, 0x03, 0x3F]);
    assert_eq!(Ok(None), it.next(&mut buf));

    // Test CounterClockwise pulse
    let mut it = encoder.handle(EncoderPulse::CounterClockwise);
    let m = out(it.next(&mut buf), &buf);
    assert_eq!(m, [0xB1, 0x03, 0x41]);
    assert_eq!(Ok(None), it.next(&mut buf));
}

#[test]
fn test_control_change_41h01h() {
    let mut buf = [0x00u8; 8];
    let mut encoder = Encoder {
        enabled: true,
        message_type: EncoderMessageType::ControlChange41h01h,
        midi_id: 0x03,
        pulses_per_step: 1,
        channel: ChannelOrAll::Channel(1),
        ..Encoder::default()
    };

    // Test Clockwise pulse
    let mut it = encoder.handle(EncoderPulse::Clockwise);
    let m = out(it.next(&mut buf), &buf);
    assert_eq!(m, [0xB1, 0x03, 0x41]);
    assert_eq!(Ok(None), it.next(&mut buf));

    // Test CounterClockwise pulse
    let mut it = encoder.handle(EncoderPulse::CounterClockwise);
    let m = out(it.next(&mut buf), &buf);
    assert_eq!(m, [0xB1, 0x03, 0x01]);
    assert_eq!(Ok(None), it.next(&mut buf));
}

#[test]
fn handler_test_pitch_bend() {
    let mut buf = [0x00u8; 8];
    let mut encoder = Encoder {
        enabled: true,
        message_type: EncoderMessageType::PitchBend,
        value: 999,
        upper_limit: 0x3FFF,
        pulses_per_step: 1,
        midi_id: 0x03,
        ..Encoder::default()
    };
    let mut it = encoder.handle(EncoderPulse::Clockwise);

    let m = out(it.next(&mut buf), &buf);
    assert_eq!(m, [0xE0, 104, 7]);
    assert_eq!(Ok(None), it.next(&mut buf));
}
