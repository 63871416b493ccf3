use opendeck::analog::handler::AnalogMessages;
use opendeck::analog::{Analog, AnalogMessageType, MAX_ADC_VALUE};
use opendeck::channel::ChannelOrAll;
use opendeck::midi::BufferTooSmall;

/// The bytes of a message that was written.
fn out(r: Result<Option<usize>, BufferTooSmall>, buf: &[u8]) -> Vec<u8> {
    let n = r.unwrap().unwrap();
    buf[..n].to_vec()
}

/// A reading of the converter scaled to the input's limits, as the
/// application does before it hands the value to the library.
fn scaled(a: &Analog, raw: u16) -> u16 {
    let max = a.adc_max;
    let input = if a.inverted { max - raw } else { raw };
    let min_value = (max as f32 * (a.lower_adc_offset as f32 / 100.0f32)) as u16;
    let max_value = max - (max as f32 * (a.upper_adc_offset as f32 / 100.0f32)) as u16;
    if input < min_value {
        return a.lower_limit;
    }
    if input > max_value {
        return a.upper_limit;
    }
    let factor = ((input - min_value) as f32) / ((max_value - min_value) as f32);
    a.lower_limit + (factor * (a.upper_limit - a.lower_limit) as f32) as u16
}

fn analog(message_type: AnalogMessageType, upper_limit: u16, midi_id: u16, channel: ChannelOrAll) -> Analog {
    Analog {
        enabled: true,
        inverted: false,
        upper_limit,
        lower_limit: 0,
        lower_adc_offset: 0,
        upper_adc_offset: 0,
        message_type,
        midi_id,
        channel,
        adc_max: MAX_ADC_VALUE,
    }
}

#[test]
fn analog_handler_test_disable() {
    let mut buf = [0x00u8; 8];
    let mut a = analog(AnalogMessageType::PotentiometerWithCCMessage7Bit, 99, 0x03, ChannelOrAll::default());
    a.enabled = false;
    let v = scaled(&a, 100);
    let mut it = AnalogMessages::new(&mut a, v);
    assert_eq!(Ok(None), it.next(&mut buf));
}

#[test]
fn analog_handler_test_cc_7bit() {
    let mut buf = [0x00u8; 8];
    let mut a = analog(AnalogMessageType::PotentiometerWithCCMessage7Bit, 99, 0x03, ChannelOrAll::Channel(1));
    let v = scaled(&a, 100);
    assert_eq!(v, 2);
    let mut it = AnalogMessages::new(&mut a, v);
    assert_eq!(out(it.next(&mut buf), &buf), [0xB1, 0x03, 0x02]);
    assert_eq!(Ok(None), it.next(&mut buf));
}

#[test]
fn test_cc_7bit_on_all_channels() {
    let mut buf = [0x00u8; 8];
    let mut a = analog(AnalogMessageType::PotentiometerWithCCMessage7Bit, 99, 0x03, ChannelOrAll::All);
    let v = scaled(&a, 100);
    let mut it = AnalogMessages::new(&mut a, v);
    for status in 0xB0u8..=0xBF {
        assert_eq!(out(it.next(&mut buf), &buf), [status, 0x03, 0x02]);
    }
    assert_eq!(Ok(None), it.next(&mut buf));
}

#[test]
fn analog_handler_test_cc_14bit() {
    let mut buf = [0x00u8; 8];
    let mut a = analog(AnalogMessageType::PotentiometerWithCCMessage14Bit, 1000, 0x03, ChannelOrAll::default());
    let v = scaled(&a, MAX_ADC_VALUE);
    let mut it = AnalogMessages::new(&mut a, v);
    assert_eq!(out(it.next(&mut buf), &buf), [176, 0x03, 0x7]);
    assert_eq!(out(it.next(&mut buf), &buf), [176, 0x23, 0x68]);
    assert_eq!(Ok(None), it.next(&mut buf));
}

#[test]
fn analog_handler_test_pitch_bend() {
    let mut buf = [0x00u8; 8];
    let mut a = analog(AnalogMessageType::PitchBend, 1000, 0x03, ChannelOrAll::default());
    let v = scaled(&a, MAX_ADC_VALUE);
    let mut it = AnalogMessages::new(&mut a, v);
    assert_eq!(out(it.next(&mut buf), &buf), [0xE0, 0x68, 0x7]);
    assert_eq!(Ok(None), it.next(&mut buf));
}

#[test]
fn analog_handler_test_note_on() {
    let mut buf = [0x00u8; 8];
    let mut a = analog(AnalogMessageType::PotentiometerWithNoteMessage, 100, 0x03, ChannelOrAll::default());
    let v = scaled(&a, MAX_ADC_VALUE);
    let mut it = AnalogMessages::new(&mut a, v);
    assert_eq!(out(it.next(&mut buf), &buf), [0x90, 0x3, 0x64]);
    assert_eq!(Ok(None), it.next(&mut buf));
}

#[test]
fn test_nrpn7() {
    let mut buf = [0x00u8; 8];
    let mut a = analog(AnalogMessageType::NRPN7, 100, 1624, ChannelOrAll::default());
    let v = scaled(&a, MAX_ADC_VALUE);
    let mut it = AnalogMessages::new(&mut a, v);
    assert_eq!(out(it.next(&mut buf), &buf), [0xB0, 98, 88]);
    assert_eq!(out(it.next(&mut buf), &buf), [0xB0, 99, 12]);
    assert_eq!(out(it.next(&mut buf), &buf), [0xB0, 38, 100]);
    assert_eq!(Ok(None), it.next(&mut buf));
}

#[test]
fn test_nrpn14() {
    let mut buf = [0x00u8; 8];
    let mut a = analog(AnalogMessageType::NRPN14, 8234, 1624, ChannelOrAll::default());
    let v = scaled(&a, MAX_ADC_VALUE);
    let mut it = AnalogMessages::new(&mut a, v);
    assert_eq!(out(it.next(&mut buf), &buf), [0xB0, 98, 88]);
    assert_eq!(out(it.next(&mut buf), &buf), [0xB0, 99, 12]);
    assert_eq!(out(it.next(&mut buf), &buf), [0xB0, 38, 42]);
    assert_eq!(out(it.next(&mut buf), &buf), [0xB0, 6, 64]);
    assert_eq!(Ok(None), it.next(&mut buf));
}

#[test]
fn test_overflow() {
    let mut buf = [0x00u8; 1];
    let mut a = analog(AnalogMessageType::PotentiometerWithCCMessage7Bit, 127, 0x03, ChannelOrAll::default());
    let v = scaled(&a, 10);
    let mut it = AnalogMessages::new(&mut a, v);
    assert_eq!(it.next(&mut buf), Err(BufferTooSmall));
}

#[test]
fn analog_fsr_and_button_types() {
    let mut buf = [0x00u8; 8];
    let mut a = analog(AnalogMessageType::FSR, 127, 0x05, ChannelOrAll::Channel(2));
    let mut it = AnalogMessages::new(&mut a, 0x40);
    assert_eq!(out(it.next(&mut buf), &buf), [0x92, 0x05, 0x40]);
    assert_eq!(Ok(None), it.next(&mut buf));

    let mut b = analog(AnalogMessageType::Button, 127, 0x05, ChannelOrAll::Channel(2));
    let mut it = AnalogMessages::new(&mut b, 0x40);
    assert_eq!(Ok(None), it.next(&mut buf));
}

#[test]
fn analog_channel_override() {
    let mut buf = [0x00u8; 8];
    let mut a = analog(AnalogMessageType::PotentiometerWithCCMessage7Bit, 127, 0x07, ChannelOrAll::Channel(2));
    let mut it = AnalogMessages::new_with_channel(&mut a, 0x11, Some(ChannelOrAll::Channel(9)));
    assert_eq!(out(it.next(&mut buf), &buf), [0xB9, 0x07, 0x11]);
    assert_eq!(Ok(None), it.next(&mut buf));
}
