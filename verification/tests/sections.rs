use opendeck::analog::{Analog, AnalogMessageType, AnalogSection};
use opendeck::button::{Button, ButtonMessageType, ButtonSection, ButtonType};
use opendeck::channel::ChannelOrAll;
use opendeck::encoder::{Accelleration, Encoder, EncoderMessageType, EncoderSection};
use opendeck::global::{GlobalMidi, GlobalPreset, GlobalSection, MidiIndex, PresetIndex};
use opendeck::parser::OpenDeckParseError;
use opendeck::{MessageStatus, Section};

#[test]
fn analog_parser_test_midi_id() {
    let value = 1;
    let section = Section { id: 0x03, value };
    let result = AnalogSection::try_from(section);
    assert_eq!(result, Ok(AnalogSection::MidiId(value)));
}

#[test]
fn analog_parser_test_message_type_value_error() {
    let result = AnalogSection::try_from(Section {
        id: 0x02,
        value: 0x20,
    });
    assert_eq!(
        result,
        Err(OpenDeckParseError::StatusError(MessageStatus::NewValueError))
    );
}

#[test]
fn button_parser_test_midi_id() {
    let result = ButtonSection::try_from(Section {
        id: 0x02,
        value: 0x01,
    });
    assert_eq!(result, Ok(ButtonSection::MidiId(0x01)));
}

#[test]
fn button_parser_test_message_type_value_error() {
    let result = ButtonSection::try_from(Section {
        id: 0x01,
        value: 0x20,
    });
    assert_eq!(
        result,
        Err(OpenDeckParseError::StatusError(MessageStatus::NewValueError))
    );
}

#[test]
fn encoder_parser_test_midi_id() {
    let result = EncoderSection::try_from(Section {
        id: 0x00,
        value: 0x01,
    });
    assert_eq!(result, Ok(EncoderSection::Enabled(true)));
}

#[test]
fn encoder_parser_test_message_type_value_error() {
    let result = EncoderSection::try_from(Section {
        id: 0x02,
        value: 0x20,
    });
    assert_eq!(
        result,
        Err(OpenDeckParseError::StatusError(MessageStatus::NewValueError))
    );
}

#[test]
fn test_acceleration_type_value_error() {
    let result = EncoderSection::try_from(Section {
        id: 0x06,
        value: 0x20,
    });
    assert_eq!(
        result,
        Err(OpenDeckParseError::StatusError(MessageStatus::NewValueError))
    );
}

#[test]
fn section_errors_for_unknown_ids() {
    let bad = Section { id: 0x0D, value: 0 };
    let err = Err(OpenDeckParseError::StatusError(MessageStatus::SectionError));
    assert_eq!(EncoderSection::try_from(bad).map(|_| ()), err);
    assert_eq!(AnalogSection::try_from(bad).map(|_| ()), err);
    assert_eq!(ButtonSection::try_from(bad).map(|_| ()), err);
    // analog section 4 is the high half of the MIDI id in the one byte protocol
    assert_eq!(AnalogSection::try_from(Section { id: 4, value: 0 }).map(|_| ()), err);
    assert_eq!(GlobalSection::try_from((0u16, Section { id: 1, value: 0 })).map(|_| ()), err);
    assert_eq!(
        GlobalSection::try_from((0x10u16, Section { id: 0, value: 0 })),
        Err(OpenDeckParseError::StatusError(MessageStatus::IndexError))
    );
}

#[test]
fn sections_survive_their_wire_form() {
    let buttons = [
        ButtonSection::Type(ButtonType::Latching),
        ButtonSection::MessageType(ButtonMessageType::BPMDecr),
        ButtonSection::MidiId(100),
        ButtonSection::Value(7),
        ButtonSection::Channel(ChannelOrAll::All),
    ];
    for s in buttons {
        let wire: Section = s.into();
        assert_eq!(ButtonSection::try_from(wire), Ok(s));
    }
    let encoders = [
        EncoderSection::Enabled(true),
        EncoderSection::Inverted(true),
        EncoderSection::MessageType(EncoderMessageType::TwoNoteWithFixedValueBothDirections),
        EncoderSection::MidiIdLSB(1000),
        EncoderSection::Channel(ChannelOrAll::Channel(15)),
        EncoderSection::PulsesPerStep(3),
        EncoderSection::Accelleration(Accelleration::Fast),
        EncoderSection::MidiIdMSB(5),
        EncoderSection::RemoteSync(true),
        EncoderSection::LowerLimit(1),
        EncoderSection::UpperLimit(16000),
        EncoderSection::RepeatedValue(42),
        EncoderSection::SecondMidiId(77),
    ];
    for s in encoders {
        let wire: Section = s.into();
        assert_eq!(EncoderSection::try_from(wire), Ok(s));
    }
    let analogs = [
        AnalogSection::Enabled(true),
        AnalogSection::Inverted(true),
        AnalogSection::MessageType(AnalogMessageType::NRPN14),
        AnalogSection::MidiId(1624),
        AnalogSection::LowerCCLimit(3),
        AnalogSection::UpperCCLimit(4100),
        AnalogSection::Channel(ChannelOrAll::NoChannel),
        AnalogSection::LowerADCOffset(10),
        AnalogSection::UpperADCOffset(20),
    ];
    for s in analogs {
        let wire: Section = s.into();
        assert_eq!(AnalogSection::try_from(wire), Ok(s));
    }
    let globals = [
        GlobalSection::Midi(MidiIndex::GlobalMIDIchannel, 5),
        GlobalSection::Presets(PresetIndex::EnableMidiChange, 1),
    ];
    for g in globals {
        let wire: (u16, Section) = g.into();
        assert_eq!(GlobalSection::try_from(wire), Ok(g));
    }
}

#[test]
fn components_set_and_get() {
    let mut b = Button::new(4);
    assert_eq!(b.get(ButtonSection::Value(0)), 1);
    b.set(ButtonSection::MessageType(ButtonMessageType::MMCPause));
    assert_eq!(b.get(ButtonSection::MessageType(ButtonMessageType::Notes)), 0x07);
    b.set(ButtonSection::Channel(ChannelOrAll::NoChannel));
    assert_eq!(b.get(ButtonSection::Channel(ChannelOrAll::All)), 17);

    let mut e = Encoder::new(9);
    e.set(EncoderSection::MidiIdMSB(3));
    assert_eq!(e.get(EncoderSection::MidiIdMSB(0)), 0);
    assert_eq!(e.get(EncoderSection::MidiIdLSB(0)), 9);
    e.set(EncoderSection::RepeatedValue(55));
    assert_eq!(e.value, 55);

    let mut a = Analog::new(2);
    assert_eq!(a.get(AnalogSection::UpperCCLimit(0)), 0x7F);
    a.set(AnalogSection::Inverted(true));
    assert_eq!(a.get(AnalogSection::Inverted(false)), 1);
    a.set_adc_max(1023);
    assert_eq!(a.adc_max, 1023);

    let mut m = GlobalMidi::default();
    m.set(MidiIndex::GlobalMIDIchannel, 16);
    assert_eq!(m.global_channel(), ChannelOrAll::All);
    assert_eq!(m.get(MidiIndex::GlobalMIDIchannel), 16);
    m.set(MidiIndex::GlobalMIDIchannel, 99);
    assert_eq!(m.get(MidiIndex::GlobalMIDIchannel), 17);
    m.set(MidiIndex::RunningStatus, 5);
    assert_eq!(m.get(MidiIndex::RunningStatus), 1);

    let mut p = GlobalPreset::default();
    p.set(PresetIndex::Active, 2);
    assert_eq!(p.current, 2);
    assert_eq!(p.get(PresetIndex::Active), 2);
}

#[test]
fn channel_wire_values() {
    assert_eq!(ChannelOrAll::from(3u16), ChannelOrAll::Channel(3));
    assert_eq!(ChannelOrAll::from(16u16), ChannelOrAll::All);
    assert_eq!(ChannelOrAll::from(40u16), ChannelOrAll::NoChannel);
    assert_eq!(u16::from(ChannelOrAll::Channel(15)), 15);
    assert_eq!(u16::from(ChannelOrAll::All), 16);
    assert_eq!(u16::from(ChannelOrAll::NoChannel), 17);
    assert_eq!(ChannelOrAll::default(), ChannelOrAll::Channel(0));
}
