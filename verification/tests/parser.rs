use opendeck::analog::AnalogSection;
use opendeck::button::ButtonSection;
use opendeck::parser::{OpenDeckParseError, OpenDeckParser};
use opendeck::{Amount, Block, MessageStatus, OpenDeckRequest, SpecialRequest, ValueSize, Wish};

#[test]
fn should_parse_special_messages() {
    let p = OpenDeckParser {
        value_size: ValueSize::OneByte,
    };
    assert_eq!(
        p.parse(&[0xF0, 0x00, 0x53, 0x43, 0x00, 0x00, 0x01, 0xF7]),
        Ok(OpenDeckRequest::Special(SpecialRequest::Handshake))
    );
    assert_eq!(
        p.parse(&[0xF0, 0x00, 0x53, 0x43, 0x00, 0x00, 0x02, 0xF7]),
        Ok(OpenDeckRequest::Special(SpecialRequest::ValueSize))
    );
    assert_eq!(
        p.parse(&[0xF0, 0x00, 0x53, 0x43, 0x00, 0x00, 0x03, 0xF7]),
        Ok(OpenDeckRequest::Special(SpecialRequest::ValuesPerMessage))
    );
    assert_eq!(
        p.parse(&[0xF0, 0x00, 0x53, 0x43, 0x00, 0x00, 0x56, 0xF7]),
        Ok(OpenDeckRequest::Special(SpecialRequest::FirmwareVersion))
    );
    assert_eq!(
        p.parse(&[0xF0, 0x00, 0x53, 0x43, 0x00, 0x00, 0x42, 0xF7]),
        Ok(OpenDeckRequest::Special(SpecialRequest::HardwareUID))
    );
    assert_eq!(
        p.parse(&[0xF0, 0x00, 0x53, 0x43, 0x00, 0x00, 0x43, 0xF7]),
        Ok(OpenDeckRequest::Special(
            SpecialRequest::FirmwareVersionAndHardwareUUID
        ))
    );
    assert_eq!(
        p.parse(&[0xF0, 0x00, 0x53, 0x43, 0x00, 0x00, 0x4D, 0xF7]),
        Ok(OpenDeckRequest::Special(
            SpecialRequest::NrOfSupportedComponents
        ))
    );
    assert_eq!(
        p.parse(&[0xF0, 0x00, 0x53, 0x43, 0x00, 0x00, 0x7F, 0xF7]),
        Ok(OpenDeckRequest::Special(SpecialRequest::Reboot))
    );
    assert_eq!(
        p.parse(&[0xF0, 0x00, 0x53, 0x43, 0x00, 0x00, 0x44, 0xF7]),
        Ok(OpenDeckRequest::Special(SpecialRequest::FactoryReset))
    );
    assert_eq!(
        p.parse(&[0xF0, 0x00, 0x53, 0x43, 0x00, 0x00, 0x55, 0xF7]),
        Ok(OpenDeckRequest::Special(SpecialRequest::BootloaderMode))
    );
    assert_eq!(
        p.parse(&[0xF0, 0x00, 0x53, 0x43, 0x00, 0x00, 0x50, 0xF7]),
        Ok(OpenDeckRequest::Special(
            SpecialRequest::NrOfSupportedPresets
        ))
    );
    assert_eq!(
        p.parse(&[0xF0, 0x00, 0x53, 0x43, 0x00, 0x00, 0x51, 0xF7]),
        Ok(OpenDeckRequest::Special(SpecialRequest::BootloaderSupport))
    );
    assert_eq!(
        p.parse(&[0xF0, 0x00, 0x53, 0x43, 0x00, 0x00, 0x1B, 0xF7]),
        Ok(OpenDeckRequest::Special(SpecialRequest::Backup))
    );
}

#[test]
fn should_parse_configuration_messages() {
    let p = OpenDeckParser::new(ValueSize::OneByte);
    assert_eq!(
        p.parse(&[
            0xF0, 0x00, 0x53, 0x43, 0x00, 0x00, 0x00, 0x00, 0x03, 0x03, 0x05, 0x01, 0xF7
        ]),
        Ok(OpenDeckRequest::Configuration(
            Wish::Get,
            Amount::Single,
            Block::Analog(5, AnalogSection::MidiId(1)),
        ))
    );
    assert_eq!(
        p.parse(&[
            0xF0, 0x00, 0x53, 0x43, 0x00, 0x7F, 0x00, 0x01, 0x01, 0x02, 0x00, 0x00, 0xF7
        ]),
        Ok(OpenDeckRequest::Configuration(
            Wish::Get,
            Amount::All(0x7F),
            Block::Button(0, ButtonSection::MidiId(0)),
        ))
    );
}

#[test]
fn should_split_u16() {
    let buf = &[
        0xF0, 0x00, 0x53, 0x43, 0x00, 0x00, 0x00, 0x00, 0x03, 0x03, 0x4E, 0x10, 0x00, 0x05,
    ];
    assert_eq!(10000, ValueSize::TwoBytes.parse(buf, 0));
    assert_eq!(5, ValueSize::TwoBytes.parse(buf, 1));
}

#[test]
fn parser_framing_errors() {
    let p = OpenDeckParser::new(ValueSize::TwoBytes);
    assert_eq!(p.parse(&[0xF0, 0x00, 0x53]), Err(OpenDeckParseError::BufferTooShort));
    assert_eq!(
        p.parse(&[0xF1, 0x00, 0x53, 0x43, 0x00, 0x00, 0x01, 0xF7]),
        Err(OpenDeckParseError::NoSysex)
    );
    assert_eq!(
        p.parse(&[0xF0, 0x00, 0x53, 0x43, 0x00, 0x00, 0x01, 0xF6]),
        Err(OpenDeckParseError::NoSysex)
    );
    assert_eq!(
        p.parse(&[0xF0, 0x00, 0x53, 0x44, 0x00, 0x00, 0x01, 0xF7]),
        Err(OpenDeckParseError::WrongManufacturer)
    );
    assert_eq!(
        p.parse(&[0xF0, 0x00, 0x53, 0x43, 0xFF, 0x00, 0x01, 0xF7]),
        Err(OpenDeckParseError::StatusError(MessageStatus::StatusError))
    );
    // any status byte but the request status is refused
    assert_eq!(
        p.parse(&[0xF0, 0x00, 0x53, 0x43, 0x05, 0x00, 0x01, 0xF7]),
        Err(OpenDeckParseError::StatusError(MessageStatus::StatusError))
    );
    assert_eq!(
        p.parse(&[0xF0, 0x00, 0x53, 0x43, 0x01, 0x00, 0x01, 0xF7]),
        Err(OpenDeckParseError::StatusError(MessageStatus::StatusError))
    );
    assert_eq!(
        p.parse(&[0xF0, 0x00, 0x53, 0x43, 0x00, 0x00, 0x60, 0xF7]),
        Err(OpenDeckParseError::StatusError(MessageStatus::WishError))
    );
}

#[test]
fn parser_request_errors() {
    let p = OpenDeckParser::new(ValueSize::TwoBytes);
    // wish 3
    assert_eq!(
        p.parse(&[0xF0, 0x00, 0x53, 0x43, 0x00, 0x00, 0x03, 0x00, 0x01, 0x02, 0x00, 0x00, 0x00, 0x00, 0xF7]),
        Err(OpenDeckParseError::StatusError(MessageStatus::WishError))
    );
    // amount 2
    assert_eq!(
        p.parse(&[0xF0, 0x00, 0x53, 0x43, 0x00, 0x00, 0x00, 0x02, 0x01, 0x02, 0x00, 0x00, 0x00, 0x00, 0xF7]),
        Err(OpenDeckParseError::StatusError(MessageStatus::AmountError))
    );
    // block 5
    assert_eq!(
        p.parse(&[0xF0, 0x00, 0x53, 0x43, 0x00, 0x00, 0x00, 0x00, 0x05, 0x02, 0x00, 0x00, 0x00, 0x00, 0xF7]),
        Err(OpenDeckParseError::StatusError(MessageStatus::BlockError))
    );
    // button section 9
    assert_eq!(
        p.parse(&[0xF0, 0x00, 0x53, 0x43, 0x00, 0x00, 0x00, 0x00, 0x01, 0x09, 0x00, 0x00, 0x00, 0x00, 0xF7]),
        Err(OpenDeckParseError::StatusError(MessageStatus::SectionError))
    );
    // global preset index 9
    assert_eq!(
        p.parse(&[0xF0, 0x00, 0x53, 0x43, 0x00, 0x00, 0x00, 0x00, 0x00, 0x02, 0x00, 0x09, 0x00, 0x00, 0xF7]),
        Err(OpenDeckParseError::StatusError(MessageStatus::IndexError))
    );
    // button message type 0x40
    assert_eq!(
        p.parse(&[0xF0, 0x00, 0x53, 0x43, 0x00, 0x00, 0x01, 0x00, 0x01, 0x01, 0x00, 0x00, 0x00, 0x40, 0xF7]),
        Err(OpenDeckParseError::StatusError(MessageStatus::NewValueError))
    );
}

#[test]
fn parser_short_requests_are_refused_with_a_length_error() {
    let full = [0xF0u8, 0x00, 0x53, 0x43, 0x00, 0x00, 0x00, 0x00, 0x03, 0x03, 0x00, 0x05, 0x00, 0x00, 0xF7];
    let p = OpenDeckParser::new(ValueSize::TwoBytes);
    for len in 9..15 {
        let mut msg = full[..len - 1].to_vec();
        msg.push(0xF7);
        assert_eq!(
            p.parse(&msg),
            Err(OpenDeckParseError::StatusError(MessageStatus::MessageLengthError)),
            "length {}",
            len
        );
    }
    assert!(p.parse(&full).is_ok());

    let one = OpenDeckParser::new(ValueSize::OneByte);
    let full = [0xF0u8, 0x00, 0x53, 0x43, 0x00, 0x00, 0x00, 0x00, 0x03, 0x03, 0x05, 0x00, 0xF7];
    for len in 9..13 {
        let mut msg = full[..len - 1].to_vec();
        msg.push(0xF7);
        assert_eq!(
            one.parse(&msg),
            Err(OpenDeckParseError::StatusError(MessageStatus::MessageLengthError))
        );
    }
    assert_eq!(
        one.parse(&full),
        Ok(OpenDeckRequest::Configuration(Wish::Get, Amount::Single, Block::Analog(5, AnalogSection::MidiId(0))))
    );
}
