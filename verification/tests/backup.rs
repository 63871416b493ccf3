use opendeck::analog::{AnalogMessageType, AnalogSection};
use opendeck::button::{ButtonMessageType, ButtonSection, ButtonType};
use opendeck::config::backup::ConfigBackupIterator;
use opendeck::config::{Config, FirmwareVersion, SystemHandler};
use opendeck::encoder::{Accelleration, EncoderMessageType, EncoderSection};
use opendeck::global::{GlobalSection, PresetIndex};
use opendeck::led::LedSection;
use opendeck::{Amount, Block, ChannelOrAll, NewValues, OpenDeckResponse, SpecialResponse, Wish};

struct NoopHandler;
impl SystemHandler for NoopHandler {
    fn reboot(&self) {}
    fn bootloader(&self) {}
    fn factory_reset(&self) {}
}

#[test]
fn test_config_backup_iterator() {
    let version = FirmwareVersion {
        major: 1,
        minor: 0,
        revision: 0,
    };
    let uid = 12345;
    let config = &mut Config::<1, 2, 1, 1, 1, _>::new(version, uid, NoopHandler);

    let mut iterator = ConfigBackupIterator::new();
    assert_eq!(
        iterator.next(config),
        Some(OpenDeckResponse::Special(SpecialResponse::Backup))
    );
    assert_eq!(
        iterator.next(config),
        Some(OpenDeckResponse::Configuration(
            Wish::SetValue,
            Amount::Single,
            Block::Global(GlobalSection::Presets(PresetIndex::Active, 0)),
            NewValues::new(),
        ))
    );
    assert_eq!(
        iterator.next(config),
        Some(OpenDeckResponse::Configuration(
            Wish::SetValue,
            Amount::Single,
            Block::Button(0, ButtonSection::Type(ButtonType::default())),
            NewValues::new(),
        ))
    );
    assert_eq!(
        iterator.next(config),
        Some(OpenDeckResponse::Configuration(
            Wish::SetValue,
            Amount::Single,
            Block::Button(0, ButtonSection::MessageType(ButtonMessageType::default())),
            NewValues::new(),
        ))
    );
    assert_eq!(
        iterator.next(config),
        Some(OpenDeckResponse::Configuration(
            Wish::SetValue,
            Amount::Single,
            Block::Button(0, ButtonSection::MidiId(0)),
            NewValues::new(),
        ))
    );
    assert_eq!(
        iterator.next(config),
        Some(OpenDeckResponse::Configuration(
            Wish::SetValue,
            Amount::Single,
            Block::Button(0, ButtonSection::Value(0x01)),
            NewValues::new(),
        ))
    );
    assert_eq!(
        iterator.next(config),
        Some(OpenDeckResponse::Configuration(
            Wish::SetValue,
            Amount::Single,
            Block::Button(0, ButtonSection::Channel(ChannelOrAll::default())),
            NewValues::new(),
        ))
    );
    assert_eq!(
        iterator.next(config),
        Some(OpenDeckResponse::Configuration(
            Wish::SetValue,
            Amount::Single,
            Block::Button(1, ButtonSection::Type(ButtonType::default())),
            NewValues::new(),
        ))
    );
    assert_eq!(
        iterator.next(config),
        Some(OpenDeckResponse::Configuration(
            Wish::SetValue,
            Amount::Single,
            Block::Button(1, ButtonSection::MessageType(ButtonMessageType::default())),
            NewValues::new(),
        ))
    );
    assert_eq!(
        iterator.next(config),
        Some(OpenDeckResponse::Configuration(
            Wish::SetValue,
            Amount::Single,
            Block::Button(1, ButtonSection::MidiId(1)),
            NewValues::new(),
        ))
    );
    assert_eq!(
        iterator.next(config),
        Some(OpenDeckResponse::Configuration(
            Wish::SetValue,
            Amount::Single,
            Block::Button(1, ButtonSection::Value(0x01)),
            NewValues::new(),
        ))
    );
    assert_eq!(
        iterator.next(config),
        Some(OpenDeckResponse::Configuration(
            Wish::SetValue,
            Amount::Single,
            Block::Button(1, ButtonSection::Channel(ChannelOrAll::default())),
            NewValues::new(),
        ))
    );

    assert_eq!(
        iterator.next(config),
        Some(OpenDeckResponse::Configuration(
            Wish::SetValue,
            Amount::Single,
            Block::Encoder(0, EncoderSection::Enabled(false)),
            NewValues::new(),
        ))
    );
    assert_eq!(
        iterator.next(config),
        Some(OpenDeckResponse::Configuration(
            Wish::SetValue,
            Amount::Single,
            Block::Encoder(0, EncoderSection::Inverted(false)),
            NewValues::new(),
        ))
    );
    assert_eq!(
        iterator.next(config),
        Some(OpenDeckResponse::Configuration(
            Wish::SetValue,
            Amount::Single,
            Block::Encoder(
                0,
                EncoderSection::MessageType(EncoderMessageType::default())
            ),
            NewValues::new(),
        ))
    );
    assert_eq!(
        iterator.next(config),
        Some(OpenDeckResponse::Configuration(
            Wish::SetValue,
            Amount::Single,
            Block::Encoder(0, EncoderSection::MidiIdLSB(0)),
            NewValues::new(),
        ))
    );
    assert_eq!(
        iterator.next(config),
        Some(OpenDeckResponse::Configuration(
            Wish::SetValue,
            Amount::Single,
            Block::Encoder(0, EncoderSection::Channel(ChannelOrAll::default())),
            NewValues::new(),
        ))
    );
    assert_eq!(
        iterator.next(config),
        Some(OpenDeckResponse::Configuration(
            Wish::SetValue,
            Amount::Single,
            Block::Encoder(0, EncoderSection::PulsesPerStep(4)),
            NewValues::new(),
        ))
    );
    assert_eq!(
        iterator.next(config),
        Some(OpenDeckResponse::Configuration(
            Wish::SetValue,
            Amount::Single,
            Block::Encoder(0, EncoderSection::Accelleration(Accelleration::Off)),
            NewValues::new(),
        ))
    );
    assert_eq!(
        iterator.next(config),
        Some(OpenDeckResponse::Configuration(
            Wish::SetValue,
            Amount::Single,
            Block::Encoder(0, EncoderSection::RemoteSync(false)),
            NewValues::new(),
        ))
    );
    assert_eq!(
        iterator.next(config),
        Some(OpenDeckResponse::Configuration(
            Wish::SetValue,
            Amount::Single,
            Block::Encoder(0, EncoderSection::LowerLimit(0)),
            NewValues::new(),
        ))
    );
    assert_eq!(
        iterator.next(config),
        Some(OpenDeckResponse::Configuration(
            Wish::SetValue,
            Amount::Single,
            Block::Encoder(0, EncoderSection::UpperLimit(127)),
            NewValues::new(),
        ))
    );
    assert_eq!(
        iterator.next(config),
        Some(OpenDeckResponse::Configuration(
            Wish::SetValue,
            Amount::Single,
            Block::Encoder(0, EncoderSection::RepeatedValue(0)),
            NewValues::new(),
        ))
    );
    assert_eq!(
        iterator.next(config),
        Some(OpenDeckResponse::Configuration(
            Wish::SetValue,
            Amount::Single,
            Block::Encoder(0, EncoderSection::SecondMidiId(0)),
            NewValues::new(),
        ))
    );

    assert_eq!(
        iterator.next(config),
        Some(OpenDeckResponse::Configuration(
            Wish::SetValue,
            Amount::Single,
            Block::Analog(0, AnalogSection::Enabled(false)),
            NewValues::new(),
        ))
    );
    assert_eq!(
        iterator.next(config),
        Some(OpenDeckResponse::Configuration(
            Wish::SetValue,
            Amount::Single,
            Block::Analog(0, AnalogSection::Inverted(false)),
            NewValues::new(),
        ))
    );
    assert_eq!(
        iterator.next(config),
        Some(OpenDeckResponse::Configuration(
            Wish::SetValue,
            Amount::Single,
            Block::Analog(
                0,
                AnalogSection::MessageType(AnalogMessageType::PotentiometerWithCCMessage7Bit)
            ),
            NewValues::new(),
        ))
    );
    assert_eq!(
        iterator.next(config),
        Some(OpenDeckResponse::Configuration(
            Wish::SetValue,
            Amount::Single,
            Block::Analog(0, AnalogSection::MidiId(0)),
            NewValues::new(),
        ))
    );
    assert_eq!(
        iterator.next(config),
        Some(OpenDeckResponse::Configuration(
            Wish::SetValue,
            Amount::Single,
            Block::Analog(0, AnalogSection::LowerCCLimit(0)),
            NewValues::new(),
        ))
    );
    assert_eq!(
        iterator.next(config),
        Some(OpenDeckResponse::Configuration(
            Wish::SetValue,
            Amount::Single,
            Block::Analog(0, AnalogSection::UpperCCLimit(127)),
            NewValues::new(),
        ))
    );
    assert_eq!(
        iterator.next(config),
        Some(OpenDeckResponse::Configuration(
            Wish::SetValue,
            Amount::Single,
            Block::Analog(0, AnalogSection::Channel(ChannelOrAll::default())),
            NewValues::new(),
        ))
    );
    assert_eq!(
        iterator.next(config),
        Some(OpenDeckResponse::Configuration(
            Wish::SetValue,
            Amount::Single,
            Block::Analog(0, AnalogSection::LowerADCOffset(0)),
            NewValues::new(),
        ))
    );
    assert_eq!(
        iterator.next(config),
        Some(OpenDeckResponse::Configuration(
            Wish::SetValue,
            Amount::Single,
            Block::Analog(0, AnalogSection::UpperADCOffset(0)),
            NewValues::new(),
        ))
    );

    assert_eq!(
        iterator.next(config),
        Some(OpenDeckResponse::Configuration(
            Wish::SetValue,
            Amount::Single,
            Block::Led(0, LedSection::State(false)),
            NewValues::new(),
        ))
    );
    assert_eq!(
        iterator.next(config),
        Some(OpenDeckResponse::Configuration(
            Wish::SetValue,
            Amount::Single,
            Block::Led(0, LedSection::BlinkTesting(false)),
            NewValues::new(),
        ))
    );
    assert_eq!(
        iterator.next(config),
        Some(OpenDeckResponse::Configuration(
            Wish::SetValue,
            Amount::Single,
            Block::Led(0, LedSection::ActivationId(0)),
            NewValues::new(),
        ))
    );
    assert_eq!(
        iterator.next(config),
        Some(OpenDeckResponse::Configuration(
            Wish::SetValue,
            Amount::Single,
            Block::Led(0, LedSection::RGBEnabled(true)),
            NewValues::new(),
        ))
    );
    assert_eq!(
        iterator.next(config),
        Some(OpenDeckResponse::Configuration(
            Wish::SetValue,
            Amount::Single,
            Block::Led(
                0,
                LedSection::ControlType(opendeck::led::ControlType::MidiInNoteSingleValue)
            ),
            NewValues::new(),
        ))
    );
    assert_eq!(
        iterator.next(config),
        Some(OpenDeckResponse::Configuration(
            Wish::SetValue,
            Amount::Single,
            Block::Led(0, LedSection::ActivationValue(0)),
            NewValues::new(),
        ))
    );
    assert_eq!(
        iterator.next(config),
        Some(OpenDeckResponse::Configuration(
            Wish::SetValue,
            Amount::Single,
            Block::Led(0, LedSection::Channel(ChannelOrAll::default())),
            NewValues::new(),
        ))
    );

    assert_eq!(
        iterator.next(config),
        Some(OpenDeckResponse::Special(SpecialResponse::Backup))
    );

    assert_eq!(iterator.next(config), None);
}

#[test]
fn backup_then_restore_gives_the_configuration_back() {
    let version = FirmwareVersion {
        major: 1,
        minor: 0,
        revision: 0,
    };
    let mut source = Config::<2, 2, 1, 1, 1, _>::new(version, 1, NoopHandler);
    let set = |c: &mut Config<2, 2, 1, 1, 1, NoopHandler>, block: Block| {
        c.process_config(Wish::SetValue, Amount::Single, block);
    };
    set(&mut source, Block::Button(1, ButtonSection::MidiId(9)));
    set(&mut source, Block::Button(0, ButtonSection::Type(ButtonType::Latching)));
    set(&mut source, Block::Encoder(0, EncoderSection::UpperLimit(300)));
    set(&mut source, Block::Analog(0, AnalogSection::MessageType(AnalogMessageType::NRPN14)));
    set(&mut source, Block::Led(0, LedSection::ActivationId(42)));
    set(&mut source, Block::Global(GlobalSection::Presets(PresetIndex::Active, 1)));
    set(&mut source, Block::Button(0, ButtonSection::Channel(ChannelOrAll::Channel(5))));
    set(&mut source, Block::Encoder(0, EncoderSection::Accelleration(Accelleration::Fast)));
    set(&mut source, Block::Global(GlobalSection::Presets(PresetIndex::Active, 0)));

    let mut target = Config::<2, 2, 1, 1, 1, _>::new(version, 2, NoopHandler);
    let mut iterator = ConfigBackupIterator::new();
    let mut markers = 0;
    while let Some(response) = iterator.next(&source) {
        match response {
            OpenDeckResponse::Special(SpecialResponse::Backup) => markers += 1,
            OpenDeckResponse::Configuration(wish, amount, block, _) => {
                target.process_config(wish, amount, block);
            }
            other => panic!("unexpected response {:?}", other),
        }
    }
    assert_eq!(markers, 2);
    for q in 0..2 {
        assert_eq!(source.presets[q].buttons, target.presets[q].buttons);
        assert_eq!(source.presets[q].encoders, target.presets[q].encoders);
        assert_eq!(source.presets[q].analogs, target.presets[q].analogs);
        assert_eq!(source.presets[q].leds, target.presets[q].leds);
    }
    assert_eq!(target.presets[1].buttons[0].midi_id, source.presets[1].buttons[0].midi_id);
    assert_eq!(target.global.preset.current, 1);
}
