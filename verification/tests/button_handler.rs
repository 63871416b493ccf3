use opendeck::button::handler::Action;
use opendeck::button::{Button, ButtonMessageType, ButtonState, ButtonType};
use opendeck::channel::ChannelOrAll;
use opendeck::midi::BufferTooSmall;

/// The bytes of a message that was written.
fn out(r: Result<Option<usize>, BufferTooSmall>, buf: &[u8]) -> Vec<u8> {
    let n = r.unwrap().unwrap();
    buf[..n].to_vec()
}

#[test]
fn handler_test_note_on() {
    let mut buf = [0x00u8; 8];
    let mut button = Button {
        button_type: ButtonType::Momentary,
        message_type: ButtonMessageType::Notes,
        midi_id: 0x03,
        value: 0x7F,
        channel: ChannelOrAll::default(),
        state: ButtonState::default(),
    };
    let mut m = button.handle(Action::Pressed);
    assert_eq!(
        out(m.next(&mut buf), &buf),
        [0x90, 0x03, 0x7F]
    );
    assert_eq!(m.next(&mut buf), Ok(None));
}

#[test]
fn test_note_on_all_channels() {
    let mut buf = [0x00u8; 8];
    let mut button = Button {
        button_type: ButtonType::Momentary,
        message_type: ButtonMessageType::Notes,
        midi_id: 0x03,
        value: 0x7F,
        channel: ChannelOrAll::All,
        state: ButtonState::default(),
    };
    let mut m = button.handle(Action::Pressed);
    assert_eq!(
        out(m.next(&mut buf), &buf),
        [0x90, 0x03, 0x7F]
    );
    assert_eq!(
        out(m.next(&mut buf), &buf),
        [0x91, 0x03, 0x7F]
    );
    assert_eq!(
        out(m.next(&mut buf), &buf),
        [0x92, 0x03, 0x7F]
    );
    assert_eq!(
        out(m.next(&mut buf), &buf),
        [0x93, 0x03, 0x7F]
    );
    assert_eq!(
        out(m.next(&mut buf), &buf),
        [0x94, 0x03, 0x7F]
    );
    assert_eq!(
        out(m.next(&mut buf), &buf),
        [0x95, 0x03, 0x7F]
    );
    assert_eq!(
        out(m.next(&mut buf), &buf),
        [0x96, 0x03, 0x7F]
    );
    assert_eq!(
        out(m.next(&mut buf), &buf),
        [0x97, 0x03, 0x7F]
    );
    assert_eq!(
        out(m.next(&mut buf), &buf),
        [0x98, 0x03, 0x7F]
    );
    assert_eq!(
        out(m.next(&mut buf), &buf),
        [0x99, 0x03, 0x7F]
    );
    assert_eq!(
        out(m.next(&mut buf), &buf),
        [0x9A, 0x03, 0x7F]
    );
    assert_eq!(
        out(m.next(&mut buf), &buf),
        [0x9B, 0x03, 0x7F]
    );
    assert_eq!(
        out(m.next(&mut buf), &buf),
        [0x9C, 0x03, 0x7F]
    );
    assert_eq!(
        out(m.next(&mut buf), &buf),
        [0x9D, 0x03, 0x7F]
    );
    assert_eq!(
        out(m.next(&mut buf), &buf),
        [0x9E, 0x03, 0x7F]
    );
    assert_eq!(
        out(m.next(&mut buf), &buf),
        [0x9F, 0x03, 0x7F]
    );

    assert_eq!(m.next(&mut buf), Ok(None));
}

#[test]
fn test_program_change() {
    let mut buf = [0x00u8; 8];
    let mut button = Button {
        button_type: ButtonType::Momentary,
        message_type: ButtonMessageType::ProgramChange,
        midi_id: 0x03,
        value: 0x7F,
        channel: ChannelOrAll::default(),
        state: ButtonState::default(),
    };
    let mut m = button.handle(Action::Pressed);
    assert_eq!(out(m.next(&mut buf), &buf), [0xC0, 0x03]);
    assert_eq!(m.next(&mut buf), Ok(None));
}

#[test]
fn test_program_change_release() {
    let mut buf = [0x00u8; 8];
    let mut button = Button {
        button_type: ButtonType::Momentary,
        message_type: ButtonMessageType::ProgramChange,
        midi_id: 0x03,
        value: 0x7F,
        channel: ChannelOrAll::default(),
        state: ButtonState::default(),
    };
    let mut m = button.handle(Action::Released);
    assert_eq!(m.next(&mut buf), Ok(None));
}

#[test]
fn test_control_change() {
    let mut buf = [0x00u8; 8];
    let mut button = Button {
        button_type: ButtonType::Momentary,
        message_type: ButtonMessageType::ControlChange,
        midi_id: 0x03,
        value: 0x7F,
        channel: ChannelOrAll::default(),
        state: ButtonState::default(),
    };
    let mut m = button.handle(Action::Pressed);
    assert_eq!(
        out(m.next(&mut buf), &buf),
        [0xB0, 0x03, 0x7F]
    );
    assert_eq!(m.next(&mut buf), Ok(None));
}

#[test]
fn test_control_change_release() {
    let mut buf = [0x00u8; 8];
    let mut button = Button {
        button_type: ButtonType::Momentary,
        message_type: ButtonMessageType::ControlChange,
        midi_id: 0x03,
        value: 0x7F,
        channel: ChannelOrAll::default(),
        state: ButtonState::default(),
    };
    let mut m = button.handle(Action::Released);
    assert_eq!(m.next(&mut buf), Ok(None));
}

#[test]
fn test_control_change_with_reset() {
    let mut buf = [0x00u8; 8];
    let mut button = Button {
        button_type: ButtonType::Momentary,
        message_type: ButtonMessageType::ControlChangeWithReset,
        midi_id: 0x03,
        value: 0x7F,
        channel: ChannelOrAll::default(),
        state: ButtonState::default(),
    };
    let mut m = button.handle(Action::Pressed);
    assert_eq!(
        out(m.next(&mut buf), &buf),
        [0xB0, 0x03, 0x7F]
    );
    assert_eq!(m.next(&mut buf), Ok(None));
}

#[test]
fn test_control_change_with_reset_release() {
    let mut buf = [0x00u8; 8];
    let mut button = Button {
        button_type: ButtonType::Momentary,
        message_type: ButtonMessageType::ControlChangeWithReset,
        midi_id: 0x03,
        value: 0x7F,
        channel: ChannelOrAll::default(),
        state: ButtonState::default(),
    };
    let mut m = button.handle(Action::Released);
    assert_eq!(
        out(m.next(&mut buf), &buf),
        [0xB0, 0x03, 0x00]
    );
    assert_eq!(m.next(&mut buf), Ok(None));
}

#[test]
fn test_control_change_with_value0() {
    let mut buf = [0x00u8; 8];
    let mut button = Button {
        button_type: ButtonType::Momentary,
        message_type: ButtonMessageType::ControlChangeWithValue0,
        midi_id: 0x03,
        value: 0x7F,
        channel: ChannelOrAll::default(),
        state: ButtonState::default(),
    };
    let mut m = button.handle(Action::Pressed);
    assert_eq!(
        out(m.next(&mut buf), &buf),
        [0xB0, 0x03, 0x00]
    );
    assert_eq!(m.next(&mut buf), Ok(None));
}

#[test]
fn test_no_message() {
    let mut buf = [0x00u8; 8];
    let mut button = Button {
        button_type: ButtonType::Momentary,
        message_type: ButtonMessageType::NoMessage,
        midi_id: 0x03,
        value: 0x7F,
        channel: ChannelOrAll::default(),
        state: ButtonState::default(),
    };
    let result = button.handle(Action::Pressed).next(&mut buf).unwrap();
    assert_eq!(result, None);
}

#[test]
fn test_realtime_clock() {
    let mut buf = [0x00u8; 8];
    let mut button = Button {
        button_type: ButtonType::Momentary,
        message_type: ButtonMessageType::RealTimeClock,
        midi_id: 0x03,
        value: 0x7F,
        channel: ChannelOrAll::default(),
        state: ButtonState::default(),
    };
    let mut m = button.handle(Action::Pressed);
    assert_eq!(out(m.next(&mut buf), &buf), [0xF8]);
    assert_eq!(m.next(&mut buf), Ok(None));
}

#[test]
fn test_realtime_start() {
    let mut buf = [0x00u8; 8];
    let mut button = Button {
        button_type: ButtonType::Momentary,
        message_type: ButtonMessageType::RealTimeStart,
        midi_id: 0x03,
        value: 0x7F,
        channel: ChannelOrAll::default(),
        state: ButtonState::default(),
    };
    let mut m = button.handle(Action::Pressed);
    assert_eq!(out(m.next(&mut buf), &buf), [0xFA]);
    assert_eq!(m.next(&mut buf), Ok(None));
}

#[test]
fn test_realtime_stop() {
    let mut buf = [0x00u8; 8];
    let mut button = Button {
        button_type: ButtonType::Momentary,
        message_type: ButtonMessageType::RealTimeStop,
        midi_id: 0x03,
        value: 0x7F,
        channel: ChannelOrAll::default(),
        state: ButtonState::default(),
    };
    let mut m = button.handle(Action::Pressed);
    assert_eq!(out(m.next(&mut buf), &buf), [0xFC]);
    assert_eq!(m.next(&mut buf), Ok(None));
}

#[test]
fn test_realtime_continue() {
    let mut buf = [0x00u8; 8];
    let mut button = Button {
        button_type: ButtonType::Momentary,
        message_type: ButtonMessageType::RealTimeContinue,
        midi_id: 0x03,
        value: 0x7F,
        channel: ChannelOrAll::default(),
        state: ButtonState::default(),
    };
    let mut m = button.handle(Action::Pressed);
    assert_eq!(out(m.next(&mut buf), &buf), [0xFB]);
    assert_eq!(m.next(&mut buf), Ok(None));
}

#[test]
fn test_realtime_active_sensing() {
    let mut buf = [0x00u8; 8];
    let mut button = Button {
        button_type: ButtonType::Momentary,
        message_type: ButtonMessageType::RealTimeActiveSensing,
        midi_id: 0x03,
        value: 0x7F,
        channel: ChannelOrAll::default(),
        state: ButtonState::default(),
    };
    let mut m = button.handle(Action::Pressed);
    assert_eq!(out(m.next(&mut buf), &buf), [0xFE]);
    assert_eq!(m.next(&mut buf), Ok(None));
}

#[test]
fn test_realtime_reset() {
    let mut buf = [0x00u8; 8];
    let mut button = Button {
        button_type: ButtonType::Momentary,
        message_type: ButtonMessageType::RealTimeSystemReset,
        midi_id: 0x03,
        value: 0x7F,
        channel: ChannelOrAll::default(),
        state: ButtonState::default(),
    };
    let mut m = button.handle(Action::Pressed);
    assert_eq!(out(m.next(&mut buf), &buf), [0xFF]);
    assert_eq!(m.next(&mut buf), Ok(None));
}

#[test]
fn test_realtime_program_change_incr() {
    let mut buf = [0x00u8; 8];
    let mut button = Button {
        button_type: ButtonType::Momentary,
        message_type: ButtonMessageType::ProgramChangeIncr,
        midi_id: 0x7E,
        value: 0x7F,
        channel: ChannelOrAll::default(),
        state: ButtonState::default(),
    };
    let result_1 = out(button.handle(Action::Pressed).next(&mut buf), &buf);
    assert_eq!(result_1, [0xC0, 0x7F]);
    let result_1 = out(button.handle(Action::Pressed).next(&mut buf), &buf);
    assert_eq!(result_1, [0xC0, 0x00]);
}

#[test]
fn test_realtime_program_change_decr() {
    let mut buf = [0x00u8; 8];
    let mut button = Button {
        button_type: ButtonType::Momentary,
        message_type: ButtonMessageType::ProgramChangeDecr,
        midi_id: 0x01,
        value: 0x7F,
        channel: ChannelOrAll::default(),
        state: ButtonState::default(),
    };
    let result_1 = out(button.handle(Action::Pressed).next(&mut buf), &buf);
    assert_eq!(result_1, [0xC0, 0x00]);
    let result_1 = out(button.handle(Action::Pressed).next(&mut buf), &buf);
    assert_eq!(result_1, [0xC0, 0x7F]);
}

#[test]
fn test_note_off_only() {
    let mut buf = [0x00u8; 8];
    let mut button = Button {
        button_type: ButtonType::Momentary,
        message_type: ButtonMessageType::NoteOffOnly,
        midi_id: 0x03,
        value: 0x7F,
        channel: ChannelOrAll::default(),
        state: ButtonState::default(),
    };
    let mut m = button.handle(Action::Pressed);
    assert_eq!(
        out(m.next(&mut buf), &buf),
        [0x80, 0x03, 0x7F]
    );
    assert_eq!(m.next(&mut buf), Ok(None));
}

#[test]
fn test_multi_value_inc_reset_note() {
    let mut buf = [0x00u8; 8];
    let mut button = Button {
        button_type: ButtonType::Momentary,
        message_type: ButtonMessageType::MultiValueIncResetNote,
        midi_id: 0x03,
        value: 50,
        channel: ChannelOrAll::default(),
        state: ButtonState::default(),
    };
    let result_1 = out(button.handle(Action::Pressed).next(&mut buf), &buf);
    assert_eq!(result_1, [0x90, 0x03, 50]);
    let result_2 = out(button.handle(Action::Pressed).next(&mut buf), &buf);
    assert_eq!(result_2, [0x90, 0x03, 100]);
    let result_3 = out(button.handle(Action::Pressed).next(&mut buf), &buf);
    assert_eq!(result_3, [0x90, 0x03, 50]);
    let result_4 = out(button.handle(Action::Pressed).next(&mut buf), &buf);
    assert_eq!(result_4, [0x90, 0x03, 100]);
    let result_5 = out(button.handle(Action::Pressed).next(&mut buf), &buf);
    assert_eq!(result_5, [0x90, 0x03, 50]);
}

#[test]
fn test_multi_value_inc_reset_cc() {
    let mut buf = [0x00u8; 8];
    let mut button = Button {
        button_type: ButtonType::Momentary,
        message_type: ButtonMessageType::MultiValueIncResetCC,
        midi_id: 0x03,
        value: 40,
        channel: ChannelOrAll::default(),
        state: ButtonState::default(),
    };
    let result_1 = out(button.handle(Action::Pressed).next(&mut buf), &buf);
    assert_eq!(result_1, [0xB0, 0x03, 40]);
    let result_2 = out(button.handle(Action::Pressed).next(&mut buf), &buf);
    assert_eq!(result_2, [0xB0, 0x03, 80]);
    let result_3 = out(button.handle(Action::Pressed).next(&mut buf), &buf);
    assert_eq!(result_3, [0xB0, 0x03, 120]);
    let result_4 = out(button.handle(Action::Pressed).next(&mut buf), &buf);
    assert_eq!(result_4, [0xB0, 0x03, 40]);
    let result_5 = out(button.handle(Action::Pressed).next(&mut buf), &buf);
    assert_eq!(result_5, [0xB0, 0x03, 80]);
}

#[test]
fn test_multi_value_inc_dec_note() {
    let mut buf = [0x00u8; 8];
    let mut button = Button {
        button_type: ButtonType::Momentary,
        message_type: ButtonMessageType::MultiValueIncDecNote,
        midi_id: 0x03,
        value: 50,
        channel: ChannelOrAll::default(),
        state: ButtonState::default(),
    };
    let result_1 = out(button.handle(Action::Pressed).next(&mut buf), &buf);
    assert_eq!(result_1, [0x90, 0x03, 50]);
    let result_2 = out(button.handle(Action::Pressed).next(&mut buf), &buf);
    assert_eq!(result_2, [0x90, 0x03, 100]);
    let result_3 = out(button.handle(Action::Pressed).next(&mut buf), &buf);
    assert_eq!(result_3, [0x90, 0x03, 50]);
    let result_4 = out(button.handle(Action::Pressed).next(&mut buf), &buf);
    assert_eq!(result_4, [0x90, 0x03, 100]);
    let result_5 = out(button.handle(Action::Pressed).next(&mut buf), &buf);
    assert_eq!(result_5, [0x90, 0x03, 50]);
}

#[test]
fn test_multi_value_inc_dec_cc() {
    let mut buf = [0x00u8; 8];
    let mut button = Button {
        button_type: ButtonType::Momentary,
        message_type: ButtonMessageType::MultiValueIncDecCC,
        midi_id: 0x03,
        value: 40,
        channel: ChannelOrAll::default(),
        state: ButtonState::default(),
    };
    let result_1 = out(button.handle(Action::Pressed).next(&mut buf), &buf);
    assert_eq!(result_1, [0xB0, 0x03, 40]);
    let result_2 = out(button.handle(Action::Pressed).next(&mut buf), &buf);
    assert_eq!(result_2, [0xB0, 0x03, 80]);
    let result_3 = out(button.handle(Action::Pressed).next(&mut buf), &buf);
    assert_eq!(result_3, [0xB0, 0x03, 120]);
    let result_4 = out(button.handle(Action::Pressed).next(&mut buf), &buf);
    assert_eq!(result_4, [0xB0, 0x03, 80]);
    let result_5 = out(button.handle(Action::Pressed).next(&mut buf), &buf);
    assert_eq!(result_5, [0xB0, 0x03, 40]);
    let result_6 = out(button.handle(Action::Pressed).next(&mut buf), &buf);
    assert_eq!(result_6, [0xB0, 0x03, 80]);
}

#[test]
fn test_mmc_play() {
    let mut buf = [0x00u8; 8];
    let mut button = Button {
        button_type: ButtonType::Momentary,
        message_type: ButtonMessageType::MMCPlay,
        midi_id: 0x03,
        value: 0x7F,
        channel: ChannelOrAll::default(),
        state: ButtonState::default(),
    };
    let mut m = button.handle(Action::Pressed);
    assert_eq!(
        out(m.next(&mut buf), &buf),
        [0xF0, 0x7F, 0x03, 0x06, 0x02, 0xF7]
    );
    assert_eq!(m.next(&mut buf), Ok(None));
}

#[test]
fn test_mmc_stop() {
    let mut buf = [0x00u8; 8];
    let mut button = Button {
        button_type: ButtonType::Momentary,
        message_type: ButtonMessageType::MMCStop,
        midi_id: 0x04,
        value: 0x7F,
        channel: ChannelOrAll::default(),
        state: ButtonState::default(),
    };
    let mut m = button.handle(Action::Pressed);
    assert_eq!(
        out(m.next(&mut buf), &buf),
        [0xF0, 0x7F, 0x04, 0x06, 0x01, 0xF7]
    );
    assert_eq!(m.next(&mut buf), Ok(None));
}

#[test]
fn test_mmc_record() {
    let mut buf = [0x00u8; 8];
    let mut button = Button {
        button_type: ButtonType::Momentary,
        message_type: ButtonMessageType::MMCRecord,
        midi_id: 0x05,
        value: 0x7F,
        channel: ChannelOrAll::default(),
        state: ButtonState::default(),
    };
    let mut m = button.handle(Action::Pressed);
    assert_eq!(
        out(m.next(&mut buf), &buf),
        [0xF0, 0x7F, 0x05, 0x06, 0x06, 0xF7]
    );
    assert_eq!(m.next(&mut buf), Ok(None));
}

#[test]
fn test_mmc_pause() {
    let mut buf = [0x00u8; 8];
    let mut button = Button {
        button_type: ButtonType::Momentary,
        message_type: ButtonMessageType::MMCPause,
        midi_id: 0x05,
        value: 0x7F,
        channel: ChannelOrAll::default(),
        state: ButtonState::default(),
    };
    let mut m = button.handle(Action::Pressed);
    assert_eq!(
        out(m.next(&mut buf), &buf),
        [0xF0, 0x7F, 0x05, 0x06, 0x09, 0xF7]
    );
    assert_eq!(m.next(&mut buf), Ok(None));
}

#[test]
fn latching_button_toggles_once_per_press() {
    let mut buf = [0x00u8; 8];
    let mut button = Button {
        button_type: ButtonType::Latching,
        message_type: ButtonMessageType::Notes,
        midi_id: 0x05,
        value: 0x64,
        channel: ChannelOrAll::Channel(2),
        state: ButtonState::default(),
    };
    let actions = [
        Action::Pressed,
        Action::Released,
        Action::Pressed,
        Action::Released,
        Action::Released,
        Action::Pressed,
    ];
    let mut presses = 0;
    for action in actions {
        let mut m = button.handle(action);
        let r = m.next(&mut buf);
        if action == Action::Pressed {
            presses += 1;
            let velocity = if presses % 2 == 1 { 0x64 } else { 0x00 };
            assert_eq!(out(r, &buf), [0x92, 0x05, velocity]);
        } else {
            assert_eq!(r, Ok(None));
        }
        assert_eq!(m.next(&mut buf), Ok(None));
        drop(m);
        assert_eq!(button.state.latch_on, presses % 2 == 1);
    }
}

#[test]
fn multi_value_step_is_kept_only_when_its_message_is_written() {
    let mut small = [0x00u8; 2];
    let mut buf = [0x00u8; 8];
    let mut button = Button {
        button_type: ButtonType::Momentary,
        message_type: ButtonMessageType::MultiValueIncResetNote,
        midi_id: 0x03,
        value: 50,
        channel: ChannelOrAll::default(),
        state: ButtonState::default(),
    };
    let before = button.state;
    assert_eq!(button.handle(Action::Pressed).next(&mut small), Err(BufferTooSmall));
    assert_eq!(button.state, before);
    assert_eq!(out(button.handle(Action::Pressed).next(&mut buf), &buf), [0x90, 0x03, 50]);
    assert_eq!(button.handle(Action::Pressed).next(&mut small), Err(BufferTooSmall));
    assert_eq!(out(button.handle(Action::Pressed).next(&mut buf), &buf), [0x90, 0x03, 100]);
}
