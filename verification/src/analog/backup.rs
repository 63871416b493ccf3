//! The responses that restore an analog input in a backup.
use vstd::prelude::*;
use crate::analog::{Analog, AnalogSection, ANALOG_SECTION_CHANNEL, ANALOG_SECTION_ENABLED, ANALOG_SECTION_INVERT_STATE, ANALOG_SECTION_LOWER_ADC_OFFSET, ANALOG_SECTION_LOWER_CC_LIMIT_LSB, ANALOG_SECTION_MESSAGE_TYPE, ANALOG_SECTION_MIDI_ID_LSB, ANALOG_SECTION_UPPER_ADC_OFFSET, ANALOG_SECTION_UPPER_CC_LIMIT_LSB};
use crate::{is_restore_response, restore_response, Block, OpenDeckResponse};

verus! {

/// The section of `x` with identifier `id`, as a backup sends it.
pub open spec fn spec_analog_backup_section(x: Analog, id: u8) -> AnalogSection {
    if id == ANALOG_SECTION_ENABLED {
        AnalogSection::Enabled(x.enabled)
    } else if id == ANALOG_SECTION_INVERT_STATE {
        AnalogSection::Inverted(x.inverted)
    } else if id == ANALOG_SECTION_MESSAGE_TYPE {
        AnalogSection::MessageType(x.message_type)
    } else if id == ANALOG_SECTION_MIDI_ID_LSB {
        AnalogSection::MidiId(x.midi_id)
    } else if id == ANALOG_SECTION_LOWER_CC_LIMIT_LSB {
        AnalogSection::LowerCCLimit(x.lower_limit)
    } else if id == ANALOG_SECTION_UPPER_CC_LIMIT_LSB {
        AnalogSection::UpperCCLimit(x.upper_limit)
    } else if id == ANALOG_SECTION_CHANNEL {
        AnalogSection::Channel(x.channel)
    } else if id == ANALOG_SECTION_LOWER_ADC_OFFSET {
        AnalogSection::LowerADCOffset(x.lower_adc_offset)
    } else {
        AnalogSection::UpperADCOffset(x.upper_adc_offset)
    }
}

/// The section identifiers a backup walks through, in order.
pub open spec fn spec_analog_backup_ids() -> Seq<u8> {
    seq![ANALOG_SECTION_ENABLED, ANALOG_SECTION_INVERT_STATE, ANALOG_SECTION_MESSAGE_TYPE, ANALOG_SECTION_MIDI_ID_LSB, ANALOG_SECTION_LOWER_CC_LIMIT_LSB, ANALOG_SECTION_UPPER_CC_LIMIT_LSB, ANALOG_SECTION_CHANNEL, ANALOG_SECTION_LOWER_ADC_OFFSET, ANALOG_SECTION_UPPER_ADC_OFFSET]
}

/// The place of section `id` in the walk.
pub open spec fn spec_analog_backup_pos(id: u8) -> int {
    if id == ANALOG_SECTION_ENABLED {
        0
    } else if id == ANALOG_SECTION_INVERT_STATE {
        1
    } else if id == ANALOG_SECTION_MESSAGE_TYPE {
        2
    } else if id == ANALOG_SECTION_MIDI_ID_LSB {
        3
    } else if id == ANALOG_SECTION_LOWER_CC_LIMIT_LSB {
        4
    } else if id == ANALOG_SECTION_UPPER_CC_LIMIT_LSB {
        5
    } else if id == ANALOG_SECTION_CHANNEL {
        6
    } else if id == ANALOG_SECTION_LOWER_ADC_OFFSET {
        7
    } else {
        8
    }
}

/// The section a backup sends after the one with identifier `id`.
pub open spec fn spec_analog_backup_next_id(id: u8) -> u8 {
    if id == ANALOG_SECTION_ENABLED {
        ANALOG_SECTION_INVERT_STATE
    } else if id == ANALOG_SECTION_INVERT_STATE {
        ANALOG_SECTION_MESSAGE_TYPE
    } else if id == ANALOG_SECTION_MESSAGE_TYPE {
        ANALOG_SECTION_MIDI_ID_LSB
    } else if id == ANALOG_SECTION_MIDI_ID_LSB {
        ANALOG_SECTION_LOWER_CC_LIMIT_LSB
    } else if id == ANALOG_SECTION_LOWER_CC_LIMIT_LSB {
        ANALOG_SECTION_UPPER_CC_LIMIT_LSB
    } else if id == ANALOG_SECTION_UPPER_CC_LIMIT_LSB {
        ANALOG_SECTION_CHANNEL
    } else if id == ANALOG_SECTION_CHANNEL {
        ANALOG_SECTION_LOWER_ADC_OFFSET
    } else if id == ANALOG_SECTION_LOWER_ADC_OFFSET {
        ANALOG_SECTION_UPPER_ADC_OFFSET
    } else {
        id
    }
}

/// The identifiers a backup walks through.
pub open spec fn is_analog_backup_id(id: u8) -> bool {
    id == ANALOG_SECTION_ENABLED || id == ANALOG_SECTION_INVERT_STATE || id == ANALOG_SECTION_MESSAGE_TYPE || id == ANALOG_SECTION_MIDI_ID_LSB || id == ANALOG_SECTION_LOWER_CC_LIMIT_LSB || id == ANALOG_SECTION_UPPER_CC_LIMIT_LSB || id == ANALOG_SECTION_CHANNEL || id == ANALOG_SECTION_LOWER_ADC_OFFSET || id == ANALOG_SECTION_UPPER_ADC_OFFSET
}

/// The blocks that restore `x` as component `index`, in the order a backup sends them.
pub open spec fn spec_analog_backup_blocks(x: Analog, index: u16) -> Seq<Block> {
    Seq::new(9nat, |k: int| Block::Analog(index, spec_analog_backup_section(x, spec_analog_backup_ids()[k])))
}

/// Walks the sections of one analog input: enabled, inverted, message type, MIDI id, lower and upper limit, channel, lower and upper converter offset.
#[derive(Debug, Copy, Clone, PartialEq, Eq, Structural)]
pub struct AnalogBackupIterator {
    pub index: u16,
    /// The section sent next.
    pub section_id: u8,
    pub done: bool,
}

impl AnalogBackupIterator {
    pub open spec fn wf(self) -> bool {
        is_analog_backup_id(self.section_id)
    }

    /// The blocks still to be sent for `x`.
    pub open spec fn remaining(self, x: Analog) -> Seq<Block> {
        if self.done { Seq::<Block>::empty() } else { spec_analog_backup_blocks(x, self.index).skip(spec_analog_backup_pos(self.section_id)) }
    }

    pub fn new(index: usize) -> (r: Self)
        ensures
            r == (AnalogBackupIterator { index: index as u16, section_id: ANALOG_SECTION_ENABLED, done: false }),
            r.wf(),
            forall|x: Analog| #[trigger] r.remaining(x) == spec_analog_backup_blocks(x, index as u16),
    {
        let r = AnalogBackupIterator { index: index as u16, section_id: ANALOG_SECTION_ENABLED, done: false };
        proof {
            assert forall|x: Analog| #[trigger] r.remaining(x) == spec_analog_backup_blocks(x, index as u16) by {
                assert(r.remaining(x) =~= spec_analog_backup_blocks(x, index as u16));
            }
        }
        r
    }

    /// The response that restores the next section of `x`; `None` once the
    /// last section has been sent.
    pub fn next(&mut self, x: &Analog) -> (r: Option<OpenDeckResponse>)
        requires old(self).wf(),
        ensures
            final(self).wf(),
            final(self).index == old(self).index,
            old(self).done ==> r is None && *final(self) == *old(self),
            !old(self).done ==> {
                &&& is_restore_response(r, Block::Analog(old(self).index, spec_analog_backup_section(*x, old(self).section_id)))
                &&& old(self).section_id == ANALOG_SECTION_UPPER_ADC_OFFSET ==> final(self).done && final(self).section_id == old(self).section_id
                &&& old(self).section_id != ANALOG_SECTION_UPPER_ADC_OFFSET ==> !final(self).done && final(self).section_id == spec_analog_backup_next_id(old(self).section_id)
            },
            old(self).remaining(*x).len() == 0 ==> r is None,
            old(self).remaining(*x).len() > 0 ==> is_restore_response(r, old(self).remaining(*x)[0])
                && final(self).remaining(*x) == old(self).remaining(*x).drop_first(),
    {
        if self.done {
            return None;
        }
        let id = self.section_id;
        let section = if id == ANALOG_SECTION_ENABLED {
            AnalogSection::Enabled(x.enabled)
        } else if id == ANALOG_SECTION_INVERT_STATE {
            AnalogSection::Inverted(x.inverted)
        } else if id == ANALOG_SECTION_MESSAGE_TYPE {
            AnalogSection::MessageType(x.message_type)
        } else if id == ANALOG_SECTION_MIDI_ID_LSB {
            AnalogSection::MidiId(x.midi_id)
        } else if id == ANALOG_SECTION_LOWER_CC_LIMIT_LSB {
            AnalogSection::LowerCCLimit(x.lower_limit)
        } else if id == ANALOG_SECTION_UPPER_CC_LIMIT_LSB {
            AnalogSection::UpperCCLimit(x.upper_limit)
        } else if id == ANALOG_SECTION_CHANNEL {
            AnalogSection::Channel(x.channel)
        } else if id == ANALOG_SECTION_LOWER_ADC_OFFSET {
            AnalogSection::LowerADCOffset(x.lower_adc_offset)
        } else {
            AnalogSection::UpperADCOffset(x.upper_adc_offset)
        };
        if id == ANALOG_SECTION_UPPER_ADC_OFFSET {
            self.done = true;
        } else {
            self.section_id = if id == ANALOG_SECTION_ENABLED {
                ANALOG_SECTION_INVERT_STATE
            } else if id == ANALOG_SECTION_INVERT_STATE {
                ANALOG_SECTION_MESSAGE_TYPE
            } else if id == ANALOG_SECTION_MESSAGE_TYPE {
                ANALOG_SECTION_MIDI_ID_LSB
            } else if id == ANALOG_SECTION_MIDI_ID_LSB {
                ANALOG_SECTION_LOWER_CC_LIMIT_LSB
            } else if id == ANALOG_SECTION_LOWER_CC_LIMIT_LSB {
                ANALOG_SECTION_UPPER_CC_LIMIT_LSB
            } else if id == ANALOG_SECTION_UPPER_CC_LIMIT_LSB {
                ANALOG_SECTION_CHANNEL
            } else if id == ANALOG_SECTION_CHANNEL {
                ANALOG_SECTION_LOWER_ADC_OFFSET
            } else if id == ANALOG_SECTION_LOWER_ADC_OFFSET {
                ANALOG_SECTION_UPPER_ADC_OFFSET
            } else {
                id
            };
        }
        proof {
            assert(self.remaining(*x) =~= old(self).remaining(*x).drop_first());
        }
        Some(restore_response(Block::Analog(self.index, section)))
    }
}

} // verus!
