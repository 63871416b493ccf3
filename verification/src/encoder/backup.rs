//! The responses that restore an encoder in a backup.
use vstd::prelude::*;
use crate::encoder::{Encoder, EncoderSection, ENCODER_SECTION_ACCELLERATION, ENCODER_SECTION_CHANNEL, ENCODER_SECTION_ENABLED, ENCODER_SECTION_INVERT_STATE, ENCODER_SECTION_LOWER_LIMIT, ENCODER_SECTION_MESSAGE_TYPE, ENCODER_SECTION_MIDI_ID_LSB, ENCODER_SECTION_PULSES_PER_STEP, ENCODER_SECTION_REMOTE_SYNC, ENCODER_SECTION_REPEATED_VALUE, ENCODER_SECTION_SECOND_MIDI_ID, ENCODER_SECTION_UPPER_LIMIT};
use crate::{is_restore_response, restore_response, Block, OpenDeckResponse};

verus! {

/// The section of `x` with identifier `id`, as a backup sends it.
pub open spec fn spec_encoder_backup_section(x: Encoder, id: u8) -> EncoderSection {
    if id == ENCODER_SECTION_ENABLED {
        EncoderSection::Enabled(x.enabled)
    } else if id == ENCODER_SECTION_INVERT_STATE {
        EncoderSection::Inverted(x.inverted)
    } else if id == ENCODER_SECTION_MESSAGE_TYPE {
        EncoderSection::MessageType(x.message_type)
    } else if id == ENCODER_SECTION_MIDI_ID_LSB {
        EncoderSection::MidiIdLSB(x.midi_id)
    } else if id == ENCODER_SECTION_CHANNEL {
        EncoderSection::Channel(x.channel)
    } else if id == ENCODER_SECTION_PULSES_PER_STEP {
        EncoderSection::PulsesPerStep(x.pulses_per_step)
    } else if id == ENCODER_SECTION_ACCELLERATION {
        EncoderSection::Accelleration(x.accelleration)
    } else if id == ENCODER_SECTION_REMOTE_SYNC {
        EncoderSection::RemoteSync(x.remote_sync)
    } else if id == ENCODER_SECTION_LOWER_LIMIT {
        EncoderSection::LowerLimit(x.lower_limit)
    } else if id == ENCODER_SECTION_UPPER_LIMIT {
        EncoderSection::UpperLimit(x.upper_limit)
    } else if id == ENCODER_SECTION_REPEATED_VALUE {
        EncoderSection::RepeatedValue(x.value)
    } else {
        EncoderSection::SecondMidiId(x.second_midi_id)
    }
}

/// The section identifiers a backup walks through, in order.
pub open spec fn spec_encoder_backup_ids() -> Seq<u8> {
    seq![ENCODER_SECTION_ENABLED, ENCODER_SECTION_INVERT_STATE, ENCODER_SECTION_MESSAGE_TYPE, ENCODER_SECTION_MIDI_ID_LSB, ENCODER_SECTION_CHANNEL, ENCODER_SECTION_PULSES_PER_STEP, ENCODER_SECTION_ACCELLERATION, ENCODER_SECTION_REMOTE_SYNC, ENCODER_SECTION_LOWER_LIMIT, ENCODER_SECTION_UPPER_LIMIT, ENCODER_SECTION_REPEATED_VALUE, ENCODER_SECTION_SECOND_MIDI_ID]
}

/// The place of section `id` in the walk.
pub open spec fn spec_encoder_backup_pos(id: u8) -> int {
    if id == ENCODER_SECTION_ENABLED {
        0
    } else if id == ENCODER_SECTION_INVERT_STATE {
        1
    } else if id == ENCODER_SECTION_MESSAGE_TYPE {
        2
    } else if id == ENCODER_SECTION_MIDI_ID_LSB {
        3
    } else if id == ENCODER_SECTION_CHANNEL {
        4
    } else if id == ENCODER_SECTION_PULSES_PER_STEP {
        5
    } else if id == ENCODER_SECTION_ACCELLERATION {
        6
    } else if id == ENCODER_SECTION_REMOTE_SYNC {
        7
    } else if id == ENCODER_SECTION_LOWER_LIMIT {
        8
    } else if id == ENCODER_SECTION_UPPER_LIMIT {
        9
    } else if id == ENCODER_SECTION_REPEATED_VALUE {
        10
    } else {
        11
    }
}

/// The section a backup sends after the one with identifier `id`.
pub open spec fn spec_encoder_backup_next_id(id: u8) -> u8 {
    if id == ENCODER_SECTION_ENABLED {
        ENCODER_SECTION_INVERT_STATE
    } else if id == ENCODER_SECTION_INVERT_STATE {
        ENCODER_SECTION_MESSAGE_TYPE
    } else if id == ENCODER_SECTION_MESSAGE_TYPE {
        ENCODER_SECTION_MIDI_ID_LSB
    } else if id == ENCODER_SECTION_MIDI_ID_LSB {
        ENCODER_SECTION_CHANNEL
    } else if id == ENCODER_SECTION_CHANNEL {
        ENCODER_SECTION_PULSES_PER_STEP
    } else if id == ENCODER_SECTION_PULSES_PER_STEP {
        ENCODER_SECTION_ACCELLERATION
    } else if id == ENCODER_SECTION_ACCELLERATION {
        ENCODER_SECTION_REMOTE_SYNC
    } else if id == ENCODER_SECTION_REMOTE_SYNC {
        ENCODER_SECTION_LOWER_LIMIT
    } else if id == ENCODER_SECTION_LOWER_LIMIT {
        ENCODER_SECTION_UPPER_LIMIT
    } else if id == ENCODER_SECTION_UPPER_LIMIT {
        ENCODER_SECTION_REPEATED_VALUE
    } else if id == ENCODER_SECTION_REPEATED_VALUE {
        ENCODER_SECTION_SECOND_MIDI_ID
    } else {
        id
    }
}

/// The identifiers a backup walks through.
pub open spec fn is_encoder_backup_id(id: u8) -> bool {
    id == ENCODER_SECTION_ENABLED || id == ENCODER_SECTION_INVERT_STATE || id == ENCODER_SECTION_MESSAGE_TYPE || id == ENCODER_SECTION_MIDI_ID_LSB || id == ENCODER_SECTION_CHANNEL || id == ENCODER_SECTION_PULSES_PER_STEP || id == ENCODER_SECTION_ACCELLERATION || id == ENCODER_SECTION_REMOTE_SYNC || id == ENCODER_SECTION_LOWER_LIMIT || id == ENCODER_SECTION_UPPER_LIMIT || id == ENCODER_SECTION_REPEATED_VALUE || id == ENCODER_SECTION_SECOND_MIDI_ID
}

/// The blocks that restore `x` as component `index`, in the order a backup sends them.
pub open spec fn spec_encoder_backup_blocks(x: Encoder, index: u16) -> Seq<Block> {
    Seq::new(12nat, |k: int| Block::Encoder(index, spec_encoder_backup_section(x, spec_encoder_backup_ids()[k])))
}

/// Walks the sections of one encoder: enabled, inverted, message type, MIDI id, channel, pulses per step, accelleration, remote sync, lower and upper limit, value, second MIDI id.
#[derive(Debug, Copy, Clone, PartialEq, Eq, Structural)]
pub struct EncoderBackupIterator {
    pub index: u16,
    /// The section sent next.
    pub section_id: u8,
    pub done: bool,
}

impl EncoderBackupIterator {
    pub open spec fn wf(self) -> bool {
        is_encoder_backup_id(self.section_id)
    }

    /// The blocks still to be sent for `x`.
    pub open spec fn remaining(self, x: Encoder) -> Seq<Block> {
        if self.done { Seq::<Block>::empty() } else { spec_encoder_backup_blocks(x, self.index).skip(spec_encoder_backup_pos(self.section_id)) }
    }

    pub fn new(index: usize) -> (r: Self)
        ensures
            r == (EncoderBackupIterator { index: index as u16, section_id: ENCODER_SECTION_ENABLED, done: false }),
            r.wf(),
            forall|x: Encoder| #[trigger] r.remaining(x) == spec_encoder_backup_blocks(x, index as u16),
    {
        let r = EncoderBackupIterator { index: index as u16, section_id: ENCODER_SECTION_ENABLED, done: false };
        proof {
            assert forall|x: Encoder| #[trigger] r.remaining(x) == spec_encoder_backup_blocks(x, index as u16) by {
                assert(r.remaining(x) =~= spec_encoder_backup_blocks(x, index as u16));
            }
        }
        r
    }

    /// The response that restores the next section of `x`; `None` once the
    /// last section has been sent.
    pub fn next(&mut self, x: &Encoder) -> (r: Option<OpenDeckResponse>)
        requires old(self).wf(),
        ensures
            final(self).wf(),
            final(self).index == old(self).index,
            old(self).done ==> r is None && *final(self) == *old(self),
            !old(self).done ==> {
                &&& is_restore_response(r, Block::Encoder(old(self).index, spec_encoder_backup_section(*x, old(self).section_id)))
                &&& old(self).section_id == ENCODER_SECTION_SECOND_MIDI_ID ==> final(self).done && final(self).section_id == old(self).section_id
                &&& old(self).section_id != ENCODER_SECTION_SECOND_MIDI_ID ==> !final(self).done && final(self).section_id == spec_encoder_backup_next_id(old(self).section_id)
            },
            old(self).remaining(*x).len() == 0 ==> r is None,
            old(self).remaining(*x).len() > 0 ==> is_restore_response(r, old(self).remaining(*x)[0])
                && final(self).remaining(*x) == old(self).remaining(*x).drop_first(),
    {
        if self.done {
            return None;
        }
        let id = self.section_id;
        let section = if id == ENCODER_SECTION_ENABLED {
            EncoderSection::Enabled(x.enabled)
        } else if id == ENCODER_SECTION_INVERT_STATE {
            EncoderSection::Inverted(x.inverted)
        } else if id == ENCODER_SECTION_MESSAGE_TYPE {
            EncoderSection::MessageType(x.message_type)
        } else if id == ENCODER_SECTION_MIDI_ID_LSB {
            EncoderSection::MidiIdLSB(x.midi_id)
        } else if id == ENCODER_SECTION_CHANNEL {
            EncoderSection::Channel(x.channel)
        } else if id == ENCODER_SECTION_PULSES_PER_STEP {
            EncoderSection::PulsesPerStep(x.pulses_per_step)
        } else if id == ENCODER_SECTION_ACCELLERATION {
            EncoderSection::Accelleration(x.accelleration)
        } else if id == ENCODER_SECTION_REMOTE_SYNC {
            EncoderSection::RemoteSync(x.remote_sync)
        } else if id == ENCODER_SECTION_LOWER_LIMIT {
            EncoderSection::LowerLimit(x.lower_limit)
        } else if id == ENCODER_SECTION_UPPER_LIMIT {
            EncoderSection::UpperLimit(x.upper_limit)
        } else if id == ENCODER_SECTION_REPEATED_VALUE {
            EncoderSection::RepeatedValue(x.value)
        } else {
            EncoderSection::SecondMidiId(x.second_midi_id)
        };
        if id == ENCODER_SECTION_SECOND_MIDI_ID {
            self.done = true;
        } else {
            self.section_id = if id == ENCODER_SECTION_ENABLED {
                ENCODER_SECTION_INVERT_STATE
            } else if id == ENCODER_SECTION_INVERT_STATE {
                ENCODER_SECTION_MESSAGE_TYPE
            } else if id == ENCODER_SECTION_MESSAGE_TYPE {
                ENCODER_SECTION_MIDI_ID_LSB
            } else if id == ENCODER_SECTION_MIDI_ID_LSB {
                ENCODER_SECTION_CHANNEL
            } else if id == ENCODER_SECTION_CHANNEL {
                ENCODER_SECTION_PULSES_PER_STEP
            } else if id == ENCODER_SECTION_PULSES_PER_STEP {
                ENCODER_SECTION_ACCELLERATION
            } else if id == ENCODER_SECTION_ACCELLERATION {
                ENCODER_SECTION_REMOTE_SYNC
            } else if id == ENCODER_SECTION_REMOTE_SYNC {
                ENCODER_SECTION_LOWER_LIMIT
            } else if id == ENCODER_SECTION_LOWER_LIMIT {
                ENCODER_SECTION_UPPER_LIMIT
            } else if id == ENCODER_SECTION_UPPER_LIMIT {
                ENCODER_SECTION_REPEATED_VALUE
            } else if id == ENCODER_SECTION_REPEATED_VALUE {
                ENCODER_SECTION_SECOND_MIDI_ID
            } else {
                id
            };
        }
        proof {
            assert(self.remaining(*x) =~= old(self).remaining(*x).drop_first());
        }
        Some(restore_response(Block::Encoder(self.index, section)))
    }
}

} // verus!
