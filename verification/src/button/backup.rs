//! The responses that restore a button in a backup.
use vstd::prelude::*;
use crate::button::{Button, ButtonSection, BUTTON_SECTION_CHANNEL, BUTTON_SECTION_MESSAGE_TYPE, BUTTON_SECTION_MIDI_ID, BUTTON_SECTION_TYPE, BUTTON_SECTION_VALUE};
use crate::{is_restore_response, restore_response, Block, OpenDeckResponse};

verus! {

/// The section of `x` with identifier `id`, as a backup sends it.
pub open spec fn spec_button_backup_section(x: Button, id: u8) -> ButtonSection {
    if id == BUTTON_SECTION_TYPE {
        ButtonSection::Type(x.button_type)
    } else if id == BUTTON_SECTION_MESSAGE_TYPE {
        ButtonSection::MessageType(x.message_type)
    } else if id == BUTTON_SECTION_MIDI_ID {
        ButtonSection::MidiId(x.midi_id)
    } else if id == BUTTON_SECTION_VALUE {
        ButtonSection::Value(x.value)
    } else {
        ButtonSection::Channel(x.channel)
    }
}

/// The section identifiers a backup walks through, in order.
pub open spec fn spec_button_backup_ids() -> Seq<u8> {
    seq![BUTTON_SECTION_TYPE, BUTTON_SECTION_MESSAGE_TYPE, BUTTON_SECTION_MIDI_ID, BUTTON_SECTION_VALUE, BUTTON_SECTION_CHANNEL]
}

/// The place of section `id` in the walk.
pub open spec fn spec_button_backup_pos(id: u8) -> int {
    if id == BUTTON_SECTION_TYPE {
        0
    } else if id == BUTTON_SECTION_MESSAGE_TYPE {
        1
    } else if id == BUTTON_SECTION_MIDI_ID {
        2
    } else if id == BUTTON_SECTION_VALUE {
        3
    } else {
        4
    }
}

/// The section a backup sends after the one with identifier `id`.
pub open spec fn spec_button_backup_next_id(id: u8) -> u8 {
    if id == BUTTON_SECTION_TYPE {
        BUTTON_SECTION_MESSAGE_TYPE
    } else if id == BUTTON_SECTION_MESSAGE_TYPE {
        BUTTON_SECTION_MIDI_ID
    } else if id == BUTTON_SECTION_MIDI_ID {
        BUTTON_SECTION_VALUE
    } else if id == BUTTON_SECTION_VALUE {
        BUTTON_SECTION_CHANNEL
    } else {
        id
    }
}

/// The identifiers a backup walks through.
pub open spec fn is_button_backup_id(id: u8) -> bool {
    id == BUTTON_SECTION_TYPE || id == BUTTON_SECTION_MESSAGE_TYPE || id == BUTTON_SECTION_MIDI_ID || id == BUTTON_SECTION_VALUE || id == BUTTON_SECTION_CHANNEL
}

/// The blocks that restore `x` as component `index`, in the order a backup sends them.
pub open spec fn spec_button_backup_blocks(x: Button, index: u16) -> Seq<Block> {
    Seq::new(5nat, |k: int| Block::Button(index, spec_button_backup_section(x, spec_button_backup_ids()[k])))
}

/// Walks the sections of one button: type, message type, MIDI id, value, channel.
#[derive(Debug, Copy, Clone, PartialEq, Eq, Structural)]
pub struct ButtonBackupIterator {
    pub button_index: u16,
    /// The section sent next.
    pub button_section_id: u8,
    pub done: bool,
}

impl ButtonBackupIterator {
    pub open spec fn wf(self) -> bool {
        is_button_backup_id(self.button_section_id)
    }

    /// The blocks still to be sent for `x`.
    pub open spec fn remaining(self, x: Button) -> Seq<Block> {
        if self.done { Seq::<Block>::empty() } else { spec_button_backup_blocks(x, self.button_index).skip(spec_button_backup_pos(self.button_section_id)) }
    }

    pub fn new(button_index: usize) -> (r: Self)
        ensures
            r == (ButtonBackupIterator { button_index: button_index as u16, button_section_id: BUTTON_SECTION_TYPE, done: false }),
            r.wf(),
            forall|x: Button| #[trigger] r.remaining(x) == spec_button_backup_blocks(x, button_index as u16),
    {
        let r = ButtonBackupIterator { button_index: button_index as u16, button_section_id: BUTTON_SECTION_TYPE, done: false };
        proof {
            assert forall|x: Button| #[trigger] r.remaining(x) == spec_button_backup_blocks(x, button_index as u16) by {
                assert(r.remaining(x) =~= spec_button_backup_blocks(x, button_index as u16));
            }
        }
        r
    }

    /// The response that restores the next section of `x`; `None` once the
    /// last section has been sent.
    pub fn next(&mut self, x: &Button) -> (r: Option<OpenDeckResponse>)
        requires old(self).wf(),
        ensures
            final(self).wf(),
            final(self).button_index == old(self).button_index,
            old(self).done ==> r is None && *final(self) == *old(self),
            !old(self).done ==> {
                &&& is_restore_response(r, Block::Button(old(self).button_index, spec_button_backup_section(*x, old(self).button_section_id)))
                &&& old(self).button_section_id == BUTTON_SECTION_CHANNEL ==> final(self).done && final(self).button_section_id == old(self).button_section_id
                &&& old(self).button_section_id != BUTTON_SECTION_CHANNEL ==> !final(self).done && final(self).button_section_id == spec_button_backup_next_id(old(self).button_section_id)
            },
            old(self).remaining(*x).len() == 0 ==> r is None,
            old(self).remaining(*x).len() > 0 ==> is_restore_response(r, old(self).remaining(*x)[0])
                && final(self).remaining(*x) == old(self).remaining(*x).drop_first(),
    {
        if self.done {
            return None;
        }
        let id = self.button_section_id;
        let section = if id == BUTTON_SECTION_TYPE {
            ButtonSection::Type(x.button_type)
        } else if id == BUTTON_SECTION_MESSAGE_TYPE {
            ButtonSection::MessageType(x.message_type)
        } else if id == BUTTON_SECTION_MIDI_ID {
            ButtonSection::MidiId(x.midi_id)
        } else if id == BUTTON_SECTION_VALUE {
            ButtonSection::Value(x.value)
        } else {
            ButtonSection::Channel(x.channel)
        };
        if id == BUTTON_SECTION_CHANNEL {
            self.done = true;
        } else {
            self.button_section_id = if id == BUTTON_SECTION_TYPE {
                BUTTON_SECTION_MESSAGE_TYPE
            } else if id == BUTTON_SECTION_MESSAGE_TYPE {
                BUTTON_SECTION_MIDI_ID
            } else if id == BUTTON_SECTION_MIDI_ID {
                BUTTON_SECTION_VALUE
            } else if id == BUTTON_SECTION_VALUE {
                BUTTON_SECTION_CHANNEL
            } else {
                id
            };
        }
        proof {
            assert(self.remaining(*x) =~= old(self).remaining(*x).drop_first());
        }
        Some(restore_response(Block::Button(self.button_index, section)))
    }
}

} // verus!
