//! The responses that restore an output in a backup.
use vstd::prelude::*;
use crate::led::{Led, LedSection, LED_SECTION_ACTIVATION_ID, LED_SECTION_ACTIVATION_VALUE, LED_SECTION_BLINK_TESTING, LED_SECTION_CHANNEL, LED_SECTION_CONTROL_TYPE, LED_SECTION_RGB_ENABLED, LED_SECTION_STATE};
use crate::{is_restore_response, restore_response, Block, OpenDeckResponse};

verus! {

/// The section of `x` with identifier `id`, as a backup sends it.
pub open spec fn spec_led_backup_section(x: Led, id: u8) -> LedSection {
    if id == LED_SECTION_STATE {
        LedSection::State(x.state)
    } else if id == LED_SECTION_BLINK_TESTING {
        LedSection::BlinkTesting(x.blink_testing)
    } else if id == LED_SECTION_ACTIVATION_ID {
        LedSection::ActivationId(x.activation_id)
    } else if id == LED_SECTION_RGB_ENABLED {
        LedSection::RGBEnabled(x.rgb_enabled)
    } else if id == LED_SECTION_CONTROL_TYPE {
        LedSection::ControlType(x.control_type)
    } else if id == LED_SECTION_ACTIVATION_VALUE {
        LedSection::ActivationValue(x.activation_value)
    } else {
        LedSection::Channel(x.channel)
    }
}

/// The section identifiers a backup walks through, in order.
pub open spec fn spec_led_backup_ids() -> Seq<u8> {
    seq![LED_SECTION_STATE, LED_SECTION_BLINK_TESTING, LED_SECTION_ACTIVATION_ID, LED_SECTION_RGB_ENABLED, LED_SECTION_CONTROL_TYPE, LED_SECTION_ACTIVATION_VALUE, LED_SECTION_CHANNEL]
}

/// The place of section `id` in the walk.
pub open spec fn spec_led_backup_pos(id: u8) -> int {
    if id == LED_SECTION_STATE {
        0
    } else if id == LED_SECTION_BLINK_TESTING {
        1
    } else if id == LED_SECTION_ACTIVATION_ID {
        2
    } else if id == LED_SECTION_RGB_ENABLED {
        3
    } else if id == LED_SECTION_CONTROL_TYPE {
        4
    } else if id == LED_SECTION_ACTIVATION_VALUE {
        5
    } else {
        6
    }
}

/// The section a backup sends after the one with identifier `id`.
pub open spec fn spec_led_backup_next_id(id: u8) -> u8 {
    if id == LED_SECTION_STATE {
        LED_SECTION_BLINK_TESTING
    } else if id == LED_SECTION_BLINK_TESTING {
        LED_SECTION_ACTIVATION_ID
    } else if id == LED_SECTION_ACTIVATION_ID {
        LED_SECTION_RGB_ENABLED
    } else if id == LED_SECTION_RGB_ENABLED {
        LED_SECTION_CONTROL_TYPE
    } else if id == LED_SECTION_CONTROL_TYPE {
        LED_SECTION_ACTIVATION_VALUE
    } else if id == LED_SECTION_ACTIVATION_VALUE {
        LED_SECTION_CHANNEL
    } else {
        id
    }
}

/// The identifiers a backup walks through.
pub open spec fn is_led_backup_id(id: u8) -> bool {
    id == LED_SECTION_STATE || id == LED_SECTION_BLINK_TESTING || id == LED_SECTION_ACTIVATION_ID || id == LED_SECTION_RGB_ENABLED || id == LED_SECTION_CONTROL_TYPE || id == LED_SECTION_ACTIVATION_VALUE || id == LED_SECTION_CHANNEL
}

/// The blocks that restore `x` as component `index`, in the order a backup sends them.
pub open spec fn spec_led_backup_blocks(x: Led, index: u16) -> Seq<Block> {
    Seq::new(7nat, |k: int| Block::Led(index, spec_led_backup_section(x, spec_led_backup_ids()[k])))
}

/// Walks the sections of one output: state, blink testing, activation id, RGB enabled, control type, activation value, channel.
#[derive(Debug, Copy, Clone, PartialEq, Eq, Structural)]
pub struct LedBackupIterator {
    pub index: u16,
    /// The section sent next.
    pub section_id: u8,
    pub done: bool,
}

impl LedBackupIterator {
    pub open spec fn wf(self) -> bool {
        is_led_backup_id(self.section_id)
    }

    /// The blocks still to be sent for `x`.
    pub open spec fn remaining(self, x: Led) -> Seq<Block> {
        if self.done { Seq::<Block>::empty() } else { spec_led_backup_blocks(x, self.index).skip(spec_led_backup_pos(self.section_id)) }
    }

    pub fn new(index: usize) -> (r: Self)
        ensures
            r == (LedBackupIterator { index: index as u16, section_id: LED_SECTION_STATE, done: false }),
            r.wf(),
            forall|x: Led| #[trigger] r.remaining(x) == spec_led_backup_blocks(x, index as u16),
    {
        let r = LedBackupIterator { index: index as u16, section_id: LED_SECTION_STATE, done: false };
        proof {
            assert forall|x: Led| #[trigger] r.remaining(x) == spec_led_backup_blocks(x, index as u16) by {
                assert(r.remaining(x) =~= spec_led_backup_blocks(x, index as u16));
            }
        }
        r
    }

    /// The response that restores the next section of `x`; `None` once the
    /// last section has been sent.
    pub fn next(&mut self, x: &Led) -> (r: Option<OpenDeckResponse>)
        requires old(self).wf(),
        ensures
            final(self).wf(),
            final(self).index == old(self).index,
            old(self).done ==> r is None && *final(self) == *old(self),
            !old(self).done ==> {
                &&& is_restore_response(r, Block::Led(old(self).index, spec_led_backup_section(*x, old(self).section_id)))
                &&& old(self).section_id == LED_SECTION_CHANNEL ==> final(self).done && final(self).section_id == old(self).section_id
                &&& old(self).section_id != LED_SECTION_CHANNEL ==> !final(self).done && final(self).section_id == spec_led_backup_next_id(old(self).section_id)
            },
            old(self).remaining(*x).len() == 0 ==> r is None,
            old(self).remaining(*x).len() > 0 ==> is_restore_response(r, old(self).remaining(*x)[0])
                && final(self).remaining(*x) == old(self).remaining(*x).drop_first(),
    {
        if self.done {
            return None;
        }
        let id = self.section_id;
        let section = if id == LED_SECTION_STATE {
            LedSection::State(x.state)
        } else if id == LED_SECTION_BLINK_TESTING {
            LedSection::BlinkTesting(x.blink_testing)
        } else if id == LED_SECTION_ACTIVATION_ID {
            LedSection::ActivationId(x.activation_id)
        } else if id == LED_SECTION_RGB_ENABLED {
            LedSection::RGBEnabled(x.rgb_enabled)
        } else if id == LED_SECTION_CONTROL_TYPE {
            LedSection::ControlType(x.control_type)
        } else if id == LED_SECTION_ACTIVATION_VALUE {
            LedSection::ActivationValue(x.activation_value)
        } else {
            LedSection::Channel(x.channel)
        };
        if id == LED_SECTION_CHANNEL {
            self.done = true;
        } else {
            self.section_id = if id == LED_SECTION_STATE {
                LED_SECTION_BLINK_TESTING
            } else if id == LED_SECTION_BLINK_TESTING {
                LED_SECTION_ACTIVATION_ID
            } else if id == LED_SECTION_ACTIVATION_ID {
                LED_SECTION_RGB_ENABLED
            } else if id == LED_SECTION_RGB_ENABLED {
                LED_SECTION_CONTROL_TYPE
            } else if id == LED_SECTION_CONTROL_TYPE {
                LED_SECTION_ACTIVATION_VALUE
            } else if id == LED_SECTION_ACTIVATION_VALUE {
                LED_SECTION_CHANNEL
            } else {
                id
            };
        }
        proof {
            assert(self.remaining(*x) =~= old(self).remaining(*x).drop_first());
        }
        Some(restore_response(Block::Led(self.index, section)))
    }
}

} // verus!
