//! The responses that restore the preset settings in a backup.
use vstd::prelude::*;
use crate::global::{spec_flag, flag, GlobalPreset, GlobalSection, PresetIndex};
use crate::{is_restore_response, restore_response, Block, OpenDeckResponse};

verus! {

/// The value a backup sends for a preset setting. The last setting is sent
/// with the value of the force value refresh flag.
pub open spec fn spec_preset_backup_value(p: GlobalPreset, index: PresetIndex) -> u16 {
    match index {
        PresetIndex::Active => p.current as u16,
        PresetIndex::Preservation => spec_flag(p.preserve_preset),
        PresetIndex::ForceValueRefresh => spec_flag(p.force_value_refresh),
        PresetIndex::EnableMidiChange => spec_flag(p.force_value_refresh),
    }
}

/// Walks the preset settings: active preset, preservation, force value
/// refresh, MIDI change.
#[derive(Debug, Copy, Clone, PartialEq, Eq, Structural)]
pub struct GlobalPresetBackupIterator {
    /// The setting sent next.
    pub preset_index: PresetIndex,
    pub done: bool,
}

impl GlobalPresetBackupIterator {
    pub fn new() -> (r: Self)
        ensures r == (GlobalPresetBackupIterator { preset_index: PresetIndex::Active, done: false }),
    {
        GlobalPresetBackupIterator { preset_index: PresetIndex::Active, done: false }
    }

    /// The response that restores the next preset setting; `None` after the last.
    pub fn next(&mut self, global_preset: &GlobalPreset) -> (r: Option<OpenDeckResponse>)
        ensures
            old(self).done ==> r is None && *final(self) == *old(self),
            !old(self).done ==> {
                let key = old(self).preset_index;
                &&& is_restore_response(r, Block::Global(GlobalSection::Presets(key, spec_preset_backup_value(*global_preset, key))))
                &&& key == PresetIndex::EnableMidiChange ==> final(self).done && final(self).preset_index == key
                &&& key != PresetIndex::EnableMidiChange ==> !final(self).done && final(self).preset_index == PresetIndex::spec_from_code((key.spec_code() + 1) as u16).unwrap()
            },
    {
        if self.done {
            return None;
        }
        let key = self.preset_index;
        let value = match self.preset_index {
            PresetIndex::Active => {
                self.preset_index = PresetIndex::Preservation;
                global_preset.current as u16
            },
            PresetIndex::Preservation => {
                self.preset_index = PresetIndex::ForceValueRefresh;
                flag(global_preset.preserve_preset)
            },
            PresetIndex::ForceValueRefresh => {
                self.preset_index = PresetIndex::EnableMidiChange;
                flag(global_preset.force_value_refresh)
            },
            PresetIndex::EnableMidiChange => {
                self.done = true;
                flag(global_preset.force_value_refresh)
            },
        };
        Some(restore_response(Block::Global(GlobalSection::Presets(key, value))))
    }
}

impl Default for GlobalPresetBackupIterator {
    fn default() -> (r: Self)
        ensures r == (GlobalPresetBackupIterator { preset_index: PresetIndex::Active, done: false }),
    {
        Self::new()
    }
}

} // verus!
