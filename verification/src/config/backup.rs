//! The backup of a configuration: every setting of every preset, as the
//! set requests that restore it.
use vstd::prelude::*;
use crate::analog::backup::{spec_analog_backup_blocks, AnalogBackupIterator};
use crate::button::backup::{spec_button_backup_blocks, ButtonBackupIterator};
use crate::config::{Config, Preset, PresetView, SystemHandler};
use crate::encoder::backup::{spec_encoder_backup_blocks, EncoderBackupIterator};
use crate::global::{GlobalSection, PresetIndex};
use crate::led::backup::{spec_led_backup_blocks, LedBackupIterator};
use crate::{is_restore_response, restore_response, Block, OpenDeckResponse, SpecialResponse};

verus! {

/// Dropping the first of a concatenation drops the first of its nonempty head.
pub proof fn lemma_drop_first_concat<T>(a: Seq<T>, b: Seq<T>)
    requires a.len() > 0,
    ensures (a + b).drop_first() == a.drop_first() + b,
{
    assert((a + b).drop_first() =~= a.drop_first() + b);
}

/// The blocks that restore the buttons of `p` from index `from` on.
pub open spec fn spec_flat_buttons(p: PresetView, from: int) -> Seq<Block>
    decreases p.buttons.len() - from,
{
    if from < 0 || from >= p.buttons.len() {
        Seq::<Block>::empty()
    } else {
        spec_button_backup_blocks(p.buttons[from], from as u16) + spec_flat_buttons(p, from + 1)
    }
}

/// The blocks that restore the encoders of `p` from index `from` on.
pub open spec fn spec_flat_encoders(p: PresetView, from: int) -> Seq<Block>
    decreases p.encoders.len() - from,
{
    if from < 0 || from >= p.encoders.len() {
        Seq::<Block>::empty()
    } else {
        spec_encoder_backup_blocks(p.encoders[from], from as u16) + spec_flat_encoders(p, from + 1)
    }
}

/// The blocks that restore the analogs of `p` from index `from` on.
pub open spec fn spec_flat_analogs(p: PresetView, from: int) -> Seq<Block>
    decreases p.analogs.len() - from,
{
    if from < 0 || from >= p.analogs.len() {
        Seq::<Block>::empty()
    } else {
        spec_analog_backup_blocks(p.analogs[from], from as u16) + spec_flat_analogs(p, from + 1)
    }
}

/// The blocks that restore the leds of `p` from index `from` on.
pub open spec fn spec_flat_leds(p: PresetView, from: int) -> Seq<Block>
    decreases p.leds.len() - from,
{
    if from < 0 || from >= p.leds.len() {
        Seq::<Block>::empty()
    } else {
        spec_led_backup_blocks(p.leds[from], from as u16) + spec_flat_leds(p, from + 1)
    }
}

/// The blocks that restore a preset, in the order a backup sends them:
/// buttons, encoders, analog inputs, outputs.
pub open spec fn spec_preset_backup_blocks(p: PresetView) -> Seq<Block> {
    spec_flat_buttons(p, 0) + spec_flat_encoders(p, 0) + spec_flat_analogs(p, 0) + spec_flat_leds(p, 0)
}

/// Walks the components of one preset.
pub struct PresetBackupIterator<const B: usize, const A: usize, const E: usize, const L: usize> {
    pub button_index: usize,
    pub button_iter: ButtonBackupIterator,
    pub encoder_index: usize,
    pub encoder_iter: EncoderBackupIterator,
    pub analog_index: usize,
    pub analog_iter: AnalogBackupIterator,
    pub led_index: usize,
    pub led_iter: LedBackupIterator,
}

impl<const B: usize, const A: usize, const E: usize, const L: usize> PresetBackupIterator<B, A, E, L> {
    /// The blocks still to be sent for the buttons of `p`.
    pub open spec fn remaining_buttons(self, p: PresetView) -> Seq<Block> {
        if self.button_index < B {
            self.button_iter.remaining(p.buttons[self.button_index as int]) + spec_flat_buttons(p, self.button_index + 1)
        } else {
            Seq::<Block>::empty()
        }
    }

    /// The blocks still to be sent for the encoders of `p`.
    pub open spec fn remaining_encoders(self, p: PresetView) -> Seq<Block> {
        if self.encoder_index < E {
            self.encoder_iter.remaining(p.encoders[self.encoder_index as int]) + spec_flat_encoders(p, self.encoder_index + 1)
        } else {
            Seq::<Block>::empty()
        }
    }

    /// The blocks still to be sent for the analogs of `p`.
    pub open spec fn remaining_analogs(self, p: PresetView) -> Seq<Block> {
        if self.analog_index < A {
            self.analog_iter.remaining(p.analogs[self.analog_index as int]) + spec_flat_analogs(p, self.analog_index + 1)
        } else {
            Seq::<Block>::empty()
        }
    }

    /// The blocks still to be sent for the leds of `p`.
    pub open spec fn remaining_leds(self, p: PresetView) -> Seq<Block> {
        if self.led_index < L {
            self.led_iter.remaining(p.leds[self.led_index as int]) + spec_flat_leds(p, self.led_index + 1)
        } else {
            Seq::<Block>::empty()
        }
    }

    /// The blocks still to be sent for `p`.
    pub open spec fn remaining(self, p: PresetView) -> Seq<Block> {
        self.remaining_buttons(p) + self.remaining_encoders(p) + self.remaining_analogs(p) + self.remaining_leds(p)
    }

    pub open spec fn wf(self) -> bool {
        &&& self.button_index <= B
        &&& self.button_index < B ==> self.button_iter.wf() && self.button_iter.button_index == self.button_index as u16
        &&& self.encoder_index <= E
        &&& self.encoder_index < E ==> self.encoder_iter.wf() && self.encoder_iter.index == self.encoder_index as u16
        &&& self.analog_index <= A
        &&& self.analog_index < A ==> self.analog_iter.wf() && self.analog_iter.index == self.analog_index as u16
        &&& self.led_index <= L
        &&& self.led_index < L ==> self.led_iter.wf() && self.led_iter.index == self.led_index as u16
    }

    pub fn new() -> (r: Self)
        ensures
            r.wf(),
            forall|p: PresetView| p.buttons.len() == B && p.encoders.len() == E && p.analogs.len() == A && p.leds.len() == L
                ==> #[trigger] r.remaining(p) == spec_preset_backup_blocks(p),
    {
        let r = PresetBackupIterator {
            button_index: 0,
            button_iter: ButtonBackupIterator::new(0),
            encoder_index: 0,
            encoder_iter: EncoderBackupIterator::new(0),
            analog_index: 0,
            analog_iter: AnalogBackupIterator::new(0),
            led_index: 0,
            led_iter: LedBackupIterator::new(0),
        };
        proof {
            assert forall|p: PresetView| p.buttons.len() == B && p.encoders.len() == E && p.analogs.len() == A && p.leds.len() == L
                implies #[trigger] r.remaining(p) == spec_preset_backup_blocks(p) by {
                assert(r.remaining_buttons(p) == spec_flat_buttons(p, 0));
                assert(r.remaining_encoders(p) == spec_flat_encoders(p, 0));
                assert(r.remaining_analogs(p) == spec_flat_analogs(p, 0));
                assert(r.remaining_leds(p) == spec_flat_leds(p, 0));
            }
        }
        r
    }

    /// The next response for the buttons, if any is left.
    fn next_buttons(&mut self, preset: &Preset<B, A, E, L>) -> (r: Option<OpenDeckResponse>)
        requires old(self).wf(), preset.wf(),
        ensures
            final(self).wf(),
            final(self).encoder_index == old(self).encoder_index && final(self).encoder_iter == old(self).encoder_iter && final(self).analog_index == old(self).analog_index && final(self).analog_iter == old(self).analog_iter && final(self).led_index == old(self).led_index && final(self).led_iter == old(self).led_iter,
            old(self).remaining_buttons(preset@).len() == 0 ==> r is None && final(self).remaining_buttons(preset@).len() == 0,
            old(self).remaining_buttons(preset@).len() > 0 ==> is_restore_response(r, old(self).remaining_buttons(preset@)[0])
                && final(self).remaining_buttons(preset@) == old(self).remaining_buttons(preset@).drop_first(),
    {
        let ghost p = preset@;
        if self.button_index < B {
            let ghost before = self.button_iter.remaining(p.buttons[self.button_index as int]);
            let res = self.button_iter.next(&preset.buttons[self.button_index]);
            if res.is_some() {
                proof { lemma_drop_first_concat(before, spec_flat_buttons(p, self.button_index + 1)); }
                return res;
            }
            self.button_index += 1;
            if self.button_index < B {
                self.button_iter = ButtonBackupIterator::new(self.button_index);
                let ghost fresh = self.button_iter.remaining(p.buttons[self.button_index as int]);
                let r = self.button_iter.next(&preset.buttons[self.button_index]);
                proof {
                    assert(spec_flat_buttons(p, old(self).button_index + 1) == fresh + spec_flat_buttons(p, self.button_index + 1));
                    lemma_drop_first_concat(fresh, spec_flat_buttons(p, self.button_index + 1));
                }
                return r;
            }
        }
        None
    }

    /// The next response for the encoders, if any is left.
    fn next_encoders(&mut self, preset: &Preset<B, A, E, L>) -> (r: Option<OpenDeckResponse>)
        requires old(self).wf(), preset.wf(),
        ensures
            final(self).wf(),
            final(self).button_index == old(self).button_index && final(self).button_iter == old(self).button_iter && final(self).analog_index == old(self).analog_index && final(self).analog_iter == old(self).analog_iter && final(self).led_index == old(self).led_index && final(self).led_iter == old(self).led_iter,
            old(self).remaining_encoders(preset@).len() == 0 ==> r is None && final(self).remaining_encoders(preset@).len() == 0,
            old(self).remaining_encoders(preset@).len() > 0 ==> is_restore_response(r, old(self).remaining_encoders(preset@)[0])
                && final(self).remaining_encoders(preset@) == old(self).remaining_encoders(preset@).drop_first(),
    {
        let ghost p = preset@;
        if self.encoder_index < E {
            let ghost before = self.encoder_iter.remaining(p.encoders[self.encoder_index as int]);
            let res = self.encoder_iter.next(&preset.encoders[self.encoder_index]);
            if res.is_some() {
                proof { lemma_drop_first_concat(before, spec_flat_encoders(p, self.encoder_index + 1)); }
                return res;
            }
            self.encoder_index += 1;
            if self.encoder_index < E {
                self.encoder_iter = EncoderBackupIterator::new(self.encoder_index);
                let ghost fresh = self.encoder_iter.remaining(p.encoders[self.encoder_index as int]);
                let r = self.encoder_iter.next(&preset.encoders[self.encoder_index]);
                proof {
                    assert(spec_flat_encoders(p, old(self).encoder_index + 1) == fresh + spec_flat_encoders(p, self.encoder_index + 1));
                    lemma_drop_first_concat(fresh, spec_flat_encoders(p, self.encoder_index + 1));
                }
                return r;
            }
        }
        None
    }

    /// The next response for the analogs, if any is left.
    fn next_analogs(&mut self, preset: &Preset<B, A, E, L>) -> (r: Option<OpenDeckResponse>)
        requires old(self).wf(), preset.wf(),
        ensures
            final(self).wf(),
            final(self).button_index == old(self).button_index && final(self).button_iter == old(self).button_iter && final(self).encoder_index == old(self).encoder_index && final(self).encoder_iter == old(self).encoder_iter && final(self).led_index == old(self).led_index && final(self).led_iter == old(self).led_iter,
            old(self).remaining_analogs(preset@).len() == 0 ==> r is None && final(self).remaining_analogs(preset@).len() == 0,
            old(self).remaining_analogs(preset@).len() > 0 ==> is_restore_response(r, old(self).remaining_analogs(preset@)[0])
                && final(self).remaining_analogs(preset@) == old(self).remaining_analogs(preset@).drop_first(),
    {
        let ghost p = preset@;
        if self.analog_index < A {
            let ghost before = self.analog_iter.remaining(p.analogs[self.analog_index as int]);
            let res = self.analog_iter.next(&preset.analogs[self.analog_index]);
            if res.is_some() {
                proof { lemma_drop_first_concat(before, spec_flat_analogs(p, self.analog_index + 1)); }
                return res;
            }
            self.analog_index += 1;
            if self.analog_index < A {
                self.analog_iter = AnalogBackupIterator::new(self.analog_index);
                let ghost fresh = self.analog_iter.remaining(p.analogs[self.analog_index as int]);
                let r = self.analog_iter.next(&preset.analogs[self.analog_index]);
                proof {
                    assert(spec_flat_analogs(p, old(self).analog_index + 1) == fresh + spec_flat_analogs(p, self.analog_index + 1));
                    lemma_drop_first_concat(fresh, spec_flat_analogs(p, self.analog_index + 1));
                }
                return r;
            }
        }
        None
    }

    /// The next response for the leds, if any is left.
    fn next_leds(&mut self, preset: &Preset<B, A, E, L>) -> (r: Option<OpenDeckResponse>)
        requires old(self).wf(), preset.wf(),
        ensures
            final(self).wf(),
            final(self).button_index == old(self).button_index && final(self).button_iter == old(self).button_iter && final(self).encoder_index == old(self).encoder_index && final(self).encoder_iter == old(self).encoder_iter && final(self).analog_index == old(self).analog_index && final(self).analog_iter == old(self).analog_iter,
            old(self).remaining_leds(preset@).len() == 0 ==> r is None && final(self).remaining_leds(preset@).len() == 0,
            old(self).remaining_leds(preset@).len() > 0 ==> is_restore_response(r, old(self).remaining_leds(preset@)[0])
                && final(self).remaining_leds(preset@) == old(self).remaining_leds(preset@).drop_first(),
    {
        let ghost p = preset@;
        if self.led_index < L {
            let ghost before = self.led_iter.remaining(p.leds[self.led_index as int]);
            let res = self.led_iter.next(&preset.leds[self.led_index]);
            if res.is_some() {
                proof { lemma_drop_first_concat(before, spec_flat_leds(p, self.led_index + 1)); }
                return res;
            }
            self.led_index += 1;
            if self.led_index < L {
                self.led_iter = LedBackupIterator::new(self.led_index);
                let ghost fresh = self.led_iter.remaining(p.leds[self.led_index as int]);
                let r = self.led_iter.next(&preset.leds[self.led_index]);
                proof {
                    assert(spec_flat_leds(p, old(self).led_index + 1) == fresh + spec_flat_leds(p, self.led_index + 1));
                    lemma_drop_first_concat(fresh, spec_flat_leds(p, self.led_index + 1));
                }
                return r;
            }
        }
        None
    }

    /// The response that restores the next setting of `preset`; `None` once
    /// every component has been sent.
    pub fn next(&mut self, preset: &Preset<B, A, E, L>) -> (r: Option<OpenDeckResponse>)
        requires old(self).wf(), preset.wf(),
        ensures
            final(self).wf(),
            old(self).remaining(preset@).len() == 0 ==> r is None,
            old(self).remaining(preset@).len() > 0 ==> is_restore_response(r, old(self).remaining(preset@)[0])
                && final(self).remaining(preset@) == old(self).remaining(preset@).drop_first(),
    {
        let ghost p = preset@;
        let ghost o = *old(self);
        let r = self.next_buttons(preset);
        if r.is_some() {
            proof { lemma_drop_first_concat(o.remaining_buttons(p), o.remaining_encoders(p) + o.remaining_analogs(p) + o.remaining_leds(p)); }
            proof { assert(o.remaining(p) =~= o.remaining_buttons(p) + (o.remaining_encoders(p) + o.remaining_analogs(p) + o.remaining_leds(p))); }
            proof { assert(self.remaining(p) =~= self.remaining_buttons(p) + (self.remaining_encoders(p) + self.remaining_analogs(p) + self.remaining_leds(p))); }
            return r;
        }
        let ghost o1 = *self;
        let r = self.next_encoders(preset);
        if r.is_some() {
            proof {
                lemma_drop_first_concat(o1.remaining_encoders(p), o1.remaining_analogs(p) + o1.remaining_leds(p));
                assert(o.remaining(p) =~= o1.remaining_encoders(p) + (o1.remaining_analogs(p) + o1.remaining_leds(p)));
                assert(self.remaining(p) =~= self.remaining_encoders(p) + (self.remaining_analogs(p) + self.remaining_leds(p)));
            }
            return r;
        }
        let ghost o2 = *self;
        let r = self.next_analogs(preset);
        if r.is_some() {
            proof {
                lemma_drop_first_concat(o2.remaining_analogs(p), o2.remaining_leds(p));
                assert(o.remaining(p) =~= o2.remaining_analogs(p) + o2.remaining_leds(p));
                assert(self.remaining(p) =~= self.remaining_analogs(p) + self.remaining_leds(p));
            }
            return r;
        }
        let ghost o3 = *self;
        let r = self.next_leds(preset);
        proof {
            assert(o.remaining(p) =~= o3.remaining_leds(p));
            assert(self.remaining(p) =~= self.remaining_leds(p));
        }
        r
    }
}

/// One step of a backup: the marker that opens and closes it, or the set
/// request that restores a block.
#[derive(Debug, Copy, Clone, PartialEq, Eq, Structural)]
pub enum BackupStep {
    Marker,
    Restore(Block),
}

/// `r` is the response of backup step `step`.
pub open spec fn is_step_response(r: Option<OpenDeckResponse>, step: BackupStep) -> bool {
    match step {
        BackupStep::Marker => r == Some(OpenDeckResponse::Special(SpecialResponse::Backup)),
        BackupStep::Restore(b) => is_restore_response(r, b),
    }
}

/// The step that makes preset `q` the active one.
pub open spec fn spec_select_preset(q: int) -> BackupStep {
    BackupStep::Restore(Block::Global(GlobalSection::Presets(PresetIndex::Active, q as u16)))
}

pub open spec fn spec_restore_steps(blocks: Seq<Block>) -> Seq<BackupStep> {
    blocks.map_values(|b: Block| BackupStep::Restore(b))
}

/// The steps that restore the presets from `from` on: each is selected, then
/// its components are restored.
pub open spec fn spec_flat_presets(presets: Seq<PresetView>, from: int) -> Seq<BackupStep>
    decreases presets.len() - from,
{
    if from < 0 || from >= presets.len() {
        Seq::<BackupStep>::empty()
    } else {
        seq![spec_select_preset(from)] + spec_restore_steps(spec_preset_backup_blocks(presets[from])) + spec_flat_presets(presets, from + 1)
    }
}

/// A whole backup: a marker, every preset, and a closing marker.
pub open spec fn spec_config_backup(presets: Seq<PresetView>) -> Seq<BackupStep> {
    seq![BackupStep::Marker] + spec_flat_presets(presets, 0) + seq![BackupStep::Marker]
}

#[derive(Debug, Copy, Clone, PartialEq, Eq, Structural)]
pub enum BackupStatus {
    Init,
    PresetChange,
    Running,
    Done,
}

/// Walks a whole backup of a configuration.
pub struct ConfigBackupIterator<const P: usize, const B: usize, const A: usize, const E: usize, const L: usize> {
    pub preset: usize,
    pub presets: PresetBackupIterator<B, A, E, L>,
    pub status: BackupStatus,
}

impl<const P: usize, const B: usize, const A: usize, const E: usize, const L: usize> ConfigBackupIterator<P, B, A, E, L> {
    pub open spec fn wf(self) -> bool {
        &&& self.presets.wf()
        &&& self.status is Init ==> self.preset == 0
        &&& (self.status is PresetChange || self.status is Running) ==> self.preset < P
    }

    /// The steps still to come for a configuration with presets `ps`.
    pub open spec fn remaining(self, ps: Seq<PresetView>) -> Seq<BackupStep> {
        let tail = spec_flat_presets(ps, self.preset + 1) + seq![BackupStep::Marker];
        let current = spec_restore_steps(self.presets.remaining(ps[self.preset as int]));
        match self.status {
            BackupStatus::Init => spec_config_backup(ps),
            BackupStatus::PresetChange => seq![spec_select_preset(self.preset as int)] + current + tail,
            BackupStatus::Running => current + tail,
            BackupStatus::Done => Seq::<BackupStep>::empty(),
        }
    }

    pub fn new() -> (r: Self)
        ensures r.wf(), forall|ps: Seq<PresetView>| #[trigger] r.remaining(ps) == spec_config_backup(ps),
    {
        ConfigBackupIterator { preset: 0, presets: PresetBackupIterator::new(), status: BackupStatus::Init }
    }

    /// The next response of the backup of `config`; `None` once it is over.
    pub fn next<H: SystemHandler>(&mut self, config: &Config<P, B, A, E, L, H>) -> (r: Option<OpenDeckResponse>)
        requires old(self).wf(), config.wf(), P > 0,
        ensures
            final(self).wf(),
            old(self).remaining(config@.presets).len() == 0 ==> r is None && final(self).remaining(config@.presets) == old(self).remaining(config@.presets),
            old(self).remaining(config@.presets).len() > 0 ==> is_step_response(r, old(self).remaining(config@.presets)[0])
                && final(self).remaining(config@.presets) == old(self).remaining(config@.presets).drop_first(),
    {
        let ghost ps = config@.presets;
        match self.status {
            BackupStatus::Init => {
                self.status = BackupStatus::PresetChange;
                self.presets = PresetBackupIterator::new();
                proof {
                    assert(config.presets@[0].wf());
                    assert(ps[0] == config.presets@[0]@);
                    assert(spec_flat_presets(ps, 0) == seq![spec_select_preset(0)] + spec_restore_steps(spec_preset_backup_blocks(ps[0])) + spec_flat_presets(ps, 1));
                    assert(self.remaining(ps) =~= spec_config_backup(ps).drop_first());
                }
                Some(OpenDeckResponse::Special(SpecialResponse::Backup))
            },
            BackupStatus::PresetChange => {
                self.status = BackupStatus::Running;
                proof { assert(self.remaining(ps) =~= old(self).remaining(ps).drop_first()); }
                Some(restore_response(Block::Global(GlobalSection::Presets(PresetIndex::Active, self.preset as u16))))
            },
            BackupStatus::Running => {
                proof { assert(config.presets@[self.preset as int].wf()); }
                let ghost before = self.presets.remaining(ps[self.preset as int]);
                let res = self.presets.next(&config.presets[self.preset]);
                if res.is_none() {
                    self.preset += 1;
                    if self.preset >= P {
                        self.status = BackupStatus::Done;
                        proof {
                            assert(old(self).remaining(ps) =~= seq![BackupStep::Marker]);
                        }
                        return Some(OpenDeckResponse::Special(SpecialResponse::Backup));
                    }
                    self.presets = PresetBackupIterator::new();
                    proof {
                        assert(config.presets@[self.preset as int].wf());
                        assert(ps[self.preset as int] == config.presets@[self.preset as int]@);
                        assert(old(self).remaining(ps) =~= spec_flat_presets(ps, self.preset as int) + seq![BackupStep::Marker]);
                        assert(self.remaining(ps) =~= old(self).remaining(ps).drop_first());
                    }
                    return Some(restore_response(Block::Global(GlobalSection::Presets(PresetIndex::Active, self.preset as u16))));
                }
                proof {
                    assert(spec_restore_steps(before).drop_first() =~= spec_restore_steps(before.drop_first()));
                    assert(self.remaining(ps) =~= old(self).remaining(ps).drop_first());
                }
                res
            },
            BackupStatus::Done => None,
        }
    }
}

impl<const P: usize, const B: usize, const A: usize, const E: usize, const L: usize> Default for ConfigBackupIterator<P, B, A, E, L> {
    fn default() -> (r: Self)
        ensures r.wf(), forall|ps: Seq<PresetView>| #[trigger] r.remaining(ps) == spec_config_backup(ps),
    {
        Self::new()
    }
}

} // verus!
