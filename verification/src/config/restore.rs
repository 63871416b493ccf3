//! What a backup gives back: the blocks of a backup, written one by one with
//! set requests, restore every setting that the backup holds.
use vstd::prelude::*;
use crate::button::{Button, ButtonSection};
use crate::button::backup::{spec_button_backup_blocks, spec_button_backup_ids, spec_button_backup_section};
use crate::encoder::{Encoder, EncoderSection};
use crate::encoder::backup::{spec_encoder_backup_blocks, spec_encoder_backup_ids, spec_encoder_backup_section};
use crate::analog::{Analog, AnalogSection};
use crate::analog::backup::{spec_analog_backup_blocks, spec_analog_backup_ids, spec_analog_backup_section};
use crate::led::{Led, LedSection};
use crate::led::backup::{spec_led_backup_blocks, spec_led_backup_ids, spec_led_backup_section};
use crate::config::{spec_process_config, ConfigView, GlobalConfig, PresetView};
use crate::config::backup::{
    spec_config_backup, spec_flat_analogs, spec_flat_buttons, spec_flat_encoders, spec_flat_leds, spec_flat_presets,
    spec_preset_backup_blocks, spec_restore_steps, spec_select_preset, BackupStep,
};
use crate::global::{GlobalPreset, GlobalSection, PresetIndex};
use crate::{Amount, Block, Wish};

verus! {

/// The configuration after `b` is written by a request that sets a single value.
#[verifier::opaque]
pub open spec fn spec_write(c: ConfigView, b: Block) -> ConfigView {
    spec_process_config(c, Wish::SetValue, Amount::Single, b).0
}

/// The configuration after each of `blocks` is written, in order.
pub open spec fn spec_restore(c: ConfigView, blocks: Seq<Block>) -> ConfigView
    decreases blocks.len(),
{
    if blocks.len() == 0 {
        c
    } else {
        spec_write(spec_restore(c, blocks.drop_last()), blocks.last())
    }
}

/// Writing one more block after a run of blocks.
proof fn lemma_restore_push(c: ConfigView, a: Seq<Block>, b: Block)
    ensures spec_restore(c, a.push(b)) == spec_write(spec_restore(c, a), b),
{
    assert(a.push(b).drop_last() =~= a);
}

/// Writing two runs of blocks is writing the first, then the second.
pub proof fn lemma_restore_concat(c: ConfigView, a: Seq<Block>, b: Seq<Block>)
    ensures spec_restore(c, a + b) == spec_restore(spec_restore(c, a), b),
    decreases b.len(),
{
    if b.len() == 0 {
        assert(a + b =~= a);
    } else {
        lemma_restore_concat(c, a, b.drop_last());
        assert((a + b).drop_last() =~= a + b.drop_last());
    }
}

/// Putting back the active preset as it is changes nothing.
proof fn lemma_with_same_preset(c: ConfigView)
    requires c.has_preset(),
    ensures c.with_preset(c.preset()) == c,
{
    assert(c.presets.update(c.current(), c.preset()) =~= c.presets);
}

/// Replacing button `i` of the active preset twice keeps the second.
proof fn lemma_button_with_twice(c: ConfigView, i: int, x: Button, y: Button)
    requires c.has_preset(), 0 <= i < c.preset().buttons.len(),
    ensures c.with_button(i, x).with_button(i, y) == c.with_button(i, y),
{
    assert(c.with_button(i, x).preset().buttons.update(i, y) =~= c.preset().buttons.update(i, y));
    assert(c.with_button(i, x).with_button(i, y).presets =~= c.with_button(i, y).presets);
}

/// Writing a section of button `i` over a configuration where it is `y`.
proof fn lemma_button_write_step(c: ConfigView, i: int, y: Button, s: ButtonSection)
    requires c.has_preset(), 0 <= i < c.preset().buttons.len(), i < 0x10000, 
    ensures spec_write(c.with_button(i, y), Block::Button(i as u16, s)) == c.with_button(i, y.spec_set(s)),
{
    reveal(spec_write);
    lemma_button_with_twice(c, i, y, y.spec_set(s));
}

/// Button `x` restored over `t`: every setting of `x` that a backup holds, and
/// the state of `t`.
pub open spec fn spec_restored_button(t: Button, x: Button) -> Button {
    Button { state: t.state, ..x }
}

/// The buttons of `t`, those from `from` on restored from `p`.
pub open spec fn spec_restored_buttons_from(t: Seq<Button>, p: Seq<Button>, from: int) -> Seq<Button> {
    Seq::new(t.len(), |j: int| if j < from { t[j] } else { spec_restored_button(t[j], p[j]) })
}

/// `y` with the first `k` sections of the backup of `x` written over it.
pub open spec fn spec_button_partial(y: Button, x: Button, k: nat) -> Button
    decreases k,
{
    if k == 0 {
        y
    } else {
        spec_button_partial(y, x, (k - 1) as nat).spec_set(spec_button_backup_section(x, spec_button_backup_ids()[k - 1]))
    }
}

/// All the sections of a backup written over `y` restore `x` over it.
proof fn lemma_button_partial_full(y: Button, x: Button)
    ensures spec_button_partial(y, x, 5) == spec_restored_button(y, x),
{
    reveal_with_fuel(spec_button_partial, 6);
}

/// Writing the first `k` blocks of the backup of button `x` as component `i`.
proof fn lemma_button_restore_prefix(c: ConfigView, x: Button, i: int, k: nat)
    requires c.has_preset(), 0 <= i < c.preset().buttons.len(), i < 0x10000, k <= 5,
    ensures
        spec_restore(c, spec_button_backup_blocks(x, i as u16).take(k as int))
            == c.with_button(i, spec_button_partial(c.preset().buttons[i], x, k)),
    decreases k,
{
    let bl = spec_button_backup_blocks(x, i as u16);
    if k == 0 {
        assert(bl.take(0) =~= Seq::<Block>::empty());
        lemma_with_same_preset(c);
        assert(c.preset().buttons.update(i, c.preset().buttons[i]) =~= c.preset().buttons);
        assert(c.with_button(i, c.preset().buttons[i]).presets =~= c.presets);
    } else {
        lemma_button_restore_prefix(c, x, i, (k - 1) as nat);
        assert(bl.take(k as int) =~= bl.take(k - 1).push(bl[k - 1]));
        lemma_restore_push(c, bl.take(k - 1), bl[k - 1]);
        lemma_button_write_step(c, i, spec_button_partial(c.preset().buttons[i], x, (k - 1) as nat),
            spec_button_backup_section(x, spec_button_backup_ids()[k - 1]));
    }
}

/// Writing the backup of button `x` as component `i` restores it there.
proof fn lemma_button_restore(c: ConfigView, x: Button, i: int)
    requires c.has_preset(), 0 <= i < c.preset().buttons.len(), i < 0x10000,
    ensures
        spec_restore(c, spec_button_backup_blocks(x, i as u16))
            == c.with_button(i, spec_restored_button(c.preset().buttons[i], x)),
{
    let bl = spec_button_backup_blocks(x, i as u16);
    lemma_button_restore_prefix(c, x, i, 5 as nat);
    assert(bl.take(5) =~= bl);
    lemma_button_partial_full(c.preset().buttons[i], x);
}

/// Writing the backups of the buttons of `p` from `from` on restores them.
proof fn lemma_flat_buttons_restore(c: ConfigView, p: PresetView, from: int)
    requires
        c.has_preset(),
        c.preset().buttons.len() == p.buttons.len(),
        p.buttons.len() <= 0x10000,
        0 <= from <= p.buttons.len(),
    ensures
        spec_restore(c, spec_flat_buttons(p, from)) == c.with_preset(
            PresetView { buttons: spec_restored_buttons_from(c.preset().buttons, p.buttons, from), ..c.preset() }),
    decreases p.buttons.len() - from,
{
    if from == p.buttons.len() {
        assert(spec_restored_buttons_from(c.preset().buttons, p.buttons, from) =~= c.preset().buttons);
        lemma_with_same_preset(c);
    } else {
        let x = p.buttons[from];
        lemma_restore_concat(c, spec_button_backup_blocks(x, from as u16), spec_flat_buttons(p, from + 1));
        lemma_button_restore(c, x, from);
        let c1 = c.with_button(from, spec_restored_button(c.preset().buttons[from], x));
        lemma_flat_buttons_restore(c1, p, from + 1);
        let r = spec_restored_buttons_from(c.preset().buttons, p.buttons, from);
        assert(spec_restored_buttons_from(c1.preset().buttons, p.buttons, from + 1) =~= r);
        assert(c1.with_preset(PresetView { buttons: r, ..c1.preset() }).presets
            =~= c.with_preset(PresetView { buttons: r, ..c.preset() }).presets);
    }
}

/// Replacing encoder `i` of the active preset twice keeps the second.
proof fn lemma_encoder_with_twice(c: ConfigView, i: int, x: Encoder, y: Encoder)
    requires c.has_preset(), 0 <= i < c.preset().encoders.len(),
    ensures c.with_encoder(i, x).with_encoder(i, y) == c.with_encoder(i, y),
{
    assert(c.with_encoder(i, x).preset().encoders.update(i, y) =~= c.preset().encoders.update(i, y));
    assert(c.with_encoder(i, x).with_encoder(i, y).presets =~= c.with_encoder(i, y).presets);
}

/// Writing a section of encoder `i` over a configuration where it is `y`.
proof fn lemma_encoder_write_step(c: ConfigView, i: int, y: Encoder, s: EncoderSection)
    requires c.has_preset(), 0 <= i < c.preset().encoders.len(), i < 0x10000, 
    ensures spec_write(c.with_encoder(i, y), Block::Encoder(i as u16, s)) == c.with_encoder(i, y.spec_set(s)),
{
    reveal(spec_write);
    lemma_encoder_with_twice(c, i, y, y.spec_set(s));
}

/// Encoder `x` restored over `t`: every setting of `x` that a backup holds, and
/// the position state of `t`.
pub open spec fn spec_restored_encoder(t: Encoder, x: Encoder) -> Encoder {
    Encoder { state: t.state, ..x }
}

/// The encoders of `t`, those from `from` on restored from `p`.
pub open spec fn spec_restored_encoders_from(t: Seq<Encoder>, p: Seq<Encoder>, from: int) -> Seq<Encoder> {
    Seq::new(t.len(), |j: int| if j < from { t[j] } else { spec_restored_encoder(t[j], p[j]) })
}

/// `y` with the first `k` sections of the backup of `x` written over it.
pub open spec fn spec_encoder_partial(y: Encoder, x: Encoder, k: nat) -> Encoder
    decreases k,
{
    if k == 0 {
        y
    } else {
        spec_encoder_partial(y, x, (k - 1) as nat).spec_set(spec_encoder_backup_section(x, spec_encoder_backup_ids()[k - 1]))
    }
}

/// All the sections of a backup written over `y` restore `x` over it.
proof fn lemma_encoder_partial_full(y: Encoder, x: Encoder)
    ensures spec_encoder_partial(y, x, 12) == spec_restored_encoder(y, x),
{
    reveal_with_fuel(spec_encoder_partial, 13);
}

/// Writing the first `k` blocks of the backup of encoder `x` as component `i`.
proof fn lemma_encoder_restore_prefix(c: ConfigView, x: Encoder, i: int, k: nat)
    requires c.has_preset(), 0 <= i < c.preset().encoders.len(), i < 0x10000, k <= 12,
    ensures
        spec_restore(c, spec_encoder_backup_blocks(x, i as u16).take(k as int))
            == c.with_encoder(i, spec_encoder_partial(c.preset().encoders[i], x, k)),
    decreases k,
{
    let bl = spec_encoder_backup_blocks(x, i as u16);
    if k == 0 {
        assert(bl.take(0) =~= Seq::<Block>::empty());
        lemma_with_same_preset(c);
        assert(c.preset().encoders.update(i, c.preset().encoders[i]) =~= c.preset().encoders);
        assert(c.with_encoder(i, c.preset().encoders[i]).presets =~= c.presets);
    } else {
        lemma_encoder_restore_prefix(c, x, i, (k - 1) as nat);
        assert(bl.take(k as int) =~= bl.take(k - 1).push(bl[k - 1]));
        lemma_restore_push(c, bl.take(k - 1), bl[k - 1]);
        lemma_encoder_write_step(c, i, spec_encoder_partial(c.preset().encoders[i], x, (k - 1) as nat),
            spec_encoder_backup_section(x, spec_encoder_backup_ids()[k - 1]));
    }
}

/// Writing the backup of encoder `x` as component `i` restores it there.
proof fn lemma_encoder_restore(c: ConfigView, x: Encoder, i: int)
    requires c.has_preset(), 0 <= i < c.preset().encoders.len(), i < 0x10000,
    ensures
        spec_restore(c, spec_encoder_backup_blocks(x, i as u16))
            == c.with_encoder(i, spec_restored_encoder(c.preset().encoders[i], x)),
{
    let bl = spec_encoder_backup_blocks(x, i as u16);
    lemma_encoder_restore_prefix(c, x, i, 12 as nat);
    assert(bl.take(12) =~= bl);
    lemma_encoder_partial_full(c.preset().encoders[i], x);
}

/// Writing the backups of the encoders of `p` from `from` on restores them.
proof fn lemma_flat_encoders_restore(c: ConfigView, p: PresetView, from: int)
    requires
        c.has_preset(),
        c.preset().encoders.len() == p.encoders.len(),
        p.encoders.len() <= 0x10000,
        0 <= from <= p.encoders.len(),
    ensures
        spec_restore(c, spec_flat_encoders(p, from)) == c.with_preset(
            PresetView { encoders: spec_restored_encoders_from(c.preset().encoders, p.encoders, from), ..c.preset() }),
    decreases p.encoders.len() - from,
{
    if from == p.encoders.len() {
        assert(spec_restored_encoders_from(c.preset().encoders, p.encoders, from) =~= c.preset().encoders);
        lemma_with_same_preset(c);
    } else {
        let x = p.encoders[from];
        lemma_restore_concat(c, spec_encoder_backup_blocks(x, from as u16), spec_flat_encoders(p, from + 1));
        lemma_encoder_restore(c, x, from);
        let c1 = c.with_encoder(from, spec_restored_encoder(c.preset().encoders[from], x));
        lemma_flat_encoders_restore(c1, p, from + 1);
        let r = spec_restored_encoders_from(c.preset().encoders, p.encoders, from);
        assert(spec_restored_encoders_from(c1.preset().encoders, p.encoders, from + 1) =~= r);
        assert(c1.with_preset(PresetView { encoders: r, ..c1.preset() }).presets
            =~= c.with_preset(PresetView { encoders: r, ..c.preset() }).presets);
    }
}

/// Replacing analog input `i` of the active preset twice keeps the second.
proof fn lemma_analog_with_twice(c: ConfigView, i: int, x: Analog, y: Analog)
    requires c.has_preset(), 0 <= i < c.preset().analogs.len(),
    ensures c.with_analog(i, x).with_analog(i, y) == c.with_analog(i, y),
{
    assert(c.with_analog(i, x).preset().analogs.update(i, y) =~= c.preset().analogs.update(i, y));
    assert(c.with_analog(i, x).with_analog(i, y).presets =~= c.with_analog(i, y).presets);
}

/// Writing a section of analog input `i` over a configuration where it is `y`.
proof fn lemma_analog_write_step(c: ConfigView, i: int, y: Analog, s: AnalogSection)
    requires c.has_preset(), 0 <= i < c.preset().analogs.len(), i < 0x10000, 
    ensures spec_write(c.with_analog(i, y), Block::Analog(i as u16, s)) == c.with_analog(i, y.spec_set(s)),
{
    reveal(spec_write);
    lemma_analog_with_twice(c, i, y, y.spec_set(s));
}

/// Analog `x` restored over `t`: every setting of `x` that a backup holds, and
/// the converter range of `t`.
pub open spec fn spec_restored_analog(t: Analog, x: Analog) -> Analog {
    Analog { adc_max: t.adc_max, ..x }
}

/// The analogs of `t`, those from `from` on restored from `p`.
pub open spec fn spec_restored_analogs_from(t: Seq<Analog>, p: Seq<Analog>, from: int) -> Seq<Analog> {
    Seq::new(t.len(), |j: int| if j < from { t[j] } else { spec_restored_analog(t[j], p[j]) })
}

/// `y` with the first `k` sections of the backup of `x` written over it.
pub open spec fn spec_analog_partial(y: Analog, x: Analog, k: nat) -> Analog
    decreases k,
{
    if k == 0 {
        y
    } else {
        spec_analog_partial(y, x, (k - 1) as nat).spec_set(spec_analog_backup_section(x, spec_analog_backup_ids()[k - 1]))
    }
}

/// All the sections of a backup written over `y` restore `x` over it.
proof fn lemma_analog_partial_full(y: Analog, x: Analog)
    ensures spec_analog_partial(y, x, 9) == spec_restored_analog(y, x),
{
    reveal_with_fuel(spec_analog_partial, 10);
}

/// Writing the first `k` blocks of the backup of analog input `x` as component `i`.
proof fn lemma_analog_restore_prefix(c: ConfigView, x: Analog, i: int, k: nat)
    requires c.has_preset(), 0 <= i < c.preset().analogs.len(), i < 0x10000, k <= 9,
    ensures
        spec_restore(c, spec_analog_backup_blocks(x, i as u16).take(k as int))
            == c.with_analog(i, spec_analog_partial(c.preset().analogs[i], x, k)),
    decreases k,
{
    let bl = spec_analog_backup_blocks(x, i as u16);
    if k == 0 {
        assert(bl.take(0) =~= Seq::<Block>::empty());
        lemma_with_same_preset(c);
        assert(c.preset().analogs.update(i, c.preset().analogs[i]) =~= c.preset().analogs);
        assert(c.with_analog(i, c.preset().analogs[i]).presets =~= c.presets);
    } else {
        lemma_analog_restore_prefix(c, x, i, (k - 1) as nat);
        assert(bl.take(k as int) =~= bl.take(k - 1).push(bl[k - 1]));
        lemma_restore_push(c, bl.take(k - 1), bl[k - 1]);
        lemma_analog_write_step(c, i, spec_analog_partial(c.preset().analogs[i], x, (k - 1) as nat),
            spec_analog_backup_section(x, spec_analog_backup_ids()[k - 1]));
    }
}

/// Writing the backup of analog input `x` as component `i` restores it there.
proof fn lemma_analog_restore(c: ConfigView, x: Analog, i: int)
    requires c.has_preset(), 0 <= i < c.preset().analogs.len(), i < 0x10000,
    ensures
        spec_restore(c, spec_analog_backup_blocks(x, i as u16))
            == c.with_analog(i, spec_restored_analog(c.preset().analogs[i], x)),
{
    let bl = spec_analog_backup_blocks(x, i as u16);
    lemma_analog_restore_prefix(c, x, i, 9 as nat);
    assert(bl.take(9) =~= bl);
    lemma_analog_partial_full(c.preset().analogs[i], x);
}

/// Writing the backups of the analogs of `p` from `from` on restores them.
proof fn lemma_flat_analogs_restore(c: ConfigView, p: PresetView, from: int)
    requires
        c.has_preset(),
        c.preset().analogs.len() == p.analogs.len(),
        p.analogs.len() <= 0x10000,
        0 <= from <= p.analogs.len(),
    ensures
        spec_restore(c, spec_flat_analogs(p, from)) == c.with_preset(
            PresetView { analogs: spec_restored_analogs_from(c.preset().analogs, p.analogs, from), ..c.preset() }),
    decreases p.analogs.len() - from,
{
    if from == p.analogs.len() {
        assert(spec_restored_analogs_from(c.preset().analogs, p.analogs, from) =~= c.preset().analogs);
        lemma_with_same_preset(c);
    } else {
        let x = p.analogs[from];
        lemma_restore_concat(c, spec_analog_backup_blocks(x, from as u16), spec_flat_analogs(p, from + 1));
        lemma_analog_restore(c, x, from);
        let c1 = c.with_analog(from, spec_restored_analog(c.preset().analogs[from], x));
        lemma_flat_analogs_restore(c1, p, from + 1);
        let r = spec_restored_analogs_from(c.preset().analogs, p.analogs, from);
        assert(spec_restored_analogs_from(c1.preset().analogs, p.analogs, from + 1) =~= r);
        assert(c1.with_preset(PresetView { analogs: r, ..c1.preset() }).presets
            =~= c.with_preset(PresetView { analogs: r, ..c.preset() }).presets);
    }
}

/// Replacing output `i` of the active preset twice keeps the second.
proof fn lemma_led_with_twice(c: ConfigView, i: int, x: Led, y: Led)
    requires c.has_preset(), 0 <= i < c.preset().leds.len(),
    ensures c.with_led(i, x).with_led(i, y) == c.with_led(i, y),
{
    assert(c.with_led(i, x).preset().leds.update(i, y) =~= c.preset().leds.update(i, y));
    assert(c.with_led(i, x).with_led(i, y).presets =~= c.with_led(i, y).presets);
}

/// Writing a section of output `i` over a configuration where it is `y`.
proof fn lemma_led_write_step(c: ConfigView, i: int, y: Led, s: LedSection)
    requires c.has_preset(), 0 <= i < c.preset().leds.len(), i < 0x10000, !(s is Global),
    ensures spec_write(c.with_led(i, y), Block::Led(i as u16, s)) == c.with_led(i, y.spec_set(s)),
{
    reveal(spec_write);
    lemma_led_with_twice(c, i, y, y.spec_set(s));
}

/// Led `x` restored over `t`: every setting of `x` that a backup holds, and
/// the level and color of `t`.
pub open spec fn spec_restored_led(t: Led, x: Led) -> Led {
    Led { level: t.level, color: t.color, ..x }
}

/// The leds of `t`, those from `from` on restored from `p`.
pub open spec fn spec_restored_leds_from(t: Seq<Led>, p: Seq<Led>, from: int) -> Seq<Led> {
    Seq::new(t.len(), |j: int| if j < from { t[j] } else { spec_restored_led(t[j], p[j]) })
}

/// `y` with the first `k` sections of the backup of `x` written over it.
pub open spec fn spec_led_partial(y: Led, x: Led, k: nat) -> Led
    decreases k,
{
    if k == 0 {
        y
    } else {
        spec_led_partial(y, x, (k - 1) as nat).spec_set(spec_led_backup_section(x, spec_led_backup_ids()[k - 1]))
    }
}

/// All the sections of a backup written over `y` restore `x` over it.
proof fn lemma_led_partial_full(y: Led, x: Led)
    ensures spec_led_partial(y, x, 7) == spec_restored_led(y, x),
{
    reveal_with_fuel(spec_led_partial, 8);
}

/// Writing the first `k` blocks of the backup of output `x` as component `i`.
proof fn lemma_led_restore_prefix(c: ConfigView, x: Led, i: int, k: nat)
    requires c.has_preset(), 0 <= i < c.preset().leds.len(), i < 0x10000, k <= 7,
    ensures
        spec_restore(c, spec_led_backup_blocks(x, i as u16).take(k as int))
            == c.with_led(i, spec_led_partial(c.preset().leds[i], x, k)),
    decreases k,
{
    let bl = spec_led_backup_blocks(x, i as u16);
    if k == 0 {
        assert(bl.take(0) =~= Seq::<Block>::empty());
        lemma_with_same_preset(c);
        assert(c.preset().leds.update(i, c.preset().leds[i]) =~= c.preset().leds);
        assert(c.with_led(i, c.preset().leds[i]).presets =~= c.presets);
    } else {
        lemma_led_restore_prefix(c, x, i, (k - 1) as nat);
        assert(bl.take(k as int) =~= bl.take(k - 1).push(bl[k - 1]));
        lemma_restore_push(c, bl.take(k - 1), bl[k - 1]);
        lemma_led_write_step(c, i, spec_led_partial(c.preset().leds[i], x, (k - 1) as nat),
            spec_led_backup_section(x, spec_led_backup_ids()[k - 1]));
    }
}

/// Writing the backup of output `x` as component `i` restores it there.
proof fn lemma_led_restore(c: ConfigView, x: Led, i: int)
    requires c.has_preset(), 0 <= i < c.preset().leds.len(), i < 0x10000,
    ensures
        spec_restore(c, spec_led_backup_blocks(x, i as u16))
            == c.with_led(i, spec_restored_led(c.preset().leds[i], x)),
{
    let bl = spec_led_backup_blocks(x, i as u16);
    lemma_led_restore_prefix(c, x, i, 7 as nat);
    assert(bl.take(7) =~= bl);
    lemma_led_partial_full(c.preset().leds[i], x);
}

/// Writing the backups of the leds of `p` from `from` on restores them.
proof fn lemma_flat_leds_restore(c: ConfigView, p: PresetView, from: int)
    requires
        c.has_preset(),
        c.preset().leds.len() == p.leds.len(),
        p.leds.len() <= 0x10000,
        0 <= from <= p.leds.len(),
    ensures
        spec_restore(c, spec_flat_leds(p, from)) == c.with_preset(
            PresetView { leds: spec_restored_leds_from(c.preset().leds, p.leds, from), ..c.preset() }),
    decreases p.leds.len() - from,
{
    if from == p.leds.len() {
        assert(spec_restored_leds_from(c.preset().leds, p.leds, from) =~= c.preset().leds);
        lemma_with_same_preset(c);
    } else {
        let x = p.leds[from];
        lemma_restore_concat(c, spec_led_backup_blocks(x, from as u16), spec_flat_leds(p, from + 1));
        lemma_led_restore(c, x, from);
        let c1 = c.with_led(from, spec_restored_led(c.preset().leds[from], x));
        lemma_flat_leds_restore(c1, p, from + 1);
        let r = spec_restored_leds_from(c.preset().leds, p.leds, from);
        assert(spec_restored_leds_from(c1.preset().leds, p.leds, from + 1) =~= r);
        assert(c1.with_preset(PresetView { leds: r, ..c1.preset() }).presets
            =~= c.with_preset(PresetView { leds: r, ..c.preset() }).presets);
    }
}

/// Preset `p` restored over `t`: every setting of every component of `p`
/// that a backup holds, and what a backup leaves out from `t`.
pub open spec fn spec_restored_preset(t: PresetView, p: PresetView) -> PresetView {
    PresetView {
        buttons: spec_restored_buttons_from(t.buttons, p.buttons, 0),
        encoders: spec_restored_encoders_from(t.encoders, p.encoders, 0),
        analogs: spec_restored_analogs_from(t.analogs, p.analogs, 0),
        leds: spec_restored_leds_from(t.leds, p.leds, 0),
    }
}

/// The active preset has as many components of each kind as `p`, few enough
/// for a block to address each.
pub open spec fn same_shape(t: PresetView, p: PresetView) -> bool {
    &&& t.buttons.len() == p.buttons.len() && p.buttons.len() <= 0x10000
    &&& t.encoders.len() == p.encoders.len() && p.encoders.len() <= 0x10000
    &&& t.analogs.len() == p.analogs.len() && p.analogs.len() <= 0x10000
    &&& t.leds.len() == p.leds.len() && p.leds.len() <= 0x10000
}

/// Writing the blocks of the backup of preset `p` to a configuration whose
/// active preset has the same components restores every setting of `p` there,
/// and changes nothing else.
pub proof fn lemma_preset_backup_restores(c: ConfigView, p: PresetView)
    requires c.has_preset(), same_shape(c.preset(), p),
    ensures spec_restore(c, spec_preset_backup_blocks(p)) == c.with_preset(spec_restored_preset(c.preset(), p)),
{
    let bb = spec_flat_buttons(p, 0);
    let eb = spec_flat_encoders(p, 0);
    let ab = spec_flat_analogs(p, 0);
    let lb = spec_flat_leds(p, 0);
    lemma_restore_concat(c, bb + eb + ab, lb);
    lemma_restore_concat(c, bb + eb, ab);
    lemma_restore_concat(c, bb, eb);
    lemma_flat_buttons_restore(c, p, 0);
    let c1 = spec_restore(c, bb);
    assert(c1.has_preset());
    lemma_flat_encoders_restore(c1, p, 0);
    let c2 = spec_restore(c1, eb);
    lemma_flat_analogs_restore(c2, p, 0);
    let c3 = spec_restore(c2, ab);
    lemma_flat_leds_restore(c3, p, 0);
    let c4 = spec_restore(c3, lb);
    assert(c4.presets =~= c.with_preset(spec_restored_preset(c.preset(), p)).presets);
}

/// The configuration after each step of a backup is written in turn; a
/// marker writes nothing.
pub open spec fn spec_replay(c: ConfigView, steps: Seq<BackupStep>) -> ConfigView
    decreases steps.len(),
{
    if steps.len() == 0 {
        c
    } else {
        let before = spec_replay(c, steps.drop_last());
        match steps.last() {
            BackupStep::Marker => before,
            BackupStep::Restore(b) => spec_write(before, b),
        }
    }
}

/// Replaying two runs of steps is replaying the first, then the second.
proof fn lemma_replay_concat(c: ConfigView, a: Seq<BackupStep>, b: Seq<BackupStep>)
    ensures spec_replay(c, a + b) == spec_replay(spec_replay(c, a), b),
    decreases b.len(),
{
    if b.len() == 0 {
        assert(a + b =~= a);
    } else {
        lemma_replay_concat(c, a, b.drop_last());
        assert((a + b).drop_last() =~= a + b.drop_last());
    }
}

/// Replaying the steps that write `blocks` is writing `blocks`.
proof fn lemma_replay_restore_steps(c: ConfigView, blocks: Seq<Block>)
    ensures spec_replay(c, spec_restore_steps(blocks)) == spec_restore(c, blocks),
    decreases blocks.len(),
{
    if blocks.len() > 0 {
        assert(spec_restore_steps(blocks).drop_last() =~= spec_restore_steps(blocks.drop_last()));
        lemma_replay_restore_steps(c, blocks.drop_last());
    }
}

/// The step that selects preset `q` makes it the active one.
proof fn lemma_select_preset(c: ConfigView, q: int)
    requires c.has_preset(), 0 <= q < 0x10000,
    ensures
        spec_replay(c, seq![spec_select_preset(q)])
            == c.with_global(GlobalConfig { preset: GlobalPreset { current: q as usize, ..c.global.preset }, ..c.global }),
{
    reveal(spec_write);
    reveal_with_fuel(spec_replay, 2);
    assert(seq![spec_select_preset(q)].drop_last() =~= Seq::<BackupStep>::empty());
}

/// Every preset of `c` has the components of the preset of `ps` at its place,
/// few enough for a block to address each, and there are as many of them.
pub open spec fn same_presets(c: ConfigView, ps: Seq<PresetView>) -> bool {
    &&& c.presets.len() == ps.len()
    &&& ps.len() <= 0x10000
    &&& forall|q: int| 0 <= q < ps.len() ==> #[trigger] same_shape(c.presets[q], ps[q])
}

/// `c` with the presets from `from` on restored from `ps`, and the last of
/// them active, as a replay of their steps leaves it.
pub open spec fn spec_restored_config_from(c: ConfigView, ps: Seq<PresetView>, from: int) -> ConfigView {
    if from >= ps.len() {
        c
    } else {
        ConfigView {
            presets: Seq::new(c.presets.len(), |q: int|
                if q < from { c.presets[q] } else { spec_restored_preset(c.presets[q], ps[q]) }),
            global: GlobalConfig { preset: GlobalPreset { current: (ps.len() - 1) as usize, ..c.global.preset }, ..c.global },
            ..c
        }
    }
}

/// Replaying the steps of the presets from `from` on restores each of them.
proof fn lemma_flat_presets_restore(c: ConfigView, ps: Seq<PresetView>, from: int)
    requires c.has_preset(), same_presets(c, ps), 0 <= from <= ps.len(),
    ensures spec_replay(c, spec_flat_presets(ps, from)) == spec_restored_config_from(c, ps, from),
    decreases ps.len() - from,
{
    if from < ps.len() {
        let sel = seq![spec_select_preset(from)];
        let body = spec_restore_steps(spec_preset_backup_blocks(ps[from]));
        let rest = spec_flat_presets(ps, from + 1);
        lemma_replay_concat(c, sel + body, rest);
        lemma_replay_concat(c, sel, body);
        lemma_select_preset(c, from);
        let c1 = c.with_global(GlobalConfig { preset: GlobalPreset { current: from as usize, ..c.global.preset }, ..c.global });
        assert(c1.preset() == c.presets[from]);
        assert(same_shape(c.presets[from], ps[from]));
        lemma_replay_restore_steps(c1, spec_preset_backup_blocks(ps[from]));
        lemma_preset_backup_restores(c1, ps[from]);
        let c2 = c1.with_preset(spec_restored_preset(c.presets[from], ps[from]));
        assert forall|q: int| 0 <= q < ps.len() implies #[trigger] same_shape(c2.presets[q], ps[q]) by {
            assert(same_shape(c.presets[q], ps[q]));
        }
        lemma_flat_presets_restore(c2, ps, from + 1);
        let want = spec_restored_config_from(c, ps, from);
        let got = spec_restored_config_from(c2, ps, from + 1);
        assert(got.presets =~= want.presets);
    }
}

/// Replaying a whole backup of presets `ps` on a configuration whose presets
/// have the same components restores every setting of every preset that the
/// backup holds, and leaves the last preset active; nothing else changes.
pub proof fn lemma_backup_restores_config(c: ConfigView, ps: Seq<PresetView>)
    requires c.has_preset(), same_presets(c, ps),
    ensures spec_replay(c, spec_config_backup(ps)) == spec_restored_config_from(c, ps, 0),
{
    let m = seq![BackupStep::Marker];
    let flat = spec_flat_presets(ps, 0);
    lemma_replay_concat(c, m + flat, m);
    lemma_replay_concat(c, m, flat);
    assert(m.drop_last() =~= Seq::<BackupStep>::empty());
    assert(spec_replay(c, m) == c) by {
        reveal_with_fuel(spec_replay, 2);
    }
    lemma_flat_presets_restore(c, ps, 0);
    let r = spec_restored_config_from(c, ps, 0);
    assert((m + flat + m).drop_last() =~= m + flat);
}

} // verus!
