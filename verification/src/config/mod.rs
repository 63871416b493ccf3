//! The configuration of a device: its presets of components, its global
//! settings, and how it answers configuration requests and component events.
use vstd::prelude::*;
use crate::analog::Analog;
use crate::bpm::Bpm;
use crate::button::Button;
use crate::encoder::Encoder;
use crate::global::{GlobalMidi, GlobalPreset};
use crate::led::{GlobalLed, Led};
use crate::parser::OpenDeckParser;
use crate::analog::AnalogSection;
use crate::button::ButtonSection;
use crate::encoder::EncoderSection;
use crate::global::GlobalSection;
use crate::led::{ControlType, LedIndex, LedSection};
use crate::led::handler::OutputState;
use crate::values::{values_new, values_push, values_view};
use crate::button::ButtonMessageType;
use crate::button::handler::{Action, ButtonMessages};
use crate::channel::ChannelOrAll;
use crate::handler::{ChannelMessages, Messages};
use crate::analog::handler::{spec_analog_nr_of_messages, AnalogMessages};
use crate::encoder::EncoderMessageType;
use crate::encoder::handler::{spec_encoder_nr_of_messages, EncoderPulse};
use crate::{Amount, Block, HardwareUid, NewValues, NrOfSupportedComponents, OpenDeckRequest, OpenDeckResponse, SpecialRequest, SpecialResponse, ValueSize, Wish, PARAMS_PER_MESSAGE};

pub mod backup;
pub mod response;
pub mod restore;

verus! {

#[derive(Debug, Copy, Clone, PartialEq, Eq, Structural)]
pub struct FirmwareVersion {
    pub major: u8,
    pub minor: u8,
    pub revision: u8,
}

/// What the device does on the special requests that reach beyond the
/// configuration.
pub trait SystemHandler {
    fn reboot(&self);
    fn bootloader(&self);
    fn factory_reset(&self);
}

/// The components of one preset.
pub struct Preset<const B: usize, const A: usize, const E: usize, const L: usize> {
    pub buttons: Vec<Button>,
    pub encoders: Vec<Encoder>,
    pub analogs: Vec<Analog>,
    pub leds: Vec<Led>,
}

/// The components of a preset as values.
pub struct PresetView {
    pub buttons: Seq<Button>,
    pub encoders: Seq<Encoder>,
    pub analogs: Seq<Analog>,
    pub leds: Seq<Led>,
}

impl<const B: usize, const A: usize, const E: usize, const L: usize> View for Preset<B, A, E, L> {
    type V = PresetView;

    open spec fn view(&self) -> PresetView {
        PresetView { buttons: self.buttons@, encoders: self.encoders@, analogs: self.analogs@, leds: self.leds@ }
    }
}

/// The preset a device starts with: component `i` of each kind has MIDI id
/// (activation id for outputs) `i`, and analog inputs read up to `adc_max`.
pub open spec fn spec_default_preset(b: usize, a: usize, e: usize, l: usize, adc_max: u16) -> PresetView {
    PresetView {
        buttons: Seq::new(b as nat, |i: int| Button::spec_new(i as u8)),
        encoders: Seq::new(e as nat, |i: int| Encoder::spec_new(i as u16)),
        analogs: Seq::new(a as nat, |i: int| Analog { adc_max, ..Analog::spec_new(i as u16) }),
        leds: Seq::new(l as nat, |i: int| Led::spec_new(i as u8)),
    }
}

impl<const B: usize, const A: usize, const E: usize, const L: usize> Preset<B, A, E, L> {
    /// Holds `B` buttons, `E` encoders, `A` analog inputs and `L` outputs.
    pub open spec fn wf(self) -> bool {
        &&& self.buttons@.len() == B
        &&& self.encoders@.len() == E
        &&& self.analogs@.len() == A
        &&& self.leds@.len() == L
    }

    /// The default preset, with analog inputs that read up to `adc_max`.
    pub fn new_with_adc_max(adc_max: u16) -> (r: Self)
        ensures r@ == spec_default_preset(B, A, E, L, adc_max), r.wf(),
    {
        let mut buttons: Vec<Button> = Vec::new();
        for i in 0..B
            invariant buttons@ == Seq::new(i as nat, |j: int| Button::spec_new(j as u8)),
        {
            buttons.push(Button::new(i as u8));
            proof { assert(buttons@ =~= Seq::new((i + 1) as nat, |j: int| Button::spec_new(j as u8))); }
        }
        let mut encoders: Vec<Encoder> = Vec::new();
        for i in 0..E
            invariant encoders@ == Seq::new(i as nat, |j: int| Encoder::spec_new(j as u16)),
        {
            encoders.push(Encoder::new(i as u16));
            proof { assert(encoders@ =~= Seq::new((i + 1) as nat, |j: int| Encoder::spec_new(j as u16))); }
        }
        let mut analogs: Vec<Analog> = Vec::new();
        for i in 0..A
            invariant analogs@ == Seq::new(i as nat, |j: int| Analog { adc_max, ..Analog::spec_new(j as u16) }),
        {
            let mut analog = Analog::new(i as u16);
            analog.set_adc_max(adc_max);
            analogs.push(analog);
            proof { assert(analogs@ =~= Seq::new((i + 1) as nat, |j: int| Analog { adc_max, ..Analog::spec_new(j as u16) })); }
        }
        let mut leds: Vec<Led> = Vec::new();
        for i in 0..L
            invariant leds@ == Seq::new(i as nat, |j: int| Led::spec_new(j as u8)),
        {
            leds.push(Led::new(i as u8));
            proof { assert(leds@ =~= Seq::new((i + 1) as nat, |j: int| Led::spec_new(j as u8))); }
        }
        Preset { buttons, encoders, analogs, leds }
    }
}

impl<const B: usize, const A: usize, const E: usize, const L: usize> Preset<B, A, E, L> {
    pub fn button_mut(&mut self, index: u16) -> (r: Option<&mut Button>)
        ensures
            (index as int) < old(self).buttons@.len() <==> r is Some,
            r is None ==> *final(self) == *old(self),
            r is Some ==> *r->Some_0 == old(self).buttons@[index as int]
                && final(self)@ == (PresetView { buttons: old(self).buttons@.update(index as int, *final(r->Some_0)), ..old(self)@ }),
    {
        if (index as usize) < self.buttons.len() { Some(&mut self.buttons[index as usize]) } else { None }
    }

    pub fn button(&self, index: u16) -> (r: Option<&Button>)
        ensures r == (if (index as int) < self.buttons@.len() { Some(&self.buttons@[index as int]) } else { None }),
    {
        if (index as usize) < self.buttons.len() { Some(&self.buttons[index as usize]) } else { None }
    }

    pub fn encoder_mut(&mut self, index: u16) -> (r: Option<&mut Encoder>)
        ensures
            (index as int) < old(self).encoders@.len() <==> r is Some,
            r is None ==> *final(self) == *old(self),
            r is Some ==> *r->Some_0 == old(self).encoders@[index as int]
                && final(self)@ == (PresetView { encoders: old(self).encoders@.update(index as int, *final(r->Some_0)), ..old(self)@ }),
    {
        if (index as usize) < self.encoders.len() { Some(&mut self.encoders[index as usize]) } else { None }
    }

    pub fn encoder(&self, index: u16) -> (r: Option<&Encoder>)
        ensures r == (if (index as int) < self.encoders@.len() { Some(&self.encoders@[index as int]) } else { None }),
    {
        if (index as usize) < self.encoders.len() { Some(&self.encoders[index as usize]) } else { None }
    }

    pub fn analog_mut(&mut self, index: u16) -> (r: Option<&mut Analog>)
        ensures
            (index as int) < old(self).analogs@.len() <==> r is Some,
            r is None ==> *final(self) == *old(self),
            r is Some ==> *r->Some_0 == old(self).analogs@[index as int]
                && final(self)@ == (PresetView { analogs: old(self).analogs@.update(index as int, *final(r->Some_0)), ..old(self)@ }),
    {
        if (index as usize) < self.analogs.len() { Some(&mut self.analogs[index as usize]) } else { None }
    }

    pub fn analog(&self, index: u16) -> (r: Option<&Analog>)
        ensures r == (if (index as int) < self.analogs@.len() { Some(&self.analogs@[index as int]) } else { None }),
    {
        if (index as usize) < self.analogs.len() { Some(&self.analogs[index as usize]) } else { None }
    }

    pub fn led_mut(&mut self, index: u16) -> (r: Option<&mut Led>)
        ensures
            (index as int) < old(self).leds@.len() <==> r is Some,
            r is None ==> *final(self) == *old(self),
            r is Some ==> *r->Some_0 == old(self).leds@[index as int]
                && final(self)@ == (PresetView { leds: old(self).leds@.update(index as int, *final(r->Some_0)), ..old(self)@ }),
    {
        if (index as usize) < self.leds.len() { Some(&mut self.leds[index as usize]) } else { None }
    }

    pub fn led(&self, index: u16) -> (r: Option<&Led>)
        ensures r == (if (index as int) < self.leds@.len() { Some(&self.leds@[index as int]) } else { None }),
    {
        if (index as usize) < self.leds.len() { Some(&self.leds[index as usize]) } else { None }
    }
}

impl<const B: usize, const A: usize, const E: usize, const L: usize> Default for Preset<B, A, E, L> {
    fn default() -> (r: Self)
        ensures r@ == spec_default_preset(B, A, E, L, crate::analog::MAX_ADC_VALUE), r.wf(),
    {
        Self::new_with_adc_max(crate::analog::MAX_ADC_VALUE)
    }
}

/// Settings shared by all presets.
#[derive(Debug, Copy, Clone, PartialEq, Eq, Structural)]
pub struct GlobalConfig {
    pub midi: GlobalMidi,
    pub preset: GlobalPreset,
    pub led: GlobalLed,
}

impl Default for GlobalConfig {
    fn default() -> (r: Self)
        ensures r == (GlobalConfig {
            midi: GlobalMidi::spec_default(),
            preset: GlobalPreset { current: 0, force_value_refresh: false, enable_midi_change: false, preserve_preset: false },
            led: GlobalLed { blink_with_midi_clock: false, startup_animation: false, midi_program_change_offset: false },
        }),
    {
        GlobalConfig { midi: GlobalMidi::default(), preset: GlobalPreset::default(), led: GlobalLed::default() }
    }
}

/// The configuration of a device with `P` presets of `B` buttons, `A` analog
/// inputs, `E` encoders and `L` outputs.
pub struct Config<const P: usize, const B: usize, const A: usize, const E: usize, const L: usize, H: SystemHandler> {
    pub parser: OpenDeckParser,
    pub global: GlobalConfig,
    pub bpm: Bpm,
    /// Whether a SysEx session is open (a handshake was received).
    pub enabled: bool,
    pub presets: Vec<Preset<B, A, E, L>>,
    pub version: FirmwareVersion,
    pub uid: u32,
    pub serial_number: Vec<u8>,
    pub handler: H,
}

/// The state of a configuration as values.
pub struct ConfigView {
    pub value_size: ValueSize,
    pub global: GlobalConfig,
    pub bpm: Bpm,
    pub enabled: bool,
    pub presets: Seq<PresetView>,
    pub version: FirmwareVersion,
    pub uid: u32,
    pub serial_number: Seq<u8>,
}

impl<const P: usize, const B: usize, const A: usize, const E: usize, const L: usize, H: SystemHandler> View for Config<P, B, A, E, L, H> {
    type V = ConfigView;

    open spec fn view(&self) -> ConfigView {
        ConfigView {
            value_size: self.parser.value_size,
            global: self.global,
            bpm: self.bpm,
            enabled: self.enabled,
            presets: self.presets@.map_values(|p: Preset<B, A, E, L>| p@),
            version: self.version,
            uid: self.uid,
            serial_number: self.serial_number@,
        }
    }
}

impl ConfigView {
    /// The active preset.
    pub open spec fn current(self) -> int {
        self.global.preset.current as int
    }

    /// The active preset exists.
    pub open spec fn has_preset(self) -> bool {
        self.current() < self.presets.len()
    }

    pub open spec fn preset(self) -> PresetView {
        self.presets[self.current()]
    }

    pub open spec fn with_preset(self, p: PresetView) -> ConfigView {
        ConfigView { presets: self.presets.update(self.current(), p), ..self }
    }

    /// The configuration with button `i` of the active preset replaced.
    pub open spec fn with_button(self, i: int, b: Button) -> ConfigView {
        self.with_preset(PresetView { buttons: self.preset().buttons.update(i, b), ..self.preset() })
    }

    pub open spec fn with_encoder(self, i: int, e: Encoder) -> ConfigView {
        self.with_preset(PresetView { encoders: self.preset().encoders.update(i, e), ..self.preset() })
    }

    pub open spec fn with_analog(self, i: int, a: Analog) -> ConfigView {
        self.with_preset(PresetView { analogs: self.preset().analogs.update(i, a), ..self.preset() })
    }

    pub open spec fn with_led(self, i: int, l: Led) -> ConfigView {
        self.with_preset(PresetView { leds: self.preset().leds.update(i, l), ..self.preset() })
    }

    pub open spec fn with_global(self, g: GlobalConfig) -> ConfigView {
        ConfigView { global: g, ..self }
    }
}

/// A single value of a block, or the values of all components.
pub open spec fn spec_get_values<T>(items: Seq<T>, index: u16, amount: Amount, get: spec_fn(T) -> u16) -> (Seq<u16>, Amount) {
    match amount {
        Amount::Single => (if (index as int) < items.len() { seq![get(items[index as int])] } else { Seq::<u16>::empty() }, amount),
        Amount::All(_) => (items.map_values(get), Amount::All(0)),
    }
}

/// What a configuration request does: the configuration after it, the
/// values it answers with, and the amount of the answer. Nothing happens when
/// the active preset does not exist.
pub open spec fn spec_process_config(c: ConfigView, wish: Wish, amount: Amount, block: Block) -> (ConfigView, Seq<u16>, Amount) {
    let none = Seq::<u16>::empty();
    let set = wish == Wish::SetValue;
    if !c.has_preset() {
        (c, none, amount)
    } else {
        let p = c.preset();
        match block {
            Block::Global(GlobalSection::Midi(i, v)) =>
                if set { (c.with_global(GlobalConfig { midi: c.global.midi.spec_set(i, v), ..c.global }), none, amount) }
                else { (c, seq![c.global.midi.spec_get(i)], amount) },
            Block::Global(GlobalSection::Presets(i, v)) =>
                if set { (c.with_global(GlobalConfig { preset: c.global.preset.spec_set(i, v), ..c.global }), none, amount) }
                else { (c, seq![c.global.preset.spec_get(i)], amount) },
            Block::Button(index, s) =>
                if set {
                    (if (index as int) < p.buttons.len() { c.with_button(index as int, p.buttons[index as int].spec_set(s)) } else { c }, none, amount)
                } else {
                    let (v, a) = spec_get_values(p.buttons, index, amount, |x: Button| x.spec_get(s));
                    (c, v, a)
                },
            Block::Encoder(index, s) =>
                if set {
                    (if (index as int) < p.encoders.len() { c.with_encoder(index as int, p.encoders[index as int].spec_set(s)) } else { c }, none, amount)
                } else {
                    let (v, a) = spec_get_values(p.encoders, index, amount, |x: Encoder| x.spec_get(s));
                    (c, v, a)
                },
            Block::Analog(index, s) =>
                if set {
                    (if (index as int) < p.analogs.len() { c.with_analog(index as int, p.analogs[index as int].spec_set(s)) } else { c }, none, amount)
                } else {
                    let (v, a) = spec_get_values(p.analogs, index, amount, |x: Analog| x.spec_get(s));
                    (c, v, a)
                },
            Block::Led(index, LedSection::Global(value)) =>
                match LedIndex::spec_from_code(index) {
                    Some(li) =>
                        if set { (c.with_global(GlobalConfig { led: c.global.led.spec_set(li, value), ..c.global }), none, amount) }
                        else { (c, seq![c.global.led.spec_get(li)], amount) },
                    None => (c, none, amount),
                },
            Block::Led(index, s) =>
                if set {
                    (if (index as int) < p.leds.len() { c.with_led(index as int, p.leds[index as int].spec_set(s)) } else { c }, none, amount)
                } else {
                    let (v, a) = spec_get_values(p.leds, index, amount, |x: Led| x.spec_get(s));
                    (c, v, a)
                },
            Block::Display | Block::Touchscreen => (c, none, amount),
        }
    }
}

/// The number of components a block addresses; the global output settings
/// have four indices.
pub open spec fn spec_component_count(block: Block, b: usize, a: usize, e: usize, l: usize) -> usize {
    match block {
        Block::Button(..) => b,
        Block::Encoder(..) => e,
        Block::Analog(..) => a,
        Block::Led(_, LedSection::Global(_)) => 4,
        Block::Led(..) => l,
        _ => 0,
    }
}

/// The value of component `i` in the section of `block`, 0 for one that does
/// not exist.
pub open spec fn spec_block_value(c: ConfigView, block: Block, i: int) -> u16 {
    let p = c.preset();
    match block {
        Block::Button(_, s) => if 0 <= i < p.buttons.len() { p.buttons[i].spec_get(s) } else { 0 },
        Block::Encoder(_, s) => if 0 <= i < p.encoders.len() { p.encoders[i].spec_get(s) } else { 0 },
        Block::Analog(_, s) => if 0 <= i < p.analogs.len() { p.analogs[i].spec_get(s) } else { 0 },
        Block::Led(_, LedSection::Global(_)) => match LedIndex::spec_from_code(i as u16) {
            Some(li) => c.global.led.spec_get(li),
            None => 0,
        },
        Block::Led(_, s) => if 0 <= i < p.leds.len() { p.leds[i].spec_get(s) } else { 0 },
        _ => 0,
    }
}

/// The values of part `part` of a request for all values of a block: the
/// components `32 * part` up to the next 32, as far as there are any.
pub open spec fn spec_all_part(c: ConfigView, block: Block, part: u8, b: usize, a: usize, e: usize, l: usize) -> Seq<u16> {
    let start = part * PARAMS_PER_MESSAGE;
    let count = spec_component_count(block, b, a, e, l);
    let end = if start + PARAMS_PER_MESSAGE < count { start + PARAMS_PER_MESSAGE } else { count as int };
    if c.has_preset() && start < end {
        Seq::new((end - start) as nat, |k: int| spec_block_value(c, block, start + k))
    } else {
        Seq::<u16>::empty()
    }
}

/// What a request is answered with, and what it does to the configuration.
pub open spec fn spec_process_req(c: ConfigView, req: OpenDeckRequest, p: usize, b: usize, a: usize, e: usize, l: usize) -> (ConfigView, Option<OpenDeckResponse>) {
    match req {
        OpenDeckRequest::Special(special) => {
            let (r, enabled) = spec_special_response(c, special, p, b, a, e, l);
            (ConfigView { enabled, ..c }, match r { Some(s) => Some(OpenDeckResponse::Special(s)), None => None })
        },
        OpenDeckRequest::Configuration(wish, amount, block) => {
            let (c2, _, _) = spec_process_config(c, wish, amount, block);
            (c2, None)
        },
        OpenDeckRequest::ComponentInfo => (c, None),
    }
}

/// The channel that replaces the components' own when the global channel is in use.
pub open spec fn spec_channel_override(c: ConfigView) -> Option<ChannelOrAll> {
    if c.global.midi.use_global_midi_channel { Some(c.global.midi.global_midi_channel) } else { None }
}

/// What a press of button `index` does by itself, before any MIDI: a preset
/// change switches the active preset to the button's MIDI id, and the tempo
/// buttons step the tempo. `None` for a button that sends MIDI instead.
pub open spec fn spec_button_internal(c: ConfigView, index: usize, action: Action) -> Option<ConfigView> {
    if action == Action::Pressed && c.has_preset() && index < c.preset().buttons.len() {
        let b = c.preset().buttons[index as int];
        match b.message_type {
            ButtonMessageType::OpenDeckPresetChange =>
                Some(c.with_global(GlobalConfig { preset: GlobalPreset { current: b.midi_id as usize, ..c.global.preset }, ..c.global })),
            ButtonMessageType::BPMIncr => Some(ConfigView { bpm: c.bpm.spec_increment(), ..c }),
            ButtonMessageType::BPMDecr => Some(ConfigView { bpm: c.bpm.spec_decrement(), ..c }),
            _ => None,
        }
    } else {
        None
    }
}

/// What a pulse of encoder `index` does by itself, before any MIDI: a preset
/// change encoder steps the active preset within `0..p`, a tempo encoder
/// steps the tempo. `None` for an encoder that sends MIDI instead.
pub open spec fn spec_encoder_internal(c: ConfigView, index: usize, pulse: EncoderPulse, p: usize) -> Option<ConfigView> {
    if c.has_preset() && index < c.preset().encoders.len() {
        let e = c.preset().encoders[index as int];
        let cur = c.global.preset.current;
        match e.message_type {
            EncoderMessageType::PresetChange => {
                let next: usize = match pulse {
                    EncoderPulse::Clockwise => if cur + 1 < p { (cur + 1) as usize } else { cur },
                    EncoderPulse::CounterClockwise => if cur == 0 { 0 } else { (cur - 1) as usize },
                };
                Some(c.with_global(GlobalConfig { preset: GlobalPreset { current: next, ..c.global.preset }, ..c.global }))
            },
            EncoderMessageType::BPM => Some(ConfigView {
                bpm: match pulse {
                    EncoderPulse::Clockwise => c.bpm.spec_increment(),
                    EncoderPulse::CounterClockwise => c.bpm.spec_decrement(),
                },
                ..c
            }),
            _ => None,
        }
    } else {
        None
    }
}

/// Whether an output with control type `ct` follows a message that is local
/// or external, and a control change or a note. Static outputs follow all.
pub open spec fn spec_output_follows(is_local: bool, is_cc: bool, ct: ControlType) -> bool {
    ||| ct == ControlType::Static
    ||| is_local && !is_cc && (ct == ControlType::LocalNoteSingleValue || ct == ControlType::LocalNoteMultiValue)
    ||| is_local && is_cc && (ct == ControlType::LocalCcSingleValue || ct == ControlType::LocalCcMultiValue)
    ||| !is_local && !is_cc && (ct == ControlType::MidiInNoteSingleValue || ct == ControlType::MidiInNoteMultiValue)
    ||| !is_local && is_cc && (ct == ControlType::MidiInCcSingleValue || ct == ControlType::MidiInCcMultiValue)
}

/// The output after a MIDI message, and whether the message changed it.
pub open spec fn spec_update_output(led: Led, channel: u8, id: u8, value: u8, is_note_on: bool, is_local: bool, is_cc: bool) -> (Led, bool) {
    if !spec_output_follows(is_local, is_cc, led.control_type) {
        (led, false)
    } else {
        match led.spec_process_midi(channel, id, value, is_note_on) {
            OutputState::On => (Led { state: true, ..led }, true),
            OutputState::Off => (Led { state: false, ..led }, true),
            OutputState::Level(l) => (Led { level: l, state: l > 0, ..led }, true),
            OutputState::NoChange => (led, false),
        }
    }
}

/// How many of `leds` a MIDI message changes.
pub open spec fn spec_changed_count(leds: Seq<Led>, channel: u8, id: u8, value: u8, is_note_on: bool, is_local: bool, is_cc: bool) -> nat
    decreases leds.len(),
{
    if leds.len() == 0 {
        0
    } else {
        spec_changed_count(leds.drop_last(), channel, id, value, is_note_on, is_local, is_cc)
            + if spec_update_output(leds.last(), channel, id, value, is_note_on, is_local, is_cc).1 { 1nat } else { 0nat }
    }
}

/// `r` is the answer to `req` on configuration `c`: a special request gets
/// its special response (the serial number as it is stored), a configuration
/// request gets the block back with the values and amount of
/// `spec_process_config`, a component info message gets none.
pub open spec fn spec_req_answered(c: ConfigView, req: OpenDeckRequest, r: Option<OpenDeckResponse>, p: usize, b: usize, a: usize, e: usize, l: usize) -> bool {
    match req {
        OpenDeckRequest::Special(SpecialRequest::SerialNumber) =>
            r matches Some(OpenDeckResponse::Special(SpecialResponse::SerialNumber(v))) && v@ == c.serial_number,
        OpenDeckRequest::Special(_) => r == spec_process_req(c, req, p, b, a, e, l).1,
        OpenDeckRequest::Configuration(wish, amount, block) => {
            let (_, v, am) = spec_process_config(c, wish, amount, block);
            r matches Some(OpenDeckResponse::Configuration(w2, a2, b2, values)) && w2 == wish && a2 == am && b2 == block && values_view(values) == v
        },
        OpenDeckRequest::ComponentInfo => r is None,
    }
}

/// The answer to a request for all values of a block fits in one response.
pub open spec fn all_values_fit(wish: Wish, amount: Amount, block: Block, b: usize, a: usize, e: usize, l: usize) -> bool {
    wish != Wish::SetValue && amount is All ==> match block {
        Block::Button(..) => b <= PARAMS_PER_MESSAGE,
        Block::Encoder(..) => e <= PARAMS_PER_MESSAGE,
        Block::Analog(..) => a <= PARAMS_PER_MESSAGE,
        Block::Led(_, s) => s is Global || l <= PARAMS_PER_MESSAGE,
        _ => true,
    }
}

/// What the device itself has to do for a special request, beyond answering it.
#[derive(Debug, Copy, Clone, PartialEq, Eq, Structural)]
pub enum SystemAction {
    Reboot,
    Bootloader,
    FactoryReset,
}

/// The action a special request asks of the device, if any.
pub open spec fn spec_system_action(special: SpecialRequest) -> Option<SystemAction> {
    match special {
        SpecialRequest::Reboot => Some(SystemAction::Reboot),
        SpecialRequest::BootloaderMode => Some(SystemAction::Bootloader),
        SpecialRequest::FactoryReset => Some(SystemAction::FactoryReset),
        _ => None,
    }
}

/// The response to a special request, and whether a session is open after it.
pub open spec fn spec_special_response(c: ConfigView, special: SpecialRequest, p: usize, b: usize, a: usize, e: usize, l: usize) -> (Option<SpecialResponse>, bool) {
    match special {
        SpecialRequest::BootloaderMode | SpecialRequest::Reboot | SpecialRequest::Backup => (None, c.enabled),
        SpecialRequest::FactoryReset => (Some(SpecialResponse::FactoryReset), c.enabled),
        SpecialRequest::ConnectionClose => (Some(SpecialResponse::Handshake), false),
        SpecialRequest::Handshake => (Some(SpecialResponse::Handshake), true),
        SpecialRequest::ValueSize => (Some(SpecialResponse::ValueSize(c.value_size)), c.enabled),
        SpecialRequest::ValuesPerMessage => (Some(SpecialResponse::ValuesPerMessage(PARAMS_PER_MESSAGE as u8)), c.enabled),
        SpecialRequest::FirmwareVersion => (Some(SpecialResponse::FirmwareVersion(c.version)), c.enabled),
        SpecialRequest::HardwareUID => (Some(SpecialResponse::HardwareUID(HardwareUid(c.uid))), c.enabled),
        SpecialRequest::FirmwareVersionAndHardwareUUID => (Some(SpecialResponse::FirmwareVersionAndHardwareUUID(c.version, HardwareUid(c.uid))), c.enabled),
        SpecialRequest::BootloaderSupport => (Some(SpecialResponse::BootloaderSupport(true)), c.enabled),
        SpecialRequest::NrOfSupportedPresets => (Some(SpecialResponse::NrOfSupportedPresets(p)), c.enabled),
        SpecialRequest::NrOfSupportedComponents => (Some(SpecialResponse::NrOfSupportedComponents(
            NrOfSupportedComponents { buttons: b, encoders: e, analog: a, leds: l, touchscreen_buttons: 0 })), c.enabled),
        SpecialRequest::SerialNumber => (None, c.enabled),
        SpecialRequest::RestoreStart => (Some(SpecialResponse::RestoreStart), c.enabled),
        SpecialRequest::RestoreEnd => (Some(SpecialResponse::RestoreEnd), c.enabled),
    }
}

impl<const P: usize, const B: usize, const A: usize, const E: usize, const L: usize, H: SystemHandler> Config<P, B, A, E, L, H> {
    /// Holds `P` presets of the declared sizes and a serial number of at most
    /// 32 bytes.
    pub open spec fn wf(self) -> bool {
        &&& self.presets@.len() == P
        &&& forall|i: int| 0 <= i < P ==> #[trigger] self.presets@[i].wf()
        &&& self.serial_number@.len() <= 32
        &&& self.bpm.wf()
    }

    /// A device with analog inputs that read up to 4095.
    pub fn new(version: FirmwareVersion, uid: u32, handler: H) -> (r: Self)
        ensures
            r.wf(),
            r@.presets == Seq::new(P as nat, |i: int| spec_default_preset(B, A, E, L, crate::analog::MAX_ADC_VALUE)),
            r@.value_size == ValueSize::TwoBytes,
            !r@.enabled,
            r@.version == version,
            r@.uid == uid,
            r@.serial_number == Seq::<u8>::empty(),
            r@.bpm.value == crate::bpm::DEFAULT_BPM,
            r@.global.preset.current == 0,
            r@.global.midi == GlobalMidi::spec_default(),
    {
        Self::new_with_adc_max(version, uid, handler, crate::analog::MAX_ADC_VALUE)
    }

    /// A device with analog inputs that read up to `adc_max`.
    pub fn new_with_adc_max(version: FirmwareVersion, uid: u32, handler: H, adc_max: u16) -> (r: Self)
        ensures
            r.wf(),
            r@.presets == Seq::new(P as nat, |i: int| spec_default_preset(B, A, E, L, adc_max)),
            r@.value_size == ValueSize::TwoBytes,
            !r@.enabled,
            r@.version == version,
            r@.uid == uid,
            r@.serial_number == Seq::<u8>::empty(),
            r@.bpm.value == crate::bpm::DEFAULT_BPM,
            r@.global.preset.current == 0,
            r@.global.midi == GlobalMidi::spec_default(),
    {
        let mut presets: Vec<Preset<B, A, E, L>> = Vec::new();
        for i in 0..P
            invariant
                presets@.len() == i,
                forall|j: int| 0 <= j < i ==> (#[trigger] presets@[j])@ == spec_default_preset(B, A, E, L, adc_max) && presets@[j].wf(),
        {
            let p = Preset::new_with_adc_max(adc_max);
            let ghost before = presets@;
            presets.push(p);
            proof {
                assert forall|j: int| 0 <= j < i + 1 implies (#[trigger] presets@[j])@ == spec_default_preset(B, A, E, L, adc_max) && presets@[j].wf() by {
                    if j < i {
                        assert(presets@[j] == before[j]);
                    }
                }
            }
        }
        let r = Config {
            parser: OpenDeckParser::new(ValueSize::TwoBytes),
            enabled: false,
            presets,
            version,
            uid,
            serial_number: Vec::new(),
            handler,
            global: GlobalConfig::default(),
            bpm: Bpm::default(),
        };
        proof {
            assert(r@.presets =~= Seq::new(P as nat, |i: int| spec_default_preset(B, A, E, L, adc_max)));
            assert forall|i: int| 0 <= i < P implies #[trigger] r.presets@[i].wf() by {
                assert(r.presets@[i] == r.presets@[i]);
            }
        }
        r
    }

    /// Stores the first 32 bytes of `serial` as the serial number.
    pub fn set_serial_number(&mut self, serial: &[u8])
        requires old(self).wf(),
        ensures
            final(self).wf(),
            final(self)@ == (ConfigView {
                serial_number: if serial@.len() <= 32 { serial@ } else { serial@.take(32) },
                ..old(self)@
            }),
    {
        self.serial_number.clear();
        let mut i: usize = 0;
        while i < serial.len() && i < 32
            invariant
                0 <= i <= serial@.len(),
                i <= 32,
                self.serial_number@ == serial@.take(i as int),
                self.presets == old(self).presets,
                self.parser == old(self).parser,
                self.global == old(self).global,
                self.bpm == old(self).bpm,
                self.enabled == old(self).enabled,
                self.version == old(self).version,
                self.uid == old(self).uid,
            decreases serial@.len() - i,
        {
            self.serial_number.push(serial[i]);
            i += 1;
            proof { assert(self.serial_number@ =~= serial@.take(i as int)); }
        }
        proof {
            if serial@.len() <= 32 {
                assert(serial@.take(i as int) =~= serial@);
            }
        }
    }

    /// The serial number as a new vector.
    fn serial_number_copy(&self) -> (r: Vec<u8>)
        ensures r@ == self.serial_number@,
    {
        let mut r: Vec<u8> = Vec::new();
        let mut i: usize = 0;
        while i < self.serial_number.len()
            invariant
                0 <= i <= self.serial_number@.len(),
                r@ == self.serial_number@.take(i as int),
            decreases self.serial_number@.len() - i,
        {
            r.push(self.serial_number[i]);
            i += 1;
            proof { assert(r@ =~= self.serial_number@.take(i as int)); }
        }
        proof { assert(r@ =~= self.serial_number@); }
        r
    }

    /// Answers a special request, and says what the device itself has to do:
    /// reboot, enter bootloader mode or reset to factory settings. Reboot and
    /// bootloader mode get no response, a factory reset is acknowledged; a
    /// handshake opens the session and closing the connection ends it.
    pub fn process_special_req(&mut self, special: SpecialRequest) -> (r: (Option<SpecialResponse>, Option<SystemAction>))
        requires old(self).wf(),
        ensures
            final(self).wf(),
            final(self)@ == (ConfigView { enabled: spec_special_response(old(self)@, special, P, B, A, E, L).1, ..old(self)@ }),
            special == SpecialRequest::SerialNumber ==> (r.0 matches Some(SpecialResponse::SerialNumber(v)) && v@ == old(self)@.serial_number),
            special != SpecialRequest::SerialNumber ==> r.0 == spec_special_response(old(self)@, special, P, B, A, E, L).0,
            r.1 == spec_system_action(special),
    {
        let response = self.special_response(special);
        let action = match special {
            SpecialRequest::Reboot => Some(SystemAction::Reboot),
            SpecialRequest::BootloaderMode => Some(SystemAction::Bootloader),
            SpecialRequest::FactoryReset => Some(SystemAction::FactoryReset),
            _ => None,
        };
        (response, action)
    }

    /// Hands an action to the device's handler.
    pub fn perform(&self, action: SystemAction) {
        match action {
            SystemAction::Reboot => self.handler.reboot(),
            SystemAction::Bootloader => self.handler.bootloader(),
            SystemAction::FactoryReset => self.handler.factory_reset(),
        }
    }

    /// The response to a special request, and the session it leaves.
    fn special_response(&mut self, special: SpecialRequest) -> (r: Option<SpecialResponse>)
        requires old(self).wf(),
        ensures
            final(self).wf(),
            final(self)@ == (ConfigView { enabled: spec_special_response(old(self)@, special, P, B, A, E, L).1, ..old(self)@ }),
            special == SpecialRequest::SerialNumber ==> (r matches Some(SpecialResponse::SerialNumber(v)) && v@ == old(self)@.serial_number),
            special != SpecialRequest::SerialNumber ==> r == spec_special_response(old(self)@, special, P, B, A, E, L).0,
    {
        match special {
            SpecialRequest::BootloaderMode | SpecialRequest::Reboot => None,
            SpecialRequest::ConnectionClose => {
                self.enabled = false;
                Some(SpecialResponse::Handshake)
            },
            SpecialRequest::Handshake => {
                self.enabled = true;
                Some(SpecialResponse::Handshake)
            },
            SpecialRequest::ValueSize => Some(SpecialResponse::ValueSize(self.parser.value_size)),
            SpecialRequest::ValuesPerMessage => Some(SpecialResponse::ValuesPerMessage(PARAMS_PER_MESSAGE as u8)),
            SpecialRequest::FirmwareVersion => Some(SpecialResponse::FirmwareVersion(self.version)),
            SpecialRequest::HardwareUID => Some(SpecialResponse::HardwareUID(HardwareUid(self.uid))),
            SpecialRequest::FirmwareVersionAndHardwareUUID => Some(SpecialResponse::FirmwareVersionAndHardwareUUID(self.version, HardwareUid(self.uid))),
            SpecialRequest::BootloaderSupport => Some(SpecialResponse::BootloaderSupport(true)),
            SpecialRequest::NrOfSupportedPresets => Some(SpecialResponse::NrOfSupportedPresets(P)),
            SpecialRequest::NrOfSupportedComponents => Some(SpecialResponse::NrOfSupportedComponents(
                NrOfSupportedComponents { buttons: B, encoders: E, analog: A, leds: L, touchscreen_buttons: 0 })),
            SpecialRequest::FactoryReset => Some(SpecialResponse::FactoryReset),
            SpecialRequest::Backup => None,
            SpecialRequest::SerialNumber => Some(SpecialResponse::SerialNumber(self.serial_number_copy())),
            SpecialRequest::RestoreStart => Some(SpecialResponse::RestoreStart),
            SpecialRequest::RestoreEnd => Some(SpecialResponse::RestoreEnd),
        }
    }
}

/// What a device reports of itself: the number of components of each kind is
/// the number a preset of the configuration holds (and no touchscreen
/// buttons), the number of presets is the number it holds, the firmware
/// version, hardware id and value size are its own, and each message carries
/// up to 32 values. A handshake opens a session and closing the connection
/// ends it; these and a factory reset are acknowledged, and reboot and
/// bootloader mode get no answer.
pub proof fn lemma_device_report<const P: usize, const B: usize, const A: usize, const E: usize, const L: usize, H: SystemHandler>(
    config: Config<P, B, A, E, L, H>, q: int)
    requires config.wf(), 0 <= q < P,
    ensures ({
        let c = config@;
        let pr = c.presets[q];
        &&& spec_special_response(c, SpecialRequest::NrOfSupportedComponents, P, B, A, E, L).0 == Some(
            SpecialResponse::NrOfSupportedComponents(NrOfSupportedComponents {
                buttons: pr.buttons.len() as usize,
                encoders: pr.encoders.len() as usize,
                analog: pr.analogs.len() as usize,
                leds: pr.leds.len() as usize,
                touchscreen_buttons: 0,
            }))
        &&& spec_special_response(c, SpecialRequest::NrOfSupportedPresets, P, B, A, E, L).0
            == Some(SpecialResponse::NrOfSupportedPresets(c.presets.len() as usize))
        &&& spec_special_response(c, SpecialRequest::FirmwareVersion, P, B, A, E, L).0 == Some(SpecialResponse::FirmwareVersion(config.version))
        &&& spec_special_response(c, SpecialRequest::HardwareUID, P, B, A, E, L).0 == Some(SpecialResponse::HardwareUID(HardwareUid(config.uid)))
        &&& spec_special_response(c, SpecialRequest::FirmwareVersionAndHardwareUUID, P, B, A, E, L).0
            == Some(SpecialResponse::FirmwareVersionAndHardwareUUID(config.version, HardwareUid(config.uid)))
        &&& spec_special_response(c, SpecialRequest::ValueSize, P, B, A, E, L).0 == Some(SpecialResponse::ValueSize(config.parser.value_size))
        &&& spec_special_response(c, SpecialRequest::ValuesPerMessage, P, B, A, E, L).0 == Some(SpecialResponse::ValuesPerMessage(32))
        &&& spec_special_response(c, SpecialRequest::Handshake, P, B, A, E, L) == (Some(SpecialResponse::Handshake), true)
        &&& spec_special_response(c, SpecialRequest::ConnectionClose, P, B, A, E, L) == (Some(SpecialResponse::Handshake), false)
        &&& spec_special_response(c, SpecialRequest::FactoryReset, P, B, A, E, L).0 == Some(SpecialResponse::FactoryReset)
        &&& spec_special_response(c, SpecialRequest::Reboot, P, B, A, E, L).0 is None
        &&& spec_special_response(c, SpecialRequest::BootloaderMode, P, B, A, E, L).0 is None
    }),
{
    assert(config.presets@[q].wf());
}

/// The actions a device takes on its own: reboot, bootloader mode and
/// factory reset, each for its own request and no other request.
pub proof fn lemma_system_actions(special: SpecialRequest)
    ensures
        (spec_system_action(special) == Some(SystemAction::Reboot)) <==> special == SpecialRequest::Reboot,
        (spec_system_action(special) == Some(SystemAction::Bootloader)) <==> special == SpecialRequest::BootloaderMode,
        (spec_system_action(special) == Some(SystemAction::FactoryReset)) <==> special == SpecialRequest::FactoryReset,
{
}

/// Replacing one preset changes its view and no other.
pub proof fn lemma_presets_update<const B: usize, const A: usize, const E: usize, const L: usize>(
    before: Seq<Preset<B, A, E, L>>, after: Seq<Preset<B, A, E, L>>, p: int)
    requires
        0 <= p < before.len(),
        after.len() == before.len(),
        forall|q: int| 0 <= q < before.len() && q != p ==> after[q] == before[q],
    ensures
        after.map_values(|x: Preset<B, A, E, L>| x@) == before.map_values(|x: Preset<B, A, E, L>| x@).update(p, after[p]@),
{
    assert(after.map_values(|x: Preset<B, A, E, L>| x@) =~= before.map_values(|x: Preset<B, A, E, L>| x@).update(p, after[p]@));
}

/// A response holding one value.
fn one_value(v: u16) -> (r: NewValues)
    ensures values_view(r) == seq![v],
{
    let mut r = values_new();
    let _ = values_push(&mut r, v);
    proof { assert(values_view(r) =~= seq![v]); }
    r
}

impl<const P: usize, const B: usize, const A: usize, const E: usize, const L: usize, H: SystemHandler> Config<P, B, A, E, L, H> {
    /// The number of components `block` addresses.
    pub fn component_count(&self, block: &Block) -> (r: usize)
        ensures r == spec_component_count(*block, B, A, E, L),
    {
        match block {
            Block::Button(..) => B,
            Block::Encoder(..) => E,
            Block::Analog(..) => A,
            Block::Led(_, section) => match section {
                LedSection::Global(_) => 4,
                _ => L,
            },
            _ => 0,
        }
    }

    fn block_value(&self, block: Block, i: usize) -> (r: u16)
        requires self.wf(), self@.has_preset(),
        ensures r == spec_block_value(self@, block, i as int),
    {
        let p = self.global.preset.current;
        proof { assert(self.presets@[p as int]@ == self@.preset()); }
        match block {
            Block::Button(_, section) => if i < self.presets[p].buttons.len() { self.presets[p].buttons[i].get(section) } else { 0 },
            Block::Encoder(_, section) => if i < self.presets[p].encoders.len() { self.presets[p].encoders[i].get(section) } else { 0 },
            Block::Analog(_, section) => if i < self.presets[p].analogs.len() { self.presets[p].analogs[i].get(section) } else { 0 },
            Block::Led(_, LedSection::Global(_)) => match LedIndex::from_code(i as u16) {
                Some(li) => self.global.led.get(li),
                None => 0,
            },
            Block::Led(_, section) => if i < self.presets[p].leds.len() { self.presets[p].leds[i].get(section) } else { 0 },
            _ => 0,
        }
    }

    /// The values of part `part` of a request for all values of `block`.
    pub fn get_all_part(&self, wish: Wish, block: Block, part: u8) -> (r: NewValues)
        requires self.wf(),
        ensures values_view(r) == spec_all_part(self@, block, part, B, A, E, L),
    {
        let mut values = values_new();
        let start = part as usize * PARAMS_PER_MESSAGE;
        let count = self.component_count(&block);
        let end = if start + PARAMS_PER_MESSAGE < count { start + PARAMS_PER_MESSAGE } else { count };
        if self.global.preset.current < self.presets.len() && start < end {
            let mut i = start;
            while i < end
                invariant
                    start <= i <= end,
                    end - start <= PARAMS_PER_MESSAGE,
                    self.wf(),
                    self@.has_preset(),
                    values_view(values) == Seq::new((i - start) as nat, |k: int| spec_block_value(self@, block, start + k)),
                decreases end - i,
            {
                let v = self.block_value(block, i);
                let _ = values_push(&mut values, v);
                i += 1;
                proof {
                    assert(values_view(values) =~= Seq::new((i - start) as nat, |k: int| spec_block_value(self@, block, start + k)));
                }
            }
        } else {
            proof { assert(values_view(values) =~= spec_all_part(self@, block, part, B, A, E, L)); }
        }
        values
    }

    /// Answers a request: special requests by `process_special_req`, whose
    /// action, if any, goes to the handler; configuration requests by
    /// `process_config`.
    pub fn process_req(&mut self, req: OpenDeckRequest) -> (r: Option<OpenDeckResponse>)
        requires
            old(self).wf(),
            req matches OpenDeckRequest::Configuration(wish, amount, block) ==> all_values_fit(wish, amount, block, B, A, E, L),
        ensures
            final(self).wf(),
            final(self)@ == spec_process_req(old(self)@, req, P, B, A, E, L).0,
            spec_req_answered(old(self)@, req, r, P, B, A, E, L),
    {
        match req {
            OpenDeckRequest::Special(special) => {
                let (response, action) = self.process_special_req(special);
                if let Some(action) = action {
                    self.perform(action);
                }
                match response {
                    Some(res) => Some(OpenDeckResponse::Special(res)),
                    None => None,
                }
            },
            OpenDeckRequest::Configuration(wish, amount, block) => {
                let (res_values, for_amount) = self.process_config(wish, amount, block);
                Some(OpenDeckResponse::Configuration(wish, for_amount, block, res_values))
            },
            OpenDeckRequest::ComponentInfo => None,
        }
    }

    /// The messages of a press or release of button `index` of the active
    /// preset, on the global channel when it is in use and with the global
    /// note off setting. Preset change and tempo buttons act at once and send
    /// nothing; a button that does not exist sends nothing.
    pub fn handle_button(&mut self, index: usize, action: Action) -> (r: Messages<'_>)
        requires old(self).wf(),
        ensures
            final(self).wf(),
            spec_button_internal(old(self)@, index, action) matches Some(c) ==> r is Empty && final(self)@ == c,
            spec_button_internal(old(self)@, index, action) is None ==> {
                let c = old(self)@;
                let i = (index as u16) as int;
                &&& !(c.has_preset() && i < c.preset().buttons.len()) ==> r is Empty && final(self)@ == c
                &&& c.has_preset() && i < c.preset().buttons.len() ==> {
                    &&& r is Button
                    &&& *r->Button_0.button == c.preset().buttons[i]
                    &&& r->Button_0.action == action
                    &&& r->Button_0.standard_note_off == c.global.midi.standard_note_off
                    &&& r->Button_0.channel_messages == ChannelMessages::spec_new_with_multiple_messages(
                        match spec_channel_override(c) { Some(ch) => ch, None => c.preset().buttons[i].channel }, 1)
                    &&& final(self)@ == c.with_button(i, *final(r->Button_0.button))
                }
            },
    {
        let p = self.global.preset.current;
        if let Action::Pressed = action {
            if p < self.presets.len() {
                if index < self.presets[p].buttons.len() {
                    let button = &self.presets[p].buttons[index];
                    match button.message_type {
                        ButtonMessageType::OpenDeckPresetChange => {
                            let target = button.midi_id as usize;
                            self.global.preset.current = target;
                            return Messages::Empty;
                        },
                        ButtonMessageType::BPMIncr => {
                            self.bpm.increment();
                            return Messages::Empty;
                        },
                        ButtonMessageType::BPMDecr => {
                            self.bpm.decrement();
                            return Messages::Empty;
                        },
                        _ => {},
                    }
                }
            }
        }
        let channel_override = if self.global.midi.use_global_channel() {
            Some(self.global.midi.global_channel())
        } else {
            None
        };
        let standard_note_off = self.global.midi.standard_note_off();
        if p < self.presets.len() {
            let i = (index as u16) as usize;
            if i < self.presets[p].buttons.len() {
                let ghost old_presets = self.presets@;
                proof { assert(self.presets@[p as int].wf()); }
                let button = &mut self.presets[p].buttons[i];
                let m = button.handle_with_options(action, standard_note_off, channel_override);
                proof { lemma_presets_update(old_presets, after_borrow(self.presets)@, p as int); }
                return Messages::Button(m);
            }
        }
        Messages::Empty
    }

    /// The messages of analog input `index` of the active preset for a
    /// reading `value`, already scaled to the input's limits, on the global
    /// channel when it is in use. An input that does not exist sends nothing.
    pub fn handle_analog(&mut self, index: usize, value: u16) -> (r: Messages<'_>)
        requires old(self).wf(),
        ensures
            final(self).wf(),
            ({
                let c = old(self)@;
                let i = (index as u16) as int;
                &&& !(c.has_preset() && i < c.preset().analogs.len()) ==> r is Empty && final(self)@ == c
                &&& c.has_preset() && i < c.preset().analogs.len() ==> {
                    &&& r is Analog
                    &&& *r->Analog_0.analog == c.preset().analogs[i]
                    &&& r->Analog_0.value == value
                    &&& r->Analog_0.channel_messages == ChannelMessages::spec_new_with_multiple_messages(
                        match spec_channel_override(c) { Some(ch) => ch, None => c.preset().analogs[i].channel },
                        spec_analog_nr_of_messages(c.preset().analogs[i].message_type))
                    &&& final(self)@ == c.with_analog(i, *final(r->Analog_0.analog))
                }
            }),
    {
        let p = self.global.preset.current;
        let channel_override = if self.global.midi.use_global_channel() {
            Some(self.global.midi.global_channel())
        } else {
            None
        };
        if p < self.presets.len() {
            let i = (index as u16) as usize;
            if i < self.presets[p].analogs.len() {
                let ghost old_presets = self.presets@;
                proof { assert(self.presets@[p as int].wf()); }
                let analog = &mut self.presets[p].analogs[i];
                let m = AnalogMessages::new_with_channel(analog, value, channel_override);
                proof { lemma_presets_update(old_presets, after_borrow(self.presets)@, p as int); }
                return Messages::Analog(m);
            }
        }
        Messages::Empty
    }

    /// The messages of a pulse of encoder `index` of the active preset, on
    /// the global channel when it is in use. Preset change and tempo encoders
    /// act at once and send nothing; an encoder that does not exist sends nothing.
    pub fn handle_encoder(&mut self, index: usize, pulse: EncoderPulse) -> (r: Messages<'_>)
        requires old(self).wf(),
        ensures
            final(self).wf(),
            spec_encoder_internal(old(self)@, index, pulse, P) matches Some(c) ==> r is Empty && final(self)@ == c,
            spec_encoder_internal(old(self)@, index, pulse, P) is None ==> {
                let c = old(self)@;
                let i = (index as u16) as int;
                &&& !(c.has_preset() && i < c.preset().encoders.len()) ==> r is Empty && final(self)@ == c
                &&& c.has_preset() && i < c.preset().encoders.len() ==> {
                    let e = c.preset().encoders[i];
                    &&& r is Encoder
                    &&& *r->Encoder_0.encoder == e
                    &&& r->Encoder_0.pulse == (if e.inverted { pulse.spec_invert() } else { pulse })
                    &&& r->Encoder_0.channel_messages == ChannelMessages::spec_new_with_multiple_messages(
                        match spec_channel_override(c) { Some(ch) => ch, None => e.channel },
                        spec_encoder_nr_of_messages(e.message_type))
                    &&& final(self)@ == c.with_encoder(i, *final(r->Encoder_0.encoder))
                }
            },
    {
        let p = self.global.preset.current;
        if p < self.presets.len() {
            if index < self.presets[p].encoders.len() {
                match self.presets[p].encoders[index].message_type {
                    EncoderMessageType::PresetChange => {
                        match pulse {
                            EncoderPulse::Clockwise => {
                                if self.global.preset.current + 1 < P {
                                    self.global.preset.current += 1;
                                }
                            },
                            EncoderPulse::CounterClockwise => {
                                self.global.preset.current = self.global.preset.current.saturating_sub(1);
                            },
                        }
                        return Messages::Empty;
                    },
                    EncoderMessageType::BPM => {
                        match pulse {
                            EncoderPulse::Clockwise => self.bpm.increment(),
                            EncoderPulse::CounterClockwise => self.bpm.decrement(),
                        }
                        return Messages::Empty;
                    },
                    _ => {},
                }
            }
        }
        let channel_override = if self.global.midi.use_global_channel() {
            Some(self.global.midi.global_channel())
        } else {
            None
        };
        if p < self.presets.len() {
            let i = (index as u16) as usize;
            if i < self.presets[p].encoders.len() {
                let ghost old_presets = self.presets@;
                proof { assert(self.presets@[p as int].wf()); }
                let encoder = &mut self.presets[p].encoders[i];
                let m = encoder.handle_with_channel(pulse, channel_override);
                proof { lemma_presets_update(old_presets, after_borrow(self.presets)@, p as int); }
                return Messages::Encoder(m);
            }
        }
        Messages::Empty
    }

    /// Tells the outputs of the active preset that a local MIDI message was made;
    /// outputs driven locally follow it. Returns how many outputs changed.
    pub fn notify_local_midi(&mut self, channel: u8, id: u8, value: u8, is_note_on: bool, is_cc: bool) -> (r: usize)
        requires old(self).wf(),
        ensures
            final(self).wf(),
            !old(self)@.has_preset() ==> r == 0 && final(self)@ == old(self)@,
            old(self)@.has_preset() ==> {
                let leds = old(self)@.preset().leds;
                &&& r == spec_changed_count(leds, channel, id, value, is_note_on, true, is_cc)
                &&& final(self)@ == old(self)@.with_preset(PresetView {
                        leds: leds.map_values(|l: Led| spec_update_output(l, channel, id, value, is_note_on, true, is_cc).0),
                        ..old(self)@.preset()
                    })
            },
    {
        self.update_outputs(channel, id, value, is_note_on, true, is_cc)
    }

    /// Tells the outputs of the active preset that an external MIDI message
    /// arrived; outputs driven by MIDI in follow it. Returns how many outputs changed.
    pub fn notify_external_midi(&mut self, channel: u8, id: u8, value: u8, is_note_on: bool, is_cc: bool) -> (r: usize)
        requires old(self).wf(),
        ensures
            final(self).wf(),
            !old(self)@.has_preset() ==> r == 0 && final(self)@ == old(self)@,
            old(self)@.has_preset() ==> {
                let leds = old(self)@.preset().leds;
                &&& r == spec_changed_count(leds, channel, id, value, is_note_on, false, is_cc)
                &&& final(self)@ == old(self)@.with_preset(PresetView {
                        leds: leds.map_values(|l: Led| spec_update_output(l, channel, id, value, is_note_on, false, is_cc).0),
                        ..old(self)@.preset()
                    })
            },
    {
        self.update_outputs(channel, id, value, is_note_on, false, is_cc)
    }

    fn update_outputs(&mut self, channel: u8, id: u8, value: u8, is_note_on: bool, is_local: bool, is_cc: bool) -> (r: usize)
        requires old(self).wf(),
        ensures
            final(self).wf(),
            !old(self)@.has_preset() ==> r == 0 && final(self)@ == old(self)@,
            old(self)@.has_preset() ==> {
                let leds = old(self)@.preset().leds;
                &&& r == spec_changed_count(leds, channel, id, value, is_note_on, is_local, is_cc)
                &&& final(self)@ == old(self)@.with_preset(PresetView {
                        leds: leds.map_values(|l: Led| spec_update_output(l, channel, id, value, is_note_on, is_local, is_cc).0),
                        ..old(self)@.preset()
                    })
            },
    {
        let p = self.global.preset.current;
        if p >= self.presets.len() {
            return 0;
        }
        let ghost old_presets = self.presets@;
        let ghost old_leds = self.presets@[p as int].leds@;
        proof { assert(self.presets@[p as int].wf()); }
        let n = self.presets[p].leds.len();
        let mut count: usize = 0;
        let mut i: usize = 0;
        while i < n
            invariant
                0 <= i <= n,
                p < self.presets@.len(),
                n == old_leds.len(),
                p == self.global.preset.current,
                self.presets@.len() == old_presets.len(),
                forall|q: int| 0 <= q < old_presets.len() && q != p ==> self.presets@[q] == old_presets[q],
                self.presets@[p as int].buttons@ == old_presets[p as int].buttons@,
                self.presets@[p as int].encoders@ == old_presets[p as int].encoders@,
                self.presets@[p as int].analogs@ == old_presets[p as int].analogs@,
                old_leds == old_presets[p as int].leds@,
                self.presets@[p as int].leds@ == Seq::new(n as nat, |j: int|
                    if j < i { spec_update_output(old_leds[j], channel, id, value, is_note_on, is_local, is_cc).0 } else { old_leds[j] }),
                count == spec_changed_count(old_leds.take(i as int), channel, id, value, is_note_on, is_local, is_cc),
                count <= i,
                self.parser == old(self).parser,
                self.global == old(self).global,
                self.bpm == old(self).bpm,
                self.enabled == old(self).enabled,
                self.version == old(self).version,
                self.uid == old(self).uid,
                self.serial_number == old(self).serial_number,
            decreases n - i,
        {
            let led = &mut self.presets[p].leds[i];
            let ct = led.get_control_type();
            let follows = match ct {
                ControlType::Static => true,
                ControlType::LocalNoteSingleValue | ControlType::LocalNoteMultiValue => is_local && !is_cc,
                ControlType::LocalCcSingleValue | ControlType::LocalCcMultiValue => is_local && is_cc,
                ControlType::MidiInNoteSingleValue | ControlType::MidiInNoteMultiValue => !is_local && !is_cc,
                ControlType::MidiInCcSingleValue | ControlType::MidiInCcMultiValue => !is_local && is_cc,
                _ => false,
            };
            if follows {
                match led.process_midi(channel, id, value, is_note_on) {
                    OutputState::On => {
                        led.set_state(true);
                        count += 1;
                    },
                    OutputState::Off => {
                        led.set_state(false);
                        count += 1;
                    },
                    OutputState::Level(l) => {
                        led.set_level(l);
                        led.set_state(l > 0);
                        count += 1;
                    },
                    OutputState::NoChange => {},
                }
            }
            proof {
                assert(old_leds.take((i + 1) as int).drop_last() =~= old_leds.take(i as int));
            }
            i += 1;
            proof {
                assert(self.presets@[p as int].leds@ =~= Seq::new(n as nat, |j: int|
                    if j < i { spec_update_output(old_leds[j], channel, id, value, is_note_on, is_local, is_cc).0 } else { old_leds[j] }));
            }
        }
        proof {
            assert(old_leds.take(i as int) =~= old_leds);
            lemma_presets_update(old_presets, self.presets@, p as int);
            assert(self.presets@[p as int].leds@ =~= old_leds.map_values(|l: Led| spec_update_output(l, channel, id, value, is_note_on, is_local, is_cc).0));
            assert(old(self)@.preset() == old_presets[p as int]@);
            assert forall|q: int| 0 <= q < P implies #[trigger] self.presets@[q].wf() by {
                assert(old_presets[q].wf());
            }
        }
        count
    }

    /// The active preset, if it exists.
    pub fn current_preset(&self) -> (r: Option<&Preset<B, A, E, L>>)
        ensures
            r is Some <==> self@.has_preset(),
            r is Some ==> r->Some_0@ == self@.preset(),
            r is Some && self.wf() ==> r->Some_0.wf(),
    {
        let p = self.global.preset.current;
        if p < self.presets.len() { Some(&self.presets[p]) } else { None }
    }

    /// The active preset, for changing, if it exists.
    pub fn current_preset_mut(&mut self) -> (r: Option<&mut Preset<B, A, E, L>>)
        ensures
            r is Some <==> old(self)@.has_preset(),
            r is None ==> final(self)@ == old(self)@,
            r is Some ==> r->Some_0@ == old(self)@.preset()
                && final(self)@ == old(self)@.with_preset(final(r->Some_0)@),
    {
        let p = self.global.preset.current;
        if p < self.presets.len() {
            let ghost old_presets = self.presets@;
            let pr = &mut self.presets[p];
            proof { lemma_presets_update(old_presets, after_borrow(self.presets)@, p as int); }
            Some(pr)
        } else {
            None
        }
    }

    /// Whether output `index` of the active preset is on; false when it does not exist.
    pub fn output_state(&self, index: usize) -> (r: bool)
        ensures r == (self@.has_preset() && index < self@.preset().leds.len() && self@.preset().leds[index as int].state),
    {
        let p = self.global.preset.current;
        if p < self.presets.len() && index < self.presets[p].leds.len() {
            self.presets[p].leds[index].is_on()
        } else {
            false
        }
    }

    /// The level of output `index` of the active preset; 0 when it does not exist.
    pub fn output_level(&self, index: usize) -> (r: u8)
        ensures r == (if self@.has_preset() && index < self@.preset().leds.len() { self@.preset().leds[index as int].level } else { 0 }),
    {
        let p = self.global.preset.current;
        if p < self.presets.len() && index < self.presets[p].leds.len() {
            self.presets[p].leds[index].get_level()
        } else {
            0
        }
    }

    /// The control type of output `index` of the active preset; the default
    /// when it does not exist.
    pub fn output_control_type(&self, index: usize) -> (r: ControlType)
        ensures r == (if self@.has_preset() && index < self@.preset().leds.len() { self@.preset().leds[index as int].control_type } else { ControlType::MidiInNoteSingleValue }),
    {
        let p = self.global.preset.current;
        if p < self.presets.len() && index < self.presets[p].leds.len() {
            self.presets[p].leds[index].get_control_type()
        } else {
            ControlType::default()
        }
    }

    /// The colour of output `index` of the active preset; off when it does not exist.
    pub fn output_color(&self, index: usize) -> (r: crate::led::Color)
        ensures r == (if self@.has_preset() && index < self@.preset().leds.len() { self@.preset().leds[index as int].color } else { crate::led::Color::Off }),
    {
        let p = self.global.preset.current;
        if p < self.presets.len() && index < self.presets[p].leds.len() {
            self.presets[p].leds[index].get_color()
        } else {
            crate::led::Color::default()
        }
    }

    /// Sets the colour of output `index` of the active preset, if it exists.
    pub fn set_output_color(&mut self, index: usize, color: crate::led::Color)
        requires old(self).wf(),
        ensures
            final(self).wf(),
            final(self)@ == (if old(self)@.has_preset() && index < old(self)@.preset().leds.len() {
                old(self)@.with_led(index as int, Led { color, ..old(self)@.preset().leds[index as int] })
            } else {
                old(self)@
            }),
    {
        let p = self.global.preset.current;
        if p < self.presets.len() && index < self.presets[p].leds.len() {
            let ghost old_presets = self.presets@;
            proof { assert(self.presets@[p as int].wf()); }
            self.presets[p].leds[index].set_color(color);
            proof {
                lemma_presets_update(old_presets, self.presets@, p as int);
                assert forall|q: int| 0 <= q < P implies #[trigger] self.presets@[q].wf() by {
                    assert(old_presets[q].wf());
                }
            }
        }
    }

    /// The number of outputs of the active preset; 0 when it does not exist.
    pub fn output_count(&self) -> (r: usize)
        ensures r == (if self@.has_preset() { self@.preset().leds.len() } else { 0 }),
    {
        let p = self.global.preset.current;
        if p < self.presets.len() {
            self.presets[p].leds.len()
        } else {
            0
        }
    }

    /// The global MIDI settings.
    pub fn global_midi(&self) -> (r: &GlobalMidi)
        ensures *r == self.global.midi,
    {
        &self.global.midi
    }

    /// The global output settings.
    pub fn global_led(&self) -> (r: &GlobalLed)
        ensures *r == self.global.led,
    {
        &self.global.led
    }

    /// Whether a SysEx session is open.
    pub fn sysex_enabled(&self) -> (r: bool)
        ensures r == self.enabled,
    {
        self.enabled
    }

    pub fn active_preset(&self) -> (r: usize)
        ensures r == self.global.preset.current,
    {
        self.global.preset.current
    }

    /// Makes preset `index` the active one.
    pub fn set_active_preset(&mut self, index: usize)
        requires old(self).wf(),
        ensures
            final(self).wf(),
            final(self)@ == old(self)@.with_global(GlobalConfig { preset: GlobalPreset { current: index, ..old(self)@.global.preset }, ..old(self)@.global }),
    {
        self.global.preset.current = index;
    }

    pub fn bpm(&self) -> (r: &Bpm)
        ensures *r == self.bpm,
    {
        &self.bpm
    }

    /// Answers a configuration request on the active preset: a set changes
    /// the configuration and answers no values, a get or backup answers the
    /// value of one component or, for `All`, of every component of its kind.
    #[verifier::rlimit(60)]
    pub fn process_config(&mut self, wish: Wish, amount: Amount, block: Block) -> (r: (NewValues, Amount))
        requires
            old(self).wf(),
            all_values_fit(wish, amount, block, B, A, E, L),
        ensures
            final(self).wf(),
            ({
                let (c, v, a) = spec_process_config(old(self)@, wish, amount, block);
                &&& final(self)@ == c
                &&& values_view(r.0) == v
                &&& r.1 == a
            }),
    {
        let mut res_values = values_new();
        let mut for_amount = amount;
        let p = self.global.preset.current;
        if p >= self.presets.len() {
            return (res_values, for_amount);
        }
        let ghost old_presets = self.presets@;
        proof { assert(self.presets@[p as int].wf()); }
        let set = match wish {
            Wish::SetValue => true,
            _ => false,
        };
        match block {
            Block::Global(GlobalSection::Midi(i, value)) => {
                if set {
                    self.global.midi.set(i, value);
                } else {
                    res_values = one_value(self.global.midi.get(i));
                }
            },
            Block::Global(GlobalSection::Presets(i, value)) => {
                if set {
                    self.global.preset.set(i, value);
                } else {
                    res_values = one_value(self.global.preset.get(i));
                }
            },
            Block::Button(index, section) => {
                let n = self.presets[p].buttons.len();
                if set {
                    if (index as usize) < n {
                        self.presets[p].buttons[index as usize].set(section);
                        proof { lemma_presets_update(old_presets, self.presets@, p as int); }
                    }
                } else {
                    match amount {
                        Amount::Single => {
                            if (index as usize) < n {
                                res_values = one_value(self.presets[p].buttons[index as usize].get(section));
                            }
                        },
                        Amount::All(_) => {
                            let mut i: usize = 0;
                            while i < n
                                invariant
                                    0 <= i <= n,
                                    n == self.presets@[p as int].buttons@.len(),
                                    n <= PARAMS_PER_MESSAGE,
                                    p < self.presets@.len(),
                                    values_view(res_values) == self.presets@[p as int].buttons@.take(i as int).map_values(|x: Button| x.spec_get(section)),
                                decreases n - i,
                            {
                                let v = self.presets[p].buttons[i].get(section);
                                let _ = values_push(&mut res_values, v);
                                i += 1;
                                proof {
                                    assert(values_view(res_values) =~= self.presets@[p as int].buttons@.take(i as int).map_values(|x: Button| x.spec_get(section)));
                                }
                            }
                            proof {
                                assert(self.presets@[p as int].buttons@.take(i as int) =~= self.presets@[p as int].buttons@);
                            }
                            for_amount = Amount::All(0);
                        },
                    }
                }
            },
            Block::Encoder(index, section) => {
                let n = self.presets[p].encoders.len();
                if set {
                    if (index as usize) < n {
                        self.presets[p].encoders[index as usize].set(section);
                        proof { lemma_presets_update(old_presets, self.presets@, p as int); }
                    }
                } else {
                    match amount {
                        Amount::Single => {
                            if (index as usize) < n {
                                res_values = one_value(self.presets[p].encoders[index as usize].get(section));
                            }
                        },
                        Amount::All(_) => {
                            let mut i: usize = 0;
                            while i < n
                                invariant
                                    0 <= i <= n,
                                    n == self.presets@[p as int].encoders@.len(),
                                    n <= PARAMS_PER_MESSAGE,
                                    p < self.presets@.len(),
                                    values_view(res_values) == self.presets@[p as int].encoders@.take(i as int).map_values(|x: Encoder| x.spec_get(section)),
                                decreases n - i,
                            {
                                let v = self.presets[p].encoders[i].get(section);
                                let _ = values_push(&mut res_values, v);
                                i += 1;
                                proof {
                                    assert(values_view(res_values) =~= self.presets@[p as int].encoders@.take(i as int).map_values(|x: Encoder| x.spec_get(section)));
                                }
                            }
                            proof {
                                assert(self.presets@[p as int].encoders@.take(i as int) =~= self.presets@[p as int].encoders@);
                            }
                            for_amount = Amount::All(0);
                        },
                    }
                }
            },
            Block::Analog(index, section) => {
                let n = self.presets[p].analogs.len();
                if set {
                    if (index as usize) < n {
                        self.presets[p].analogs[index as usize].set(section);
                        proof { lemma_presets_update(old_presets, self.presets@, p as int); }
                    }
                } else {
                    match amount {
                        Amount::Single => {
                            if (index as usize) < n {
                                res_values = one_value(self.presets[p].analogs[index as usize].get(section));
                            }
                        },
                        Amount::All(_) => {
                            let mut i: usize = 0;
                            while i < n
                                invariant
                                    0 <= i <= n,
                                    n == self.presets@[p as int].analogs@.len(),
                                    n <= PARAMS_PER_MESSAGE,
                                    p < self.presets@.len(),
                                    values_view(res_values) == self.presets@[p as int].analogs@.take(i as int).map_values(|x: Analog| x.spec_get(section)),
                                decreases n - i,
                            {
                                let v = self.presets[p].analogs[i].get(section);
                                let _ = values_push(&mut res_values, v);
                                i += 1;
                                proof {
                                    assert(values_view(res_values) =~= self.presets@[p as int].analogs@.take(i as int).map_values(|x: Analog| x.spec_get(section)));
                                }
                            }
                            proof {
                                assert(self.presets@[p as int].analogs@.take(i as int) =~= self.presets@[p as int].analogs@);
                            }
                            for_amount = Amount::All(0);
                        },
                    }
                }
            },
            Block::Led(index, LedSection::Global(value)) => {
                match LedIndex::from_code(index) {
                    Some(li) => {
                        if set {
                            self.global.led.set(li, value);
                        } else {
                            res_values = one_value(self.global.led.get(li));
                        }
                    },
                    None => {},
                }
            },
            Block::Led(index, section) => {
                let n = self.presets[p].leds.len();
                if set {
                    if (index as usize) < n {
                        self.presets[p].leds[index as usize].set(section);
                        proof { lemma_presets_update(old_presets, self.presets@, p as int); }
                    }
                } else {
                    match amount {
                        Amount::Single => {
                            if (index as usize) < n {
                                res_values = one_value(self.presets[p].leds[index as usize].get(section));
                            }
                        },
                        Amount::All(_) => {
                            let mut i: usize = 0;
                            while i < n
                                invariant
                                    0 <= i <= n,
                                    n == self.presets@[p as int].leds@.len(),
                                    n <= PARAMS_PER_MESSAGE,
                                    p < self.presets@.len(),
                                    values_view(res_values) == self.presets@[p as int].leds@.take(i as int).map_values(|x: Led| x.spec_get(section)),
                                decreases n - i,
                            {
                                let v = self.presets[p].leds[i].get(section);
                                let _ = values_push(&mut res_values, v);
                                i += 1;
                                proof {
                                    assert(values_view(res_values) =~= self.presets@[p as int].leds@.take(i as int).map_values(|x: Led| x.spec_get(section)));
                                }
                            }
                            proof {
                                assert(self.presets@[p as int].leds@.take(i as int) =~= self.presets@[p as int].leds@);
                            }
                            for_amount = Amount::All(0);
                        },
                    }
                }
            },
            Block::Display | Block::Touchscreen => {},
        }
        (res_values, for_amount)
    }
}

} // verus!
