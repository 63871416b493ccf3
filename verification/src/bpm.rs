//! Tempo for the MIDI clock.
//!
//! Buttons and encoders adjust the tempo; the firmware schedules the clock
//! messages (0xF8) at 24 per quarter note from `tick_interval_us`.
use vstd::prelude::*;

verus! {

pub const MIN_BPM: u16 = 30;
pub const MAX_BPM: u16 = 300;
pub const DEFAULT_BPM: u16 = 120;

/// `bpm` held within the supported range.
pub open spec fn spec_clamp_bpm(bpm: u16) -> u16 {
    if bpm < MIN_BPM { MIN_BPM } else if bpm > MAX_BPM { MAX_BPM } else { bpm }
}

/// A tempo in beats per minute, always within `MIN_BPM..=MAX_BPM`.
#[derive(Debug, Copy, Clone, PartialEq, Eq, Structural)]
pub struct Bpm {
    pub value: u16,
}

impl Default for Bpm {
    fn default() -> (r: Self)
        ensures r.value == DEFAULT_BPM, r.wf(),
    {
        Self { value: DEFAULT_BPM }
    }
}

impl Bpm {
    pub open spec fn wf(self) -> bool {
        MIN_BPM <= self.value <= MAX_BPM
    }

    /// Microseconds between two clock messages at this tempo.
    pub open spec fn spec_tick_interval_us(self) -> u32 {
        (60_000_000int / (self.value as int * 24)) as u32
    }

    /// One beat per minute faster, held within the supported range.
    pub open spec fn spec_increment(self) -> Bpm {
        Bpm { value: spec_clamp_bpm(if self.value == u16::MAX { u16::MAX } else { (self.value + 1) as u16 }) }
    }

    /// One beat per minute slower, held within the supported range.
    pub open spec fn spec_decrement(self) -> Bpm {
        Bpm { value: spec_clamp_bpm(if self.value == 0 { 0 } else { (self.value - 1) as u16 }) }
    }

    /// A tempo of `bpm`, held within the supported range.
    pub fn new(bpm: u16) -> (r: Self)
        ensures r.value == spec_clamp_bpm(bpm), r.wf(),
    {
        Self { value: clamp(bpm) }
    }

    pub fn get(&self) -> (r: u16)
        ensures r == self.value,
    {
        self.value
    }

    /// Sets the tempo, held within the supported range.
    pub fn set(&mut self, bpm: u16)
        ensures final(self).value == spec_clamp_bpm(bpm), final(self).wf(),
    {
        self.value = clamp(bpm);
    }

    /// One beat per minute faster, up to the maximum.
    pub fn increment(&mut self)
        ensures *final(self) == old(self).spec_increment(), final(self).wf(),
    {
        let v = self.value.saturating_add(1);
        self.set(v);
    }

    /// One beat per minute slower, down to the minimum.
    pub fn decrement(&mut self)
        ensures *final(self) == old(self).spec_decrement(), final(self).wf(),
    {
        let v = self.value.saturating_sub(1);
        self.set(v);
    }

    /// The interval in microseconds between MIDI clock messages, at 24 pulses
    /// per quarter note.
    pub fn tick_interval_us(&self) -> (r: u32)
        requires self.wf(),
        ensures r == self.spec_tick_interval_us(),
    {
        60_000_000 / (self.value as u32 * 24)
    }
}

fn clamp(bpm: u16) -> (r: u16)
    ensures r == spec_clamp_bpm(bpm),
{
    if bpm < MIN_BPM {
        MIN_BPM
    } else if bpm > MAX_BPM {
        MAX_BPM
    } else {
        bpm
    }
}

/// A step from a tempo in range stays in range and moves by at most one:
/// up unless at the maximum, down unless at the minimum.
pub proof fn lemma_bpm_step(b: Bpm)
    requires b.wf(),
    ensures
        spec_clamp_bpm((b.value + 1) as u16) == if b.value == MAX_BPM { MAX_BPM } else { (b.value + 1) as u16 },
        spec_clamp_bpm((b.value - 1) as u16) == if b.value == MIN_BPM { MIN_BPM } else { (b.value - 1) as u16 },
{
}

} // verus!
