//! Pieces shared by the component handlers: the walk over the channels and
//! message indices of one event, and the splitting of 14 bit values.
use vstd::prelude::*;
use crate::analog::handler::AnalogMessages;
use crate::button::handler::ButtonMessages;
use crate::channel::ChannelOrAll;
use crate::encoder::handler::EncoderMessages;
use crate::midi::BufferTooSmall;

verus! {

/// Walks the (channel, message index) pairs of one event: every channel of
/// `channel_or_all` (channel 0 when there is none), and for each channel the
/// indices `0..nr_of_messages`.
#[derive(Debug, Clone)]
pub struct ChannelMessages {
    pub channel_or_all: ChannelOrAll,
    pub nr_of_messages: usize,
    pub current_channel: i8,
    pub index: usize,
}

impl ChannelMessages {
    /// The state can take another step without a panic or an overflow.
    pub open spec fn wf(self) -> bool {
        &&& self.channel_or_all.wf()
        &&& 0 <= self.current_channel <= 16
        &&& self.index < usize::MAX
    }

    /// One step: the state after it and the pair it yields.
    pub open spec fn spec_next(self) -> (ChannelMessages, Option<(u8, usize)>) {
        match self.channel_or_all {
            ChannelOrAll::All => {
                if self.current_channel < 16 {
                    let item = (self.current_channel as u8, self.index);
                    if self.index + 1 == self.nr_of_messages {
                        (ChannelMessages { index: 0, current_channel: (self.current_channel + 1) as i8, ..self }, Some(item))
                    } else {
                        (ChannelMessages { index: (self.index + 1) as usize, ..self }, Some(item))
                    }
                } else {
                    (self, None)
                }
            },
            ChannelOrAll::Channel(c) => {
                if self.index < self.nr_of_messages {
                    (ChannelMessages { index: (self.index + 1) as usize, ..self }, Some((c, self.index)))
                } else {
                    (self, None)
                }
            },
            ChannelOrAll::NoChannel => {
                if self.index < self.nr_of_messages {
                    (ChannelMessages { index: (self.index + 1) as usize, ..self }, Some((0u8, self.index)))
                } else {
                    (self, None)
                }
            },
        }
    }

    pub open spec fn spec_new_with_multiple_messages(channel_or_all: ChannelOrAll, nr_of_messages: usize) -> ChannelMessages {
        ChannelMessages { channel_or_all, nr_of_messages, current_channel: 0, index: 0 }
    }

    pub fn new_with_multiple_messages(channel_or_all: ChannelOrAll, nr_of_messages: usize) -> (r: Self)
        ensures r == Self::spec_new_with_multiple_messages(channel_or_all, nr_of_messages),
    {
        Self { channel_or_all, nr_of_messages, current_channel: 0, index: 0 }
    }

    pub fn new(channel_or_all: ChannelOrAll) -> (r: Self)
        ensures r == Self::spec_new_with_multiple_messages(channel_or_all, 1),
    {
        Self { channel_or_all, nr_of_messages: 1, current_channel: 0, index: 0 }
    }

    /// The next (channel, message index) pair, if any.
    pub fn next(&mut self) -> (r: Option<(u8, usize)>)
        requires old(self).wf(),
        ensures
            (*final(self), r) == old(self).spec_next(),
            final(self).wf() || final(self).index == usize::MAX,
            r matches Some(item) ==> item.0 < 16,
    {
        match self.channel_or_all {
            ChannelOrAll::All => {
                if self.current_channel < 16 {
                    let r = Some((self.current_channel as u8, self.index));
                    self.index += 1;
                    if self.index == self.nr_of_messages {
                        self.index = 0;
                        self.current_channel += 1;
                    }
                    r
                } else {
                    None
                }
            },
            ChannelOrAll::Channel(c) => {
                if self.index < self.nr_of_messages {
                    let r = Some((c, self.index));
                    self.index += 1;
                    r
                } else {
                    None
                }
            },
            ChannelOrAll::NoChannel => {
                if self.index < self.nr_of_messages {
                    let r = Some((0u8, self.index));
                    self.index += 1;
                    r
                } else {
                    None
                }
            },
        }
    }
}

/// How many (channel, message index) pairs a walk over `c` with `n` messages
/// per channel yields.
pub open spec fn spec_channel_pair_count(c: ChannelOrAll, n: usize) -> int {
    match c {
        ChannelOrAll::All => 16 * n,
        _ => n as int,
    }
}

/// The pair at place `p` of that walk: channels in turn, and for each the
/// message indices in turn.
pub open spec fn spec_channel_pair(c: ChannelOrAll, n: usize, p: int) -> (u8, usize) {
    match c {
        ChannelOrAll::All => ((p / n as int) as u8, (p % n as int) as usize),
        ChannelOrAll::Channel(k) => (k, p as usize),
        ChannelOrAll::NoChannel => (0u8, p as usize),
    }
}

/// What the `k` steps from `it` yield, in order.
pub open spec fn spec_channel_steps(it: ChannelMessages, k: nat) -> Seq<Option<(u8, usize)>>
    decreases k,
{
    if k == 0 {
        Seq::<Option<(u8, usize)>>::empty()
    } else {
        seq![it.spec_next().1] + spec_channel_steps(it.spec_next().0, (k - 1) as nat)
    }
}

/// The walk after `p` steps.
pub open spec fn spec_channel_state(c: ChannelOrAll, n: usize, p: int) -> ChannelMessages {
    let q = if p < spec_channel_pair_count(c, n) { p } else { spec_channel_pair_count(c, n) };
    match c {
        ChannelOrAll::All => ChannelMessages {
            channel_or_all: c, nr_of_messages: n, current_channel: (q / n as int) as i8, index: (q % n as int) as usize,
        },
        _ => ChannelMessages { channel_or_all: c, nr_of_messages: n, current_channel: 0, index: q as usize },
    }
}

/// One step of the walk from place `p`.
proof fn lemma_channel_state_step(c: ChannelOrAll, n: usize, p: int)
    requires 0 <= p, c is All ==> n > 0,
    ensures
        spec_channel_state(c, n, p).spec_next() == (spec_channel_state(c, n, p + 1),
            if p < spec_channel_pair_count(c, n) { Some(spec_channel_pair(c, n, p)) } else { None::<(u8, usize)> }),
{
    if c is All {
        let d = n as int;
        assert(0 <= 16 * d) by (nonlinear_arith) requires d > 0;
        if p < 16 * d {
            let ch = p / d;
            let i = p % d;
            vstd::arithmetic::div_mod::lemma_fundamental_div_mod(p, d);
            assert(0 <= i < d) by { vstd::arithmetic::div_mod::lemma_mod_bound(p, d); }
            assert(0 <= ch < 16) by (nonlinear_arith) requires p == d * ch + i, 0 <= i < d, 0 <= p < 16 * d, d > 0;
            if i + 1 == d {
                assert(p + 1 == (ch + 1) * d + 0) by (nonlinear_arith) requires p == d * ch + i, i + 1 == d;
                vstd::arithmetic::div_mod::lemma_fundamental_div_mod_converse(p + 1, d, ch + 1, 0);
                assert(p + 1 <= 16 * d) by (nonlinear_arith) requires p + 1 == (ch + 1) * d, ch < 16, d > 0;
            } else {
                assert(p + 1 == ch * d + (i + 1)) by (nonlinear_arith) requires p == d * ch + i;
                vstd::arithmetic::div_mod::lemma_fundamental_div_mod_converse(p + 1, d, ch, i + 1);
            }
        } else {
            assert(16 * d == 16 * d + 0);
            vstd::arithmetic::div_mod::lemma_fundamental_div_mod_converse(16 * d, d, 16, 0);
        }
    }
}

/// The `k` steps from place `p` yield the pairs at places `p`, `p + 1`, ...,
/// and nothing past the last.
proof fn lemma_channel_steps_from(c: ChannelOrAll, n: usize, p: int, k: nat)
    requires 0 <= p, c is All ==> n > 0,
    ensures
        spec_channel_steps(spec_channel_state(c, n, p), k) == Seq::new(k, |j: int|
            if p + j < spec_channel_pair_count(c, n) { Some(spec_channel_pair(c, n, p + j)) } else { None::<(u8, usize)> }),
    decreases k,
{
    if k > 0 {
        lemma_channel_state_step(c, n, p);
        lemma_channel_steps_from(c, n, p + 1, (k - 1) as nat);
        assert(spec_channel_steps(spec_channel_state(c, n, p), k) =~= Seq::new(k, |j: int|
            if p + j < spec_channel_pair_count(c, n) { Some(spec_channel_pair(c, n, p + j)) } else { None::<(u8, usize)> }));
    } else {
        assert(spec_channel_steps(spec_channel_state(c, n, p), k) =~= Seq::new(k, |j: int|
            if p + j < spec_channel_pair_count(c, n) { Some(spec_channel_pair(c, n, p + j)) } else { None::<(u8, usize)> }));
    }
}

/// A walk over `c` with `n` messages per channel yields, step by step, every
/// pair in order (on all channels: channel 0 with indices `0..n`, then
/// channel 1, up to channel 15; on one channel or none: that channel, or 0,
/// with indices `0..n`), and nothing at every step after the last. With all
/// channels and no messages the walk never ends, so that case is left out.
pub proof fn lemma_channel_messages_sequence(c: ChannelOrAll, n: usize, k: nat)
    requires c is All ==> n > 0,
    ensures
        spec_channel_steps(ChannelMessages::spec_new_with_multiple_messages(c, n), k) == Seq::new(k, |j: int|
            if j < spec_channel_pair_count(c, n) { Some(spec_channel_pair(c, n, j)) } else { None::<(u8, usize)> }),
{
    if c is All {
        vstd::arithmetic::div_mod::lemma_fundamental_div_mod_converse(0, n as int, 0, 0);
        assert(0 < spec_channel_pair_count(c, n)) by (nonlinear_arith) requires n > 0, spec_channel_pair_count(c, n) == 16 * n;
    }
    assert(spec_channel_state(c, n, 0) == ChannelMessages::spec_new_with_multiple_messages(c, n));
    lemma_channel_steps_from(c, n, 0, k);
    assert(Seq::new(k, |j: int|
            if 0 + j < spec_channel_pair_count(c, n) { Some(spec_channel_pair(c, n, 0 + j)) } else { None::<(u8, usize)> })
        =~= Seq::new(k, |j: int|
            if j < spec_channel_pair_count(c, n) { Some(spec_channel_pair(c, n, j)) } else { None::<(u8, usize)> }));
}

/// The messages of one event of a component, whichever kind it is.
pub enum Messages<'a> {
    Button(ButtonMessages<'a>),
    Analog(AnalogMessages<'a>),
    Encoder(EncoderMessages<'a>),
    /// The event sends nothing.
    Empty,
}

impl<'a> Messages<'a> {
    pub open spec fn next_defined(self) -> bool {
        match self {
            Messages::Button(m) => m.next_defined(),
            Messages::Analog(m) => m.next_defined(),
            Messages::Encoder(m) => m.next_defined(),
            Messages::Empty => true,
        }
    }

    /// Writes the next message of the event into `buffer` and returns its length.
    pub fn next(&mut self, buffer: &mut [u8]) -> (r: Result<Option<usize>, BufferTooSmall>)
        requires old(self).next_defined(),
        ensures
            *old(self) is Empty ==> *final(self) is Empty && r == Ok::<Option<usize>, BufferTooSmall>(None) && final(buffer)@ == old(buffer)@,
            *old(self) is Button ==> *final(self) is Button
                && (*old(self))->Button_0.next_post((*final(self))->Button_0, old(buffer)@, final(buffer)@, r)
                && *final((*final(self))->Button_0.button) == *final((*old(self))->Button_0.button),
            *old(self) is Analog ==> *final(self) is Analog
                && (*old(self))->Analog_0.next_post((*final(self))->Analog_0, old(buffer)@, final(buffer)@, r)
                && *final((*final(self))->Analog_0.analog) == *final((*old(self))->Analog_0.analog),
            *old(self) is Encoder ==> *final(self) is Encoder
                && (*old(self))->Encoder_0.next_post((*final(self))->Encoder_0, old(buffer)@, final(buffer)@, r)
                && *final((*final(self))->Encoder_0.encoder) == *final((*old(self))->Encoder_0.encoder),
    {
        match self {
            Messages::Button(m) => m.next(buffer),
            Messages::Analog(m) => m.next(buffer),
            Messages::Encoder(m) => m.next(buffer),
            Messages::Empty => Ok(None),
        }
    }
}

/// The shifts and masks that split a value into 7 bit groups are divisions.
pub proof fn lemma_split7(v: u16)
    by (bit_vector)
    ensures
        (v >> 7) & 0x7f == (v / 128) % 128,
        v & 0x7f == v % 128,
{
}

/// A 14 bit value sent as two 7 bit halves.
#[derive(Debug, Copy, Clone, PartialEq, Eq, Structural)]
pub struct HiRes(pub u16);

impl HiRes {
    pub fn new(value: u16) -> (r: Self)
        ensures r.0 == value,
    {
        HiRes(value)
    }

    pub open spec fn spec_msb(self) -> u8 {
        ((self.0 / 128) % 128) as u8
    }

    pub open spec fn spec_lsb(self) -> u8 {
        (self.0 % 128) as u8
    }

    /// Bits 7 to 13 of the value.
    pub fn msb(self) -> (r: u8)
        ensures r == self.spec_msb(), r < 128,
    {
        let v = self.0;
        proof { lemma_split7(v); }
        ((v >> 7) & 0x7f) as u8
    }

    /// Bits 0 to 6 of the value.
    pub fn lsb(self) -> (r: u8)
        ensures r == self.spec_lsb(), r < 128,
    {
        let v = self.0;
        proof { lemma_split7(v); }
        (v & 0x7F) as u8
    }

    /// The (value, controller) of the two control changes of a 14 bit
    /// controller: index 0 carries the high half on `control`, any other index
    /// the low half on `control + 32`.
    pub fn control_change(self, index: usize, control: u16) -> (r: (u8, u8))
        requires index != 0 ==> control + 32 <= u16::MAX,
        ensures
            index == 0 ==> r == (self.spec_msb(), control as u8),
            index != 0 ==> r == (self.spec_lsb(), (control + 32) as u8),
    {
        if index == 0 {
            (self.msb(), control as u8)
        } else {
            (self.lsb(), (control + 32) as u8)
        }
    }
}

pub open spec fn spec_nrpn_encode(index: usize, midi_id: u16, value: u16) -> (u8, u8) {
    if index == 0 {
        (98u8, (midi_id % 128) as u8)
    } else if index == 1 {
        (99u8, ((midi_id / 128) % 128) as u8)
    } else if index == 2 {
        (38u8, (value % 128) as u8)
    } else {
        (6u8, ((value / 128) % 128) as u8)
    }
}

/// The (controller, data) of the `index`-th control change of a non registered
/// parameter number message: parameter LSB (98), parameter MSB (99), then data
/// entry LSB (38) and data entry MSB (6).
pub fn nrpn_encode(index: usize, midi_id: u16, value: u16) -> (r: (u8, u8))
    ensures
        r == spec_nrpn_encode(index, midi_id, value),
        r.0 < 128, r.1 < 128,
{
    if index == 0 {
        (98, HiRes(midi_id).lsb())
    } else if index == 1 {
        (99, HiRes(midi_id).msb())
    } else if index == 2 {
        (38, HiRes(value).lsb())
    } else {
        (6, HiRes(value).msb())
    }
}

} // verus!
