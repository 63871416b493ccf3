use vstd::prelude::*;

verus! {

/// The MIDI channel a component sends on: one channel, all sixteen, or none.
///
/// On the wire a channel is a value: 0 to 15 select that channel, 16 selects
/// all channels and any larger value selects none.
#[derive(Debug, Copy, Clone, PartialEq, Eq, Structural)]
pub enum ChannelOrAll {
    All,
    Channel(u8),
    NoChannel,
}

/// Wire value that stands for all channels.
pub const WIRE_ALL_CHANNELS: u16 = 16;
/// Wire value that a `ChannelOrAll::NoChannel` is written as.
pub const WIRE_NO_CHANNEL: u16 = 17;

impl ChannelOrAll {
    /// A channel that can be put in a MIDI status byte.
    pub open spec fn wf(self) -> bool {
        self matches ChannelOrAll::Channel(c) ==> c < 16
    }

    pub open spec fn spec_from_wire(v: u16) -> ChannelOrAll {
        if v < 16 {
            ChannelOrAll::Channel(v as u8)
        } else if v == WIRE_ALL_CHANNELS {
            ChannelOrAll::All
        } else {
            ChannelOrAll::NoChannel
        }
    }

    pub open spec fn spec_to_wire(self) -> u16 {
        match self {
            ChannelOrAll::Channel(c) => c as u16,
            ChannelOrAll::All => WIRE_ALL_CHANNELS,
            ChannelOrAll::NoChannel => WIRE_NO_CHANNEL,
        }
    }

    /// Reads a channel from its wire value.
    pub fn from_wire(v: u16) -> (r: ChannelOrAll)
        ensures
            r == Self::spec_from_wire(v),
            r.wf(),
    {
        if v < 16 {
            ChannelOrAll::Channel(v as u8)
        } else if v == WIRE_ALL_CHANNELS {
            ChannelOrAll::All
        } else {
            ChannelOrAll::NoChannel
        }
    }

    /// The wire value of a channel.
    pub fn to_wire(self) -> (r: u16)
        ensures r == self.spec_to_wire(),
    {
        match self {
            ChannelOrAll::Channel(c) => c as u16,
            ChannelOrAll::All => WIRE_ALL_CHANNELS,
            ChannelOrAll::NoChannel => WIRE_NO_CHANNEL,
        }
    }
}

/// Reading back what was written gives the channel again.
pub proof fn lemma_channel_wire_roundtrip(c: ChannelOrAll)
    requires c.wf(),
    ensures ChannelOrAll::spec_from_wire(c.spec_to_wire()) == c,
{
}

impl Default for ChannelOrAll {
    fn default() -> (r: Self)
        ensures r == ChannelOrAll::Channel(0),
    {
        ChannelOrAll::Channel(0)
    }
}

impl From<u16> for ChannelOrAll {
    fn from(v: u16) -> (r: ChannelOrAll) {
        ChannelOrAll::from_wire(v)
    }
}

impl vstd::std_specs::convert::FromSpecImpl<u16> for ChannelOrAll {
    open spec fn obeys_from_spec() -> bool {
        true
    }

    open spec fn from_spec(v: u16) -> ChannelOrAll {
        ChannelOrAll::spec_from_wire(v)
    }
}

impl From<ChannelOrAll> for u16 {
    fn from(c: ChannelOrAll) -> (r: u16) {
        c.to_wire()
    }
}

impl vstd::std_specs::convert::FromSpecImpl<ChannelOrAll> for u16 {
    open spec fn obeys_from_spec() -> bool {
        true
    }

    open spec fn from_spec(c: ChannelOrAll) -> u16 {
        c.spec_to_wire()
    }
}

} // verus!
