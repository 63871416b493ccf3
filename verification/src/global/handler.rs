//! The channels a message goes out on.
use vstd::prelude::*;
use crate::channel::ChannelOrAll;

verus! {

/// Walks the channels of a `ChannelOrAll`: all sixteen, the one channel, or none.
#[derive(Debug, Copy, Clone, PartialEq, Eq, Structural)]
pub struct Channels {
    pub channel_or_all: ChannelOrAll,
    /// The channel handed out last, -1 before the first.
    pub current: i8,
}

impl Channels {
    pub open spec fn spec_next(self) -> (Channels, Option<u8>) {
        let current = (self.current + 1) as i8;
        let s = Channels { current, ..self };
        match self.channel_or_all {
            ChannelOrAll::All => (s, if current < 16 { Some(current as u8) } else { None }),
            ChannelOrAll::Channel(c) => (s, if current == 0 { Some(c) } else { None }),
            ChannelOrAll::NoChannel => (s, None),
        }
    }

    pub fn new(channel_or_all: ChannelOrAll) -> (r: Self)
        ensures r == (Channels { channel_or_all, current: -1i8 }),
    {
        Channels { channel_or_all, current: -1 }
    }

    /// The next channel, if any. Each call moves on by one, so the walk can
    /// be asked at most 128 times.
    pub fn next(&mut self) -> (r: Option<u8>)
        requires old(self).current < i8::MAX,
        ensures (*final(self), r) == old(self).spec_next(),
    {
        self.current += 1;
        match self.channel_or_all {
            ChannelOrAll::All => {
                if self.current < 16 {
                    Some(self.current as u8)
                } else {
                    None
                }
            },
            ChannelOrAll::Channel(c) => {
                if self.current == 0 {
                    Some(c)
                } else {
                    None
                }
            },
            ChannelOrAll::NoChannel => None,
        }
    }
}

} // verus!
