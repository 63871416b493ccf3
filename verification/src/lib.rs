//! OpenDeck MIDI SysEx configuration protocol: request parsing, response
//! rendering, the configurable component models (buttons, encoders, analog
//! inputs, LEDs, global settings) and the MIDI messages they emit.
use vstd::prelude::*;

pub mod analog;
pub mod bpm;
pub mod button;
pub mod channel;
pub mod config;
pub mod encoder;
pub mod global;
pub mod handler;
pub mod led;
pub mod midi;
pub mod parser;
pub mod renderer;
pub mod values;

pub use channel::ChannelOrAll;
pub use config::FirmwareVersion;
pub use values::NewValues;
use analog::AnalogSection;
use button::ButtonSection;
use encoder::EncoderSection;
use global::GlobalSection;
use led::LedSection;

verus! {

pub const SYSEX_START: u8 = 0xF0;
pub const SYSEX_END: u8 = 0xF7;
pub const M_ID_0: u8 = 0x00;
pub const M_ID_1: u8 = 0x53;
pub const M_ID_2: u8 = 0x43;

pub const BYTES_PER_VALUE: usize = 2;
/// Size of a special request: header, wish byte and the closing byte.
pub const SPECIAL_REQ_MSG_SIZE: usize = 8;
/// Smallest standard request in the two byte protocol variant.
pub const STD_REQ_MIN_MSG_SIZE: usize = 15;
/// Number of values carried by one configuration response.
pub const PARAMS_PER_MESSAGE: usize = 32;
pub const MAX_MESSAGE_SIZE: usize = 79;

/// Position of each header byte in a message.
pub const POS_START: usize = 0;
pub const POS_ID1: usize = 1;
pub const POS_ID2: usize = 2;
pub const POS_ID3: usize = 3;
pub const POS_STATUS: usize = 4;
pub const POS_PART: usize = 5;
pub const POS_WISH: usize = 6;
pub const POS_AMOUNT: usize = 7;
pub const POS_BLOCK: usize = 8;
pub const POS_SECTION: usize = 9;
pub const POS_INDEX: usize = 10;

#[derive(Debug, Copy, Clone, PartialEq, Eq, Structural)]
pub enum MessageStatus {
    Request,
    Response,
    StatusError,
    HandshakeError,
    WishError,
    AmountError,
    BlockError,
    SectionError,
    PartError,
    IndexError,
    NewValueError,
    MessageLengthError,
    WriteError,
    NotSupportedError,
    ReadError,
    UARTAllocationError,
}

impl MessageStatus {
    pub open spec fn spec_code(self) -> u8 {
        match self {
            MessageStatus::Request => 0x00,
            MessageStatus::Response => 0x01,
            MessageStatus::StatusError => 0x02,
            MessageStatus::HandshakeError => 0x03,
            MessageStatus::WishError => 0x04,
            MessageStatus::AmountError => 0x05,
            MessageStatus::BlockError => 0x06,
            MessageStatus::SectionError => 0x07,
            MessageStatus::PartError => 0x08,
            MessageStatus::IndexError => 0x09,
            MessageStatus::NewValueError => 0x0A,
            MessageStatus::MessageLengthError => 0x0B,
            MessageStatus::WriteError => 0x0C,
            MessageStatus::NotSupportedError => 0x0D,
            MessageStatus::ReadError => 0x0E,
            MessageStatus::UARTAllocationError => 0x80,
        }
    }

    /// The status byte of this status.
    pub fn code(self) -> (r: u8)
        ensures r == self.spec_code(),
    {
        match self {
            MessageStatus::Request => 0x00,
            MessageStatus::Response => 0x01,
            MessageStatus::StatusError => 0x02,
            MessageStatus::HandshakeError => 0x03,
            MessageStatus::WishError => 0x04,
            MessageStatus::AmountError => 0x05,
            MessageStatus::BlockError => 0x06,
            MessageStatus::SectionError => 0x07,
            MessageStatus::PartError => 0x08,
            MessageStatus::IndexError => 0x09,
            MessageStatus::NewValueError => 0x0A,
            MessageStatus::MessageLengthError => 0x0B,
            MessageStatus::WriteError => 0x0C,
            MessageStatus::NotSupportedError => 0x0D,
            MessageStatus::ReadError => 0x0E,
            MessageStatus::UARTAllocationError => 0x80,
        }
    }
}

#[derive(Copy, Debug, Clone, PartialEq, Eq, Structural)]
pub enum SpecialRequest {
    ConnectionClose,
    Handshake,
    ValueSize,
    ValuesPerMessage,
    FirmwareVersion,
    HardwareUID,
    FirmwareVersionAndHardwareUUID,
    NrOfSupportedComponents,
    Reboot,
    BootloaderMode,
    FactoryReset,
    NrOfSupportedPresets,
    BootloaderSupport,
    Backup,
    RestoreStart,
    RestoreEnd,
    SerialNumber,
}

impl SpecialRequest {
    pub open spec fn spec_code(self) -> u8 {
        match self {
            SpecialRequest::ConnectionClose => 0x00,
            SpecialRequest::Handshake => 0x01,
            SpecialRequest::ValueSize => 0x02,
            SpecialRequest::ValuesPerMessage => 0x03,
            SpecialRequest::FirmwareVersion => 0x56,
            SpecialRequest::HardwareUID => 0x42,
            SpecialRequest::FirmwareVersionAndHardwareUUID => 0x43,
            SpecialRequest::NrOfSupportedComponents => 0x4D,
            SpecialRequest::Reboot => 0x7F,
            SpecialRequest::BootloaderMode => 0x55,
            SpecialRequest::FactoryReset => 0x44,
            SpecialRequest::NrOfSupportedPresets => 0x50,
            SpecialRequest::BootloaderSupport => 0x51,
            SpecialRequest::Backup => 0x1B,
            SpecialRequest::RestoreStart => 0x1C,
            SpecialRequest::RestoreEnd => 0x1D,
            SpecialRequest::SerialNumber => 0x53,
        }
    }

    /// The wish byte that selects this special request.
    pub fn code(self) -> (r: u8)
        ensures r == self.spec_code(),
    {
        match self {
            SpecialRequest::ConnectionClose => 0x00,
            SpecialRequest::Handshake => 0x01,
            SpecialRequest::ValueSize => 0x02,
            SpecialRequest::ValuesPerMessage => 0x03,
            SpecialRequest::FirmwareVersion => 0x56,
            SpecialRequest::HardwareUID => 0x42,
            SpecialRequest::FirmwareVersionAndHardwareUUID => 0x43,
            SpecialRequest::NrOfSupportedComponents => 0x4D,
            SpecialRequest::Reboot => 0x7F,
            SpecialRequest::BootloaderMode => 0x55,
            SpecialRequest::FactoryReset => 0x44,
            SpecialRequest::NrOfSupportedPresets => 0x50,
            SpecialRequest::BootloaderSupport => 0x51,
            SpecialRequest::Backup => 0x1B,
            SpecialRequest::RestoreStart => 0x1C,
            SpecialRequest::RestoreEnd => 0x1D,
            SpecialRequest::SerialNumber => 0x53,
        }
    }
}

/// How many bytes carry one value in a message.
#[derive(Copy, Debug, Clone, PartialEq, Eq, Structural)]
pub enum ValueSize {
    OneByte,
    TwoBytes,
}

impl ValueSize {
    pub open spec fn spec_bytes(self) -> u8 {
        match self {
            ValueSize::OneByte => 1,
            ValueSize::TwoBytes => 2,
        }
    }

    /// Number of bytes per value: 1 or 2.
    pub fn bytes(self) -> (r: u8)
        ensures r == self.spec_bytes(),
    {
        match self {
            ValueSize::OneByte => 1,
            ValueSize::TwoBytes => 2,
        }
    }
}

#[derive(Debug, Copy, Clone, PartialEq, Eq, Structural)]
pub struct HardwareUid(pub u32);

#[derive(Debug, Copy, Clone, PartialEq, Eq, Structural)]
pub struct NrOfSupportedComponents {
    pub buttons: usize,
    pub encoders: usize,
    pub analog: usize,
    pub leds: usize,
    pub touchscreen_buttons: usize,
}

#[derive(Debug, Clone, PartialEq, Eq)]
pub enum SpecialResponse {
    Handshake,
    ValueSize(ValueSize),
    ValuesPerMessage(u8),
    FirmwareVersion(FirmwareVersion),
    HardwareUID(HardwareUid),
    FirmwareVersionAndHardwareUUID(FirmwareVersion, HardwareUid),
    NrOfSupportedComponents(NrOfSupportedComponents),
    NrOfSupportedPresets(usize),
    BootloaderSupport(bool),
    Backup,
    SerialNumber(Vec<u8>),
    RestoreStart,
    RestoreEnd,
    /// The acknowledgement of a factory reset.
    FactoryReset,
}

#[derive(Debug, Copy, Clone, PartialEq, Eq, Structural)]
pub enum Wish {
    Get,
    SetValue,
    Backup,
}

impl Wish {
    pub open spec fn spec_code(self) -> u8 {
        match self {
            Wish::Get => 0,
            Wish::SetValue => 1,
            Wish::Backup => 2,
        }
    }

    pub fn code(self) -> (r: u8)
        ensures r == self.spec_code(),
    {
        match self {
            Wish::Get => 0,
            Wish::SetValue => 1,
            Wish::Backup => 2,
        }
    }
}

#[derive(Debug, Copy, Clone, PartialEq, Eq, Structural)]
pub enum Amount {
    Single,
    All(u8),
}

#[derive(Debug, Copy, Clone, PartialEq, Eq, Structural)]
pub enum BlockId {
    Global,
    Button,
    Encoder,
    Analog,
    Led,
    Display,
    Touchscreen,
}

impl BlockId {
    pub open spec fn spec_code(self) -> u8 {
        match self {
            BlockId::Global => 0,
            BlockId::Button => 1,
            BlockId::Encoder => 2,
            BlockId::Analog => 3,
            BlockId::Led => 4,
            BlockId::Display => 5,
            BlockId::Touchscreen => 6,
        }
    }

    pub fn code(self) -> (r: u8)
        ensures r == self.spec_code(),
    {
        match self {
            BlockId::Global => 0,
            BlockId::Button => 1,
            BlockId::Encoder => 2,
            BlockId::Analog => 3,
            BlockId::Led => 4,
            BlockId::Display => 5,
            BlockId::Touchscreen => 6,
        }
    }
}

/// A block of the configuration and one of its sections; components are
/// addressed by their index.
#[derive(Debug, Copy, Clone, PartialEq, Eq, Structural)]
pub enum Block {
    Global(GlobalSection),
    Button(u16, ButtonSection),
    Encoder(u16, EncoderSection),
    Analog(u16, AnalogSection),
    Led(u16, LedSection),
    Display,
    Touchscreen,
}

#[derive(Debug, Copy, Clone, PartialEq, Eq, Structural)]
pub enum OpenDeckRequest {
    Special(SpecialRequest),
    Configuration(Wish, Amount, Block),
    /// Sent by the device only, never received.
    ComponentInfo,
}

#[derive(Debug, PartialEq, Eq)]
pub enum OpenDeckResponse {
    Special(SpecialResponse),
    Configuration(Wish, Amount, Block, NewValues),
}

/// Two responses carry the same values.
pub open spec fn same_response(a: OpenDeckResponse, b: OpenDeckResponse) -> bool {
    match (a, b) {
        (OpenDeckResponse::Special(SpecialResponse::SerialNumber(x)), OpenDeckResponse::Special(SpecialResponse::SerialNumber(y))) => x@ == y@,
        (OpenDeckResponse::Special(x), OpenDeckResponse::Special(y)) => x == y,
        (OpenDeckResponse::Configuration(w, am, bl, v), OpenDeckResponse::Configuration(w2, am2, bl2, v2)) =>
            w == w2 && am == am2 && bl == bl2 && values::values_view(v) == values::values_view(v2),
        _ => false,
    }
}

impl OpenDeckResponse {
    /// A response with the same values.
    pub fn duplicate(&self) -> (r: OpenDeckResponse)
        ensures same_response(r, *self),
    {
        match self {
            OpenDeckResponse::Special(SpecialResponse::SerialNumber(v)) => {
                let mut c: Vec<u8> = Vec::new();
                let mut i: usize = 0;
                while i < v.len()
                    invariant
                        0 <= i <= v@.len(),
                        c@ == v@.take(i as int),
                    decreases v@.len() - i,
                {
                    c.push(v[i]);
                    i += 1;
                    proof { assert(c@ =~= v@.take(i as int)); }
                }
                proof { assert(c@ =~= v@); }
                OpenDeckResponse::Special(SpecialResponse::SerialNumber(c))
            },
            OpenDeckResponse::Special(s) => OpenDeckResponse::Special(match s {
                SpecialResponse::Handshake => SpecialResponse::Handshake,
                SpecialResponse::ValueSize(x) => SpecialResponse::ValueSize(*x),
                SpecialResponse::ValuesPerMessage(x) => SpecialResponse::ValuesPerMessage(*x),
                SpecialResponse::FirmwareVersion(x) => SpecialResponse::FirmwareVersion(*x),
                SpecialResponse::HardwareUID(x) => SpecialResponse::HardwareUID(*x),
                SpecialResponse::FirmwareVersionAndHardwareUUID(x, y) => SpecialResponse::FirmwareVersionAndHardwareUUID(*x, *y),
                SpecialResponse::NrOfSupportedComponents(x) => SpecialResponse::NrOfSupportedComponents(*x),
                SpecialResponse::NrOfSupportedPresets(x) => SpecialResponse::NrOfSupportedPresets(*x),
                SpecialResponse::BootloaderSupport(x) => SpecialResponse::BootloaderSupport(*x),
                SpecialResponse::Backup => SpecialResponse::Backup,
                SpecialResponse::SerialNumber(_) => SpecialResponse::Backup,
                SpecialResponse::RestoreStart => SpecialResponse::RestoreStart,
                SpecialResponse::RestoreEnd => SpecialResponse::RestoreEnd,
                SpecialResponse::FactoryReset => SpecialResponse::FactoryReset,
            }),
            OpenDeckResponse::Configuration(w, a, b, v) => OpenDeckResponse::Configuration(*w, *a, *b, values::values_copy(v)),
        }
    }
}

/// `r` is the response that restores `block` in a backup: a single set of the
/// block's section, carrying no values.
pub open spec fn is_restore_response(r: Option<OpenDeckResponse>, block: Block) -> bool {
    &&& r matches Some(OpenDeckResponse::Configuration(wish, amount, b, values))
    &&& wish == Wish::SetValue
    &&& amount == Amount::Single
    &&& b == block
    &&& values::values_view(values) == Seq::<u16>::empty()
}

/// The response that restores `block` in a backup.
pub fn restore_response(block: Block) -> (r: OpenDeckResponse)
    ensures is_restore_response(Some(r), block),
{
    OpenDeckResponse::Configuration(Wish::SetValue, Amount::Single, block, values::values_new())
}

/// A section of a block as it travels on the wire: its identifier and its value.
#[derive(Debug, Copy, Clone, PartialEq, Eq, Structural)]
pub struct Section {
    pub id: u8,
    pub value: u16,
}

} // verus!
