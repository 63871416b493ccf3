//! Parsing of OpenDeck SysEx requests.
use vstd::prelude::*;
use crate::analog::AnalogSection;
use crate::analog::parser::spec_analog_section_from;
use crate::button::ButtonSection;
use crate::button::parser::spec_button_section_from;
use crate::encoder::EncoderSection;
use crate::encoder::parser::spec_encoder_section_from;
use crate::global::GlobalSection;
use crate::global::parser::spec_global_section_from;
use crate::led::LedSection;
use crate::led::parser::spec_led_section_from;
use crate::{Amount, Block, BlockId, MessageStatus, OpenDeckRequest, Section, SpecialRequest, ValueSize, Wish};
use crate::{M_ID_0, M_ID_1, M_ID_2, POS_AMOUNT, POS_BLOCK, POS_ID1, POS_ID2, POS_ID3, POS_PART, POS_SECTION, POS_START, POS_STATUS, POS_WISH, SPECIAL_REQ_MSG_SIZE, SYSEX_END, SYSEX_START};

verus! {

#[derive(Debug, Copy, Clone, PartialEq, Eq, Structural)]
pub enum OpenDeckParseError {
    BufferTooShort,
    NoSysex,
    WrongManufacturer,
    StatusError(MessageStatus),
}

impl OpenDeckParseError {
    /// The error for a new value that its section does not accept.
    pub fn new_value_err() -> (r: Self)
        ensures r == OpenDeckParseError::StatusError(MessageStatus::NewValueError),
    {
        OpenDeckParseError::StatusError(MessageStatus::NewValueError)
    }
}

/// Joins the two bytes of a value of the two byte protocol: the high byte
/// carries bits 8 to 14 shifted left by one and bit 7 in its lowest bit, the
/// low byte carries bits 0 to 6.
pub open spec fn spec_join14(high: u8, low: u8) -> u16 {
    ((high / 2) as u16 * 256 + (high % 2) as u16 * 128 + (low % 128) as u16) as u16
}

/// Splits a value into the two bytes of the two byte protocol.
pub open spec fn spec_split14(v: u16) -> (u8, u8) {
    ((((v / 256) * 2 + (v % 256) / 128) % 256) as u8, ((v % 256) % 128) as u8)
}

pub proof fn lemma_join_bits(h: u16, l: u16)
    by (bit_vector)
    requires h < 256, l < 256,
    ensures
        (((h >> 1) << 8) | (if (h & 1) > 0 { l | 0x80 } else { l & 0x7F })) == (h / 2) * 256 + (h % 2) * 128 + l % 128,
{
}

pub proof fn lemma_split_bits(v: u16)
    by (bit_vector)
    ensures
        ((((v >> 8) << 1) | ((v & 0xFF) >> 7)) & 0xFF) == (((v / 256) * 2 + (v % 256) / 128) % 256),
        ((v & 0xFF) & 0x7F) == ((v % 256) % 128),
{
}

/// A value of less than 0x8000 survives splitting and joining.
pub proof fn lemma_split_join(v: u16)
    requires v < 0x8000,
    ensures ({
        let (h, l) = spec_split14(v);
        spec_join14(h, l) == v
    }),
{
}

/// Splitting a value of less than 0x4000 gives two 7 bit bytes.
pub proof fn lemma_split_7bit(v: u16)
    requires v < 0x4000,
    ensures spec_split14(v).0 < 128, spec_split14(v).1 < 128,
{
}

impl ValueSize {
    /// Number of bytes a configuration request must have with values of this size.
    pub fn min_request_len(self) -> (r: usize)
        ensures r == spec_min_request_len(self),
    {
        match self {
            ValueSize::OneByte => 13,
            ValueSize::TwoBytes => 15,
        }
    }

    /// The `index`-th value of a configuration message, starting at the
    /// index bytes.
    pub open spec fn spec_parse(self, buf: Seq<u8>, index: int) -> u16 {
        match self {
            ValueSize::OneByte => buf[crate::POS_INDEX + index] as u16,
            ValueSize::TwoBytes => spec_join14(buf[crate::POS_INDEX + index * 2], buf[crate::POS_INDEX + 1 + index * 2]),
        }
    }

    pub fn parse(&self, buf: &[u8], index: usize) -> (r: u16)
        requires
            *self == ValueSize::OneByte ==> buf@.len() > crate::POS_INDEX + index,
            *self == ValueSize::TwoBytes ==> buf@.len() > crate::POS_INDEX + 1 + index * 2,
        ensures r == self.spec_parse(buf@, index as int),
    {
        let start = crate::POS_INDEX;
        let _len = buf.len();
        match self {
            ValueSize::OneByte => buf[start + index] as u16,
            ValueSize::TwoBytes => {
                let high = buf[start + index * 2] as u16;
                let low = buf[start + 1 + index * 2] as u16;
                proof { lemma_join_bits(high, low); }
                let low = if (high & 0x01) > 0 { low | 0x80 } else { low & 0x7F };
                ((high >> 1) << 8) | low
            },
        }
    }

    /// The bytes that carry one value.
    pub open spec fn spec_encode(self, v: u16) -> Seq<u8> {
        match self {
            ValueSize::OneByte => seq![v as u8],
            ValueSize::TwoBytes => seq![spec_split14(v).0, spec_split14(v).1],
        }
    }
}

impl SpecialRequest {
    pub open spec fn spec_from_code(v: u8) -> Option<SpecialRequest> {
        if v == 0x00 { Some(SpecialRequest::ConnectionClose) }
        else if v == 0x01 { Some(SpecialRequest::Handshake) }
        else if v == 0x02 { Some(SpecialRequest::ValueSize) }
        else if v == 0x03 { Some(SpecialRequest::ValuesPerMessage) }
        else if v == 0x56 { Some(SpecialRequest::FirmwareVersion) }
        else if v == 0x43 { Some(SpecialRequest::FirmwareVersionAndHardwareUUID) }
        else if v == 0x42 { Some(SpecialRequest::HardwareUID) }
        else if v == 0x4D { Some(SpecialRequest::NrOfSupportedComponents) }
        else if v == 0x7F { Some(SpecialRequest::Reboot) }
        else if v == 0x55 { Some(SpecialRequest::BootloaderMode) }
        else if v == 0x44 { Some(SpecialRequest::FactoryReset) }
        else if v == 0x50 { Some(SpecialRequest::NrOfSupportedPresets) }
        else if v == 0x1B { Some(SpecialRequest::Backup) }
        else if v == 0x51 { Some(SpecialRequest::BootloaderSupport) }
        else if v == 0x1C { Some(SpecialRequest::RestoreStart) }
        else if v == 0x1D { Some(SpecialRequest::RestoreEnd) }
        else if v == 0x53 { Some(SpecialRequest::SerialNumber) }
        else { None }
    }

    /// Reads a special request from its wish byte.
    pub fn try_from_code(v: u8) -> (r: Result<SpecialRequest, OpenDeckParseError>)
        ensures r == match Self::spec_from_code(v) {
            Some(s) => Ok(s),
            None => Err(OpenDeckParseError::StatusError(MessageStatus::WishError)),
        },
    {
        if v == 0x00 { Ok(SpecialRequest::ConnectionClose) }
        else if v == 0x01 { Ok(SpecialRequest::Handshake) }
        else if v == 0x02 { Ok(SpecialRequest::ValueSize) }
        else if v == 0x03 { Ok(SpecialRequest::ValuesPerMessage) }
        else if v == 0x56 { Ok(SpecialRequest::FirmwareVersion) }
        else if v == 0x43 { Ok(SpecialRequest::FirmwareVersionAndHardwareUUID) }
        else if v == 0x42 { Ok(SpecialRequest::HardwareUID) }
        else if v == 0x4D { Ok(SpecialRequest::NrOfSupportedComponents) }
        else if v == 0x7F { Ok(SpecialRequest::Reboot) }
        else if v == 0x55 { Ok(SpecialRequest::BootloaderMode) }
        else if v == 0x44 { Ok(SpecialRequest::FactoryReset) }
        else if v == 0x50 { Ok(SpecialRequest::NrOfSupportedPresets) }
        else if v == 0x1B { Ok(SpecialRequest::Backup) }
        else if v == 0x51 { Ok(SpecialRequest::BootloaderSupport) }
        else if v == 0x1C { Ok(SpecialRequest::RestoreStart) }
        else if v == 0x1D { Ok(SpecialRequest::RestoreEnd) }
        else if v == 0x53 { Ok(SpecialRequest::SerialNumber) }
        else { Err(OpenDeckParseError::StatusError(MessageStatus::WishError)) }
    }
}

/// Every special request reads back from its wish byte.
pub proof fn lemma_special_request_code(s: SpecialRequest)
    ensures SpecialRequest::spec_from_code(s.spec_code()) == Some(s),
{
}

impl Wish {
    pub open spec fn spec_from_code(v: u8) -> Option<Wish> {
        if v == 0 { Some(Wish::Get) } else if v == 1 { Some(Wish::SetValue) } else if v == 2 { Some(Wish::Backup) } else { None }
    }

    /// Reads a wish from its byte.
    pub fn try_from_code(v: u8) -> (r: Result<Wish, OpenDeckParseError>)
        ensures r == match Self::spec_from_code(v) {
            Some(w) => Ok(w),
            None => Err(OpenDeckParseError::StatusError(MessageStatus::WishError)),
        },
    {
        if v == 0 { Ok(Wish::Get) } else if v == 1 { Ok(Wish::SetValue) } else if v == 2 { Ok(Wish::Backup) } else { Err(OpenDeckParseError::StatusError(MessageStatus::WishError)) }
    }
}

impl Amount {
    /// Reads an amount from its byte and the message part.
    pub open spec fn spec_from_bytes(amount: u8, part: u8) -> Result<Amount, OpenDeckParseError> {
        if amount == 0 { Ok(Amount::Single) } else if amount == 1 { Ok(Amount::All(part)) } else { Err(OpenDeckParseError::StatusError(MessageStatus::AmountError)) }
    }

    pub fn try_from_bytes(amount: u8, part: u8) -> (r: Result<Amount, OpenDeckParseError>)
        ensures r == Self::spec_from_bytes(amount, part),
    {
        if amount == 0 { Ok(Amount::Single) } else if amount == 1 { Ok(Amount::All(part)) } else { Err(OpenDeckParseError::StatusError(MessageStatus::AmountError)) }
    }
}

impl TryFrom<u8> for SpecialRequest {
    type Error = OpenDeckParseError;

    fn try_from(v: u8) -> (r: Result<SpecialRequest, OpenDeckParseError>) {
        SpecialRequest::try_from_code(v)
    }
}

impl vstd::std_specs::convert::TryFromSpecImpl<u8> for SpecialRequest {
    open spec fn obeys_try_from_spec() -> bool {
        true
    }

    open spec fn try_from_spec(v: u8) -> Result<SpecialRequest, OpenDeckParseError> {
        match SpecialRequest::spec_from_code(v) {
            Some(s) => Ok(s),
            None => Err(OpenDeckParseError::StatusError(MessageStatus::WishError)),
        }
    }
}

impl TryFrom<u8> for Wish {
    type Error = OpenDeckParseError;

    fn try_from(v: u8) -> (r: Result<Wish, OpenDeckParseError>) {
        Wish::try_from_code(v)
    }
}

impl vstd::std_specs::convert::TryFromSpecImpl<u8> for Wish {
    open spec fn obeys_try_from_spec() -> bool {
        true
    }

    open spec fn try_from_spec(v: u8) -> Result<Wish, OpenDeckParseError> {
        match Wish::spec_from_code(v) {
            Some(w) => Ok(w),
            None => Err(OpenDeckParseError::StatusError(MessageStatus::WishError)),
        }
    }
}

impl TryFrom<(u8, u8)> for Amount {
    type Error = OpenDeckParseError;

    fn try_from(v: (u8, u8)) -> (r: Result<Amount, OpenDeckParseError>) {
        Amount::try_from_bytes(v.0, v.1)
    }
}

impl vstd::std_specs::convert::TryFromSpecImpl<(u8, u8)> for Amount {
    open spec fn obeys_try_from_spec() -> bool {
        true
    }

    open spec fn try_from_spec(v: (u8, u8)) -> Result<Amount, OpenDeckParseError> {
        Amount::spec_from_bytes(v.0, v.1)
    }
}

/// Reads the block of a configuration request.
pub open spec fn spec_parse_block(vs: ValueSize, buf: Seq<u8>) -> Result<Block, OpenDeckParseError> {
    let block_id = buf[POS_BLOCK as int];
    let index = vs.spec_parse(buf, 0);
    let section = Section { id: buf[POS_SECTION as int], value: vs.spec_parse(buf, 1) };
    if block_id == BlockId::Global.spec_code() {
        match spec_global_section_from(index, section) {
            Ok(g) => Ok(Block::Global(g)),
            Err(e) => Err(e),
        }
    } else if block_id == BlockId::Button.spec_code() {
        match spec_button_section_from(section) {
            Ok(b) => Ok(Block::Button(index, b)),
            Err(e) => Err(e),
        }
    } else if block_id == BlockId::Encoder.spec_code() {
        match spec_encoder_section_from(section) {
            Ok(b) => Ok(Block::Encoder(index, b)),
            Err(e) => Err(e),
        }
    } else if block_id == BlockId::Analog.spec_code() {
        match spec_analog_section_from(section) {
            Ok(b) => Ok(Block::Analog(index, b)),
            Err(e) => Err(e),
        }
    } else if block_id == BlockId::Led.spec_code() {
        match spec_led_section_from(section) {
            Ok(b) => Ok(Block::Led(index, b)),
            Err(e) => Err(e),
        }
    } else {
        Err(OpenDeckParseError::StatusError(MessageStatus::BlockError))
    }
}

/// Reads a configuration request: wish, amount, then block.
pub open spec fn spec_parse_request(vs: ValueSize, buf: Seq<u8>) -> Result<OpenDeckRequest, OpenDeckParseError> {
    match Wish::spec_from_code(buf[POS_WISH as int]) {
        None => Err(OpenDeckParseError::StatusError(MessageStatus::WishError)),
        Some(wish) => match Amount::spec_from_bytes(buf[POS_AMOUNT as int], buf[POS_PART as int]) {
            Err(e) => Err(e),
            Ok(amount) => match spec_parse_block(vs, buf) {
                Err(e) => Err(e),
                Ok(block) => Ok(OpenDeckRequest::Configuration(wish, amount, block)),
            },
        },
    }
}

/// Reads a special request.
pub open spec fn spec_parse_special_request(buf: Seq<u8>) -> Result<OpenDeckRequest, OpenDeckParseError> {
    match SpecialRequest::spec_from_code(buf[POS_WISH as int]) {
        Some(s) => Ok(OpenDeckRequest::Special(s)),
        None => Err(OpenDeckParseError::StatusError(MessageStatus::WishError)),
    }
}

/// The framing of a request: length, SysEx start and end, manufacturer id and
/// status. `None` when it is sound.
pub open spec fn spec_check_frame(buf: Seq<u8>) -> Option<OpenDeckParseError> {
    if buf.len() < SPECIAL_REQ_MSG_SIZE {
        Some(OpenDeckParseError::BufferTooShort)
    } else if buf[POS_START as int] != SYSEX_START || buf[buf.len() - 1] != SYSEX_END {
        Some(OpenDeckParseError::NoSysex)
    } else if !(buf[POS_ID1 as int] == M_ID_0 && buf[POS_ID2 as int] == M_ID_1 && buf[POS_ID3 as int] == M_ID_2) {
        Some(OpenDeckParseError::WrongManufacturer)
    } else if buf[POS_STATUS as int] != MessageStatus::Request.spec_code() {
        Some(OpenDeckParseError::StatusError(MessageStatus::StatusError))
    } else {
        None
    }
}

/// Number of bytes a configuration request must have to hold its index, its
/// new value and the SysEx end byte after them.
pub open spec fn spec_min_request_len(vs: ValueSize) -> int {
    match vs {
        ValueSize::OneByte => 13,
        ValueSize::TwoBytes => 15,
    }
}

/// Reads a request: a message of the special request size is a special
/// request; any other is a configuration request, refused with a length error
/// when it is too short to hold its index and new value.
pub open spec fn spec_parse(vs: ValueSize, buf: Seq<u8>) -> Result<OpenDeckRequest, OpenDeckParseError> {
    match spec_check_frame(buf) {
        Some(e) => Err(e),
        None => if buf.len() == SPECIAL_REQ_MSG_SIZE {
            spec_parse_special_request(buf)
        } else if buf.len() < spec_min_request_len(vs) {
            Err(OpenDeckParseError::StatusError(MessageStatus::MessageLengthError))
        } else {
            spec_parse_request(vs, buf)
        },
    }
}

/// Reads requests whose values take `value_size` bytes.
#[derive(Debug, Copy, Clone, PartialEq, Eq, Structural)]
pub struct OpenDeckParser {
    pub value_size: ValueSize,
}

impl OpenDeckParser {
    pub fn new(value_size: ValueSize) -> (r: Self)
        ensures r.value_size == value_size,
    {
        OpenDeckParser { value_size }
    }

    /// Reads a request from the bytes of a SysEx message.
    pub fn parse(&self, buf: &[u8]) -> (r: Result<OpenDeckRequest, OpenDeckParseError>)
        ensures r == spec_parse(self.value_size, buf@),
    {
        if buf.len() < SPECIAL_REQ_MSG_SIZE {
            return Err(OpenDeckParseError::BufferTooShort);
        }
        if buf[POS_START] != SYSEX_START {
            return Err(OpenDeckParseError::NoSysex);
        }
        if buf[buf.len() - 1] != SYSEX_END {
            return Err(OpenDeckParseError::NoSysex);
        }
        if !(buf[POS_ID1] == M_ID_0 && buf[POS_ID2] == M_ID_1 && buf[POS_ID3] == M_ID_2) {
            return Err(OpenDeckParseError::WrongManufacturer);
        }
        if buf[POS_STATUS] != MessageStatus::Request.code() {
            return Err(OpenDeckParseError::StatusError(MessageStatus::StatusError));
        }
        if buf.len() == SPECIAL_REQ_MSG_SIZE {
            self.parse_special_request(buf)
        } else if buf.len() < self.value_size.min_request_len() {
            Err(OpenDeckParseError::StatusError(MessageStatus::MessageLengthError))
        } else {
            self.parse_request(buf)
        }
    }

    /// Reads the special request named by the wish byte.
    pub fn parse_special_request(&self, buf: &[u8]) -> (r: Result<OpenDeckRequest, OpenDeckParseError>)
        requires buf@.len() > POS_WISH,
        ensures r == spec_parse_special_request(buf@),
    {
        match SpecialRequest::try_from_code(buf[POS_WISH]) {
            Ok(special) => Ok(OpenDeckRequest::Special(special)),
            Err(e) => Err(e),
        }
    }

    /// Reads a configuration request.
    pub fn parse_request(&self, buf: &[u8]) -> (r: Result<OpenDeckRequest, OpenDeckParseError>)
        requires buf@.len() >= spec_min_request_len(self.value_size),
        ensures r == spec_parse_request(self.value_size, buf@),
    {
        let wish = match Wish::try_from_code(buf[POS_WISH]) {
            Ok(w) => w,
            Err(e) => return Err(e),
        };
        let amount = match Amount::try_from_bytes(buf[POS_AMOUNT], buf[POS_PART]) {
            Ok(a) => a,
            Err(e) => return Err(e),
        };
        match self.parse_block(buf) {
            Ok(block) => Ok(OpenDeckRequest::Configuration(wish, amount, block)),
            Err(e) => Err(e),
        }
    }

    /// Reads the block, index and section of a configuration request.
    pub fn parse_block(&self, buf: &[u8]) -> (r: Result<Block, OpenDeckParseError>)
        requires buf@.len() >= spec_min_request_len(self.value_size),
        ensures r == spec_parse_block(self.value_size, buf@),
    {
        let block_id = buf[POS_BLOCK];
        let index = self.value_size.parse(buf, 0);
        let section = Section { id: buf[POS_SECTION], value: self.value_size.parse(buf, 1) };
        if block_id == BlockId::Global.code() {
            match GlobalSection::try_from_section(index, section) {
                Ok(g) => Ok(Block::Global(g)),
                Err(e) => Err(e),
            }
        } else if block_id == BlockId::Button.code() {
            match ButtonSection::try_from_section(section) {
                Ok(b) => Ok(Block::Button(index, b)),
                Err(e) => Err(e),
            }
        } else if block_id == BlockId::Encoder.code() {
            match EncoderSection::try_from_section(section) {
                Ok(b) => Ok(Block::Encoder(index, b)),
                Err(e) => Err(e),
            }
        } else if block_id == BlockId::Analog.code() {
            match AnalogSection::try_from_section(section) {
                Ok(b) => Ok(Block::Analog(index, b)),
                Err(e) => Err(e),
            }
        } else if block_id == BlockId::Led.code() {
            match LedSection::try_from_section(section) {
                Ok(b) => Ok(Block::Led(index, b)),
                Err(e) => Err(e),
            }
        } else {
            Err(OpenDeckParseError::StatusError(MessageStatus::BlockError))
        }
    }
}

} // verus!
