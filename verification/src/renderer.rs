//! Rendering of OpenDeck SysEx responses.
use vstd::prelude::*;
use crate::analog::renderer::spec_analog_section_to;
use crate::button::renderer::spec_button_section_to;
use crate::config::FirmwareVersion;
use crate::encoder::renderer::spec_encoder_section_to;
use crate::global::{flag, spec_flag};
use crate::global::renderer::spec_global_section_to;
use crate::led::renderer::spec_led_section_to;
use crate::midi::write_sysex;
use crate::parser::{lemma_split_join, spec_parse, spec_split14, OpenDeckParseError};
use crate::analog::renderer::lemma_analog_section_roundtrip;
use crate::button::renderer::lemma_button_section_roundtrip;
use crate::encoder::renderer::lemma_encoder_section_roundtrip;
use crate::global::renderer::lemma_global_section_roundtrip;
use crate::led::renderer::lemma_led_section_roundtrip;
use crate::{OpenDeckRequest, Wish};
use crate::values::{values_get, values_len, values_view};
use crate::{Amount, Block, BlockId, HardwareUid, MessageStatus, NewValues, NrOfSupportedComponents, OpenDeckResponse, SpecialRequest, SpecialResponse, ValueSize};
use crate::{M_ID_0, M_ID_1, M_ID_2, SYSEX_END, SYSEX_START};

verus! {

/// The bytes of a sequence of values.
pub open spec fn spec_encode_values(vs: ValueSize, values: Seq<u16>) -> Seq<u8>
    decreases values.len(),
{
    if values.len() == 0 {
        Seq::<u8>::empty()
    } else {
        spec_encode_values(vs, values.drop_last()) + vs.spec_encode(values.last())
    }
}

/// The bytes of a sequence of bytes, each sent as a value.
pub open spec fn spec_encode_bytes(vs: ValueSize, bytes: Seq<u8>) -> Seq<u8> {
    spec_encode_values(vs, bytes.map_values(|b: u8| b as u16))
}

/// The message part of an amount: the part of `All`, 0 for a single value.
pub open spec fn spec_part(a: Amount) -> u8 {
    match a {
        Amount::Single => 0,
        Amount::All(part) => part,
    }
}

pub open spec fn spec_amount_code(a: Amount) -> u8 {
    match a {
        Amount::Single => 0,
        Amount::All(_) => 1,
    }
}

/// Block identifier, index, section identifier and value of a block.
pub open spec fn spec_block_fields(b: Block) -> (u8, u16, u8, u16) {
    match b {
        Block::Global(g) => {
            let (index, s) = spec_global_section_to(g);
            (BlockId::Global.spec_code(), index, s.id, s.value)
        },
        Block::Button(index, s) => (BlockId::Button.spec_code(), index, spec_button_section_to(s).id, spec_button_section_to(s).value),
        Block::Encoder(index, s) => (BlockId::Encoder.spec_code(), index, spec_encoder_section_to(s).id, spec_encoder_section_to(s).value),
        Block::Analog(index, s) => (BlockId::Analog.spec_code(), index, spec_analog_section_to(s).id, spec_analog_section_to(s).value),
        Block::Led(index, s) => (BlockId::Led.spec_code(), index, spec_led_section_to(s).id, spec_led_section_to(s).value),
        Block::Display => (BlockId::Display.spec_code(), 0, 0, 0),
        Block::Touchscreen => (BlockId::Touchscreen.spec_code(), 0, 0, 0),
    }
}

/// The special request a special response answers.
pub open spec fn spec_special_wish(r: SpecialResponse) -> SpecialRequest {
    match r {
        SpecialResponse::Handshake => SpecialRequest::Handshake,
        SpecialResponse::ValueSize(_) => SpecialRequest::ValueSize,
        SpecialResponse::ValuesPerMessage(_) => SpecialRequest::ValuesPerMessage,
        SpecialResponse::FirmwareVersion(_) => SpecialRequest::FirmwareVersion,
        SpecialResponse::HardwareUID(_) => SpecialRequest::HardwareUID,
        SpecialResponse::FirmwareVersionAndHardwareUUID(_, _) => SpecialRequest::FirmwareVersionAndHardwareUUID,
        SpecialResponse::NrOfSupportedComponents(_) => SpecialRequest::NrOfSupportedComponents,
        SpecialResponse::NrOfSupportedPresets(_) => SpecialRequest::NrOfSupportedPresets,
        SpecialResponse::BootloaderSupport(_) => SpecialRequest::BootloaderSupport,
        SpecialResponse::Backup => SpecialRequest::Backup,
        SpecialResponse::SerialNumber(_) => SpecialRequest::SerialNumber,
        SpecialResponse::RestoreStart => SpecialRequest::RestoreStart,
        SpecialResponse::RestoreEnd => SpecialRequest::RestoreEnd,
        SpecialResponse::FactoryReset => SpecialRequest::FactoryReset,
    }
}

/// The four bytes of a hardware id, most significant first.
pub open spec fn spec_uid_bytes(uid: HardwareUid) -> Seq<u8> {
    seq![((uid.0 >> 24) & 0xff) as u8, ((uid.0 >> 16) & 0xff) as u8, ((uid.0 >> 8) & 0xff) as u8, (uid.0 & 0xff) as u8]
}

pub open spec fn spec_version_bytes(v: FirmwareVersion) -> Seq<u8> {
    seq![v.major, v.minor, v.revision]
}

/// The values a special response carries after its wish byte.
pub open spec fn spec_special_payload(vs: ValueSize, r: SpecialResponse) -> Seq<u8> {
    match r {
        SpecialResponse::ValueSize(size) => vs.spec_encode(size.spec_bytes() as u16),
        SpecialResponse::ValuesPerMessage(n) => vs.spec_encode(n as u16),
        SpecialResponse::FirmwareVersion(v) => spec_encode_bytes(vs, spec_version_bytes(v)),
        SpecialResponse::HardwareUID(uid) => spec_encode_bytes(vs, spec_uid_bytes(uid)),
        SpecialResponse::FirmwareVersionAndHardwareUUID(v, uid) => spec_encode_bytes(vs, spec_version_bytes(v) + spec_uid_bytes(uid)),
        SpecialResponse::NrOfSupportedComponents(c) => spec_encode_values(vs, seq![c.buttons as u16, c.encoders as u16, c.analog as u16, c.leds as u16, c.touchscreen_buttons as u16]),
        SpecialResponse::NrOfSupportedPresets(n) => vs.spec_encode(n as u16),
        SpecialResponse::BootloaderSupport(b) => vs.spec_encode(spec_flag(b)),
        SpecialResponse::SerialNumber(v) => spec_encode_bytes(vs, v@),
        _ => Seq::<u8>::empty(),
    }
}

/// The bytes of a response between the SysEx start and end bytes.
pub open spec fn spec_render_body(vs: ValueSize, res: OpenDeckResponse, status: MessageStatus) -> Seq<u8> {
    match res {
        OpenDeckResponse::Special(r) =>
            seq![M_ID_0, M_ID_1, M_ID_2, status.spec_code(), 0u8, spec_special_wish(r).spec_code()] + spec_special_payload(vs, r),
        OpenDeckResponse::Configuration(wish, amount, block, values) => {
            let (block_id, index, section_id, value) = spec_block_fields(block);
            seq![M_ID_0, M_ID_1, M_ID_2, status.spec_code(), spec_part(amount), wish.spec_code(), spec_amount_code(amount), block_id, section_id]
                + vs.spec_encode(index) + vs.spec_encode(value)
                + spec_encode_values(vs, values_view(values))
        },
    }
}

/// The SysEx message of a response.
pub open spec fn spec_render(vs: ValueSize, res: OpenDeckResponse, status: MessageStatus) -> Seq<u8> {
    seq![SYSEX_START] + spec_render_body(vs, res, status) + seq![SYSEX_END]
}

/// The section of a block holds a value its wire form can carry back.
pub open spec fn block_wf(b: Block) -> bool {
    match b {
        Block::Button(_, s) => s.wf(),
        Block::Encoder(_, s) => s.wf(),
        Block::Analog(_, s) => s.wf(),
        Block::Led(_, s) => s.wf(),
        _ => true,
    }
}

/// A configuration message without values, rendered in the two byte
/// protocol with the request status, reads back as that request: wish,
/// amount and block come back unchanged. This holds for every block that has
/// a wire form (not the display or touchscreen blocks) whose index and value
/// fit in 15 bits.
pub proof fn lemma_configuration_roundtrip(wish: Wish, amount: Amount, block: Block, values: NewValues, status: MessageStatus)
    requires
        values_view(values).len() == 0,
        block_wf(block),
        !(block is Display) && !(block is Touchscreen),
        spec_block_fields(block).1 < 0x8000,
        spec_block_fields(block).3 < 0x8000,
        status == MessageStatus::Request,
    ensures
        spec_parse(ValueSize::TwoBytes, spec_render(ValueSize::TwoBytes, OpenDeckResponse::Configuration(wish, amount, block, values), status))
            == Ok::<OpenDeckRequest, OpenDeckParseError>(OpenDeckRequest::Configuration(wish, amount, block)),
{
    let (block_id, index, section_id, value) = spec_block_fields(block);
    let msg = spec_render(ValueSize::TwoBytes, OpenDeckResponse::Configuration(wish, amount, block, values), status);
    lemma_split_join(index);
    lemma_split_join(value);
    assert(spec_encode_values(ValueSize::TwoBytes, values_view(values)) =~= Seq::<u8>::empty());
    assert(msg.len() == 15);
    assert(msg =~= seq![SYSEX_START, M_ID_0, M_ID_1, M_ID_2, status.spec_code(), spec_part(amount), wish.spec_code(), spec_amount_code(amount), block_id,
        section_id, spec_split14(index).0, spec_split14(index).1, spec_split14(value).0, spec_split14(value).1, SYSEX_END]);
    match block {
        Block::Global(g) => lemma_global_section_roundtrip(g),
        Block::Button(_, s) => lemma_button_section_roundtrip(s),
        Block::Encoder(_, s) => lemma_encoder_section_roundtrip(s),
        Block::Analog(_, s) => lemma_analog_section_roundtrip(s),
        Block::Led(_, s) => lemma_led_section_roundtrip(s),
        _ => {},
    }
}

/// The bytes of a component info message: the block and index of a
/// component that moved.
pub open spec fn spec_component_info_body(vs: ValueSize, block: BlockId, index: u16) -> Seq<u8> {
    seq![M_ID_0, M_ID_1, M_ID_2, MessageStatus::Response.spec_code(), 0u8, COMPONENT_INFO_WISH, block.spec_code()] + vs.spec_encode(index)
}

pub open spec fn all_seven_bit(s: Seq<u8>) -> bool {
    forall|i: int| 0 <= i < s.len() ==> s[i] < 128
}

/// The wish byte of a component info message.
pub const COMPONENT_INFO_WISH: u8 = 0x49;

/// Why a response could not be written.
#[derive(Debug, Copy, Clone, PartialEq, Eq, Structural)]
pub enum RenderError {
    /// The buffer cannot hold the message.
    BufferOverflow,
    /// A byte of the message does not fit in seven bits.
    InvalidData,
}

/// What writing the SysEx message with body `body` into a buffer gives.
pub open spec fn rendered(body: Seq<u8>, before: Seq<u8>, after: Seq<u8>, r: Result<Option<usize>, RenderError>) -> bool {
    &&& after.len() == before.len()
    &&& !all_seven_bit(body) ==> r == Err::<Option<usize>, RenderError>(RenderError::InvalidData) && after == before
    &&& all_seven_bit(body) ==> {
        &&& (r is Ok <==> before.len() >= body.len() + 2)
        &&& r is Err ==> r == Err::<Option<usize>, RenderError>(RenderError::BufferOverflow)
        &&& r is Ok ==> r == Ok::<Option<usize>, RenderError>(Some((body.len() + 2) as usize))
            && after.take(body.len() + 2 as int) == seq![SYSEX_START] + body + seq![SYSEX_END]
    }
}

/// Appends the bytes of one value.
fn push_value(out: &mut Vec<u8>, vs: ValueSize, v: u16)
    ensures final(out)@ == old(out)@ + vs.spec_encode(v),
{
    match vs {
        ValueSize::OneByte => out.push(v as u8),
        ValueSize::TwoBytes => {
            let high = (((v >> 8) << 1) | ((v & 0xFF) >> 7)) & 0xFF;
            let low = (v & 0xFF) & 0x7F;
            proof { crate::parser::lemma_split_bits(v); }
            out.push(high as u8);
            out.push(low as u8);
        },
    }
    proof {
        assert(final(out)@ =~= old(out)@ + vs.spec_encode(v));
    }
}

/// Appends the bytes of a sequence of bytes, each sent as a value.
fn push_bytes(out: &mut Vec<u8>, vs: ValueSize, bytes: &[u8])
    ensures final(out)@ == old(out)@ + spec_encode_bytes(vs, bytes@),
{
    let ghost start = out@;
    let ghost all = bytes@.map_values(|b: u8| b as u16);
    let mut i: usize = 0;
    while i < bytes.len()
        invariant
            0 <= i <= bytes@.len(),
            all == bytes@.map_values(|b: u8| b as u16),
            out@ == start + spec_encode_values(vs, all.take(i as int)),
        decreases bytes@.len() - i,
    {
        proof {
            assert(all.take((i + 1) as int).drop_last() =~= all.take(i as int));
        }
        push_value(out, vs, bytes[i] as u16);
        i += 1;
        proof {
            assert(out@ =~= start + spec_encode_values(vs, all.take(i as int)));
        }
    }
    proof {
        assert(all.take(i as int) =~= all);
    }
}

/// Appends the bytes of the values of a response.
fn push_values(out: &mut Vec<u8>, vs: ValueSize, values: &NewValues)
    ensures final(out)@ == old(out)@ + spec_encode_values(vs, values_view(*values)),
{
    let ghost start = out@;
    let ghost all = values_view(*values);
    let n = values_len(values);
    let mut i: usize = 0;
    while i < n
        invariant
            0 <= i <= n,
            n == all.len(),
            all == values_view(*values),
            out@ == start + spec_encode_values(vs, all.take(i as int)),
        decreases n - i,
    {
        proof {
            assert(all.take((i + 1) as int).drop_last() =~= all.take(i as int));
        }
        push_value(out, vs, values_get(values, i));
        i += 1;
    }
    proof {
        assert(all.take(i as int) =~= all);
    }
}

fn uid_bytes(uid: HardwareUid) -> (r: [u8; 4])
    ensures r@ == spec_uid_bytes(uid),
{
    let b: [u8; 4] = [((uid.0 >> 24) & 0xff) as u8, ((uid.0 >> 16) & 0xff) as u8, ((uid.0 >> 8) & 0xff) as u8, (uid.0 & 0xff) as u8];
    proof { assert(b@ =~= spec_uid_bytes(uid)); }
    b
}

fn version_bytes(v: FirmwareVersion) -> (r: [u8; 3])
    ensures r@ == spec_version_bytes(v),
{
    let b: [u8; 3] = [v.major, v.minor, v.revision];
    proof { assert(b@ =~= spec_version_bytes(v)); }
    b
}

/// The block identifier, index, section identifier and value of a block.
fn block_fields(b: Block) -> (r: (u8, u16, u8, u16))
    ensures r == spec_block_fields(b),
{
    match b {
        Block::Global(g) => {
            let (index, s) = g.to_section();
            (BlockId::Global.code(), index, s.id, s.value)
        },
        Block::Button(index, s) => {
            let s = s.to_section();
            (BlockId::Button.code(), index, s.id, s.value)
        },
        Block::Encoder(index, s) => {
            let s = s.to_section();
            (BlockId::Encoder.code(), index, s.id, s.value)
        },
        Block::Analog(index, s) => {
            let s = s.to_section();
            (BlockId::Analog.code(), index, s.id, s.value)
        },
        Block::Led(index, s) => {
            let s = s.to_section();
            (BlockId::Led.code(), index, s.id, s.value)
        },
        Block::Display => (BlockId::Display.code(), 0, 0, 0),
        Block::Touchscreen => (BlockId::Touchscreen.code(), 0, 0, 0),
    }
}

fn special_wish(r: &SpecialResponse) -> (w: SpecialRequest)
    ensures w == spec_special_wish(*r),
{
    match r {
        SpecialResponse::Handshake => SpecialRequest::Handshake,
        SpecialResponse::ValueSize(_) => SpecialRequest::ValueSize,
        SpecialResponse::ValuesPerMessage(_) => SpecialRequest::ValuesPerMessage,
        SpecialResponse::FirmwareVersion(_) => SpecialRequest::FirmwareVersion,
        SpecialResponse::HardwareUID(_) => SpecialRequest::HardwareUID,
        SpecialResponse::FirmwareVersionAndHardwareUUID(_, _) => SpecialRequest::FirmwareVersionAndHardwareUUID,
        SpecialResponse::NrOfSupportedComponents(_) => SpecialRequest::NrOfSupportedComponents,
        SpecialResponse::NrOfSupportedPresets(_) => SpecialRequest::NrOfSupportedPresets,
        SpecialResponse::BootloaderSupport(_) => SpecialRequest::BootloaderSupport,
        SpecialResponse::Backup => SpecialRequest::Backup,
        SpecialResponse::SerialNumber(_) => SpecialRequest::SerialNumber,
        SpecialResponse::RestoreStart => SpecialRequest::RestoreStart,
        SpecialResponse::RestoreEnd => SpecialRequest::RestoreEnd,
        SpecialResponse::FactoryReset => SpecialRequest::FactoryReset,
    }
}

/// Appends the values a special response carries.
fn push_special_payload(out: &mut Vec<u8>, vs: ValueSize, r: &SpecialResponse)
    ensures final(out)@ == old(out)@ + spec_special_payload(vs, *r),
{
    match r {
        SpecialResponse::ValueSize(size) => push_value(out, vs, size.bytes() as u16),
        SpecialResponse::ValuesPerMessage(n) => push_value(out, vs, *n as u16),
        SpecialResponse::FirmwareVersion(v) => {
            let b = version_bytes(*v);
            push_bytes(out, vs, b.as_slice());
        },
        SpecialResponse::HardwareUID(uid) => {
            let b = uid_bytes(*uid);
            push_bytes(out, vs, b.as_slice());
        },
        SpecialResponse::FirmwareVersionAndHardwareUUID(v, uid) => {
            let vb = version_bytes(*v);
            let ub = uid_bytes(*uid);
            let b: [u8; 7] = [vb[0], vb[1], vb[2], ub[0], ub[1], ub[2], ub[3]];
            proof { assert(b@ =~= spec_version_bytes(*v) + spec_uid_bytes(*uid)); }
            push_bytes(out, vs, b.as_slice());
        },
        SpecialResponse::NrOfSupportedComponents(c) => {
            let ghost start = out@;
            push_value(out, vs, c.buttons as u16);
            push_value(out, vs, c.encoders as u16);
            push_value(out, vs, c.analog as u16);
            push_value(out, vs, c.leds as u16);
            push_value(out, vs, c.touchscreen_buttons as u16);
            proof {
                let s = seq![c.buttons as u16, c.encoders as u16, c.analog as u16, c.leds as u16, c.touchscreen_buttons as u16];
                assert(s.drop_last().drop_last().drop_last().drop_last().drop_last() =~= Seq::<u16>::empty());
                assert(s.drop_last().drop_last().drop_last().drop_last() =~= seq![c.buttons as u16]);
                assert(s.drop_last().drop_last().drop_last() =~= seq![c.buttons as u16, c.encoders as u16]);
                assert(s.drop_last().drop_last() =~= seq![c.buttons as u16, c.encoders as u16, c.analog as u16]);
                assert(s.drop_last() =~= seq![c.buttons as u16, c.encoders as u16, c.analog as u16, c.leds as u16]);
                reveal_with_fuel(spec_encode_values, 6);
                assert(out@ =~= start + spec_encode_values(vs, s));
            }
        },
        SpecialResponse::NrOfSupportedPresets(n) => push_value(out, vs, *n as u16),
        SpecialResponse::BootloaderSupport(b) => push_value(out, vs, flag(*b)),
        SpecialResponse::SerialNumber(v) => push_bytes(out, vs, v.as_slice()),
        _ => {
            proof { assert(out@ =~= old(out)@ + spec_special_payload(vs, *r)); }
        },
    }
}

/// The bytes of a response between the SysEx start and end bytes.
pub fn render_body(vs: ValueSize, res: &OpenDeckResponse, status: MessageStatus) -> (r: Vec<u8>)
    ensures r@ == spec_render_body(vs, *res, status),
{
    let mut out: Vec<u8> = Vec::new();
    out.push(M_ID_0);
    out.push(M_ID_1);
    out.push(M_ID_2);
    out.push(status.code());
    match res {
        OpenDeckResponse::Special(r) => {
            out.push(0);
            out.push(special_wish(r).code());
            let ghost head = out@;
            push_special_payload(&mut out, vs, r);
            proof {
                assert(head =~= seq![M_ID_0, M_ID_1, M_ID_2, status.spec_code(), 0u8, spec_special_wish(*r).spec_code()]);
            }
        },
        OpenDeckResponse::Configuration(wish, amount, block, values) => {
            let (part, amount_code): (u8, u8) = match amount {
                Amount::Single => (0, 0),
                Amount::All(p) => (*p, 1),
            };
            let (block_id, index, section_id, value) = block_fields(*block);
            out.push(part);
            out.push(wish.code());
            out.push(amount_code);
            out.push(block_id);
            out.push(section_id);
            let ghost head = out@;
            push_value(&mut out, vs, index);
            push_value(&mut out, vs, value);
            push_values(&mut out, vs, values);
            proof {
                assert(head =~= seq![M_ID_0, M_ID_1, M_ID_2, status.spec_code(), spec_part(*amount), wish.spec_code(), spec_amount_code(*amount), block_id, section_id]);
                assert(out@ =~= spec_render_body(vs, *res, status));
            }
        },
    }
    out
}

/// The whole SysEx message of a response, without the seven bit limit of a
/// SysEx payload.
pub fn render_message(vs: ValueSize, res: &OpenDeckResponse, status: MessageStatus) -> (r: Vec<u8>)
    ensures r@ == spec_render(vs, *res, status),
{
    let body = render_body(vs, res, status);
    let mut out: Vec<u8> = Vec::new();
    out.push(SYSEX_START);
    let mut i: usize = 0;
    while i < body.len()
        invariant
            0 <= i <= body@.len(),
            out@ == seq![SYSEX_START] + body@.take(i as int),
        decreases body@.len() - i,
    {
        out.push(body[i]);
        i += 1;
        proof { assert(out@ =~= seq![SYSEX_START] + body@.take(i as int)); }
    }
    out.push(SYSEX_END);
    proof {
        assert(body@.take(i as int) =~= body@);
        assert(out@ =~= spec_render(vs, *res, status));
    }
    out
}

/// Checks that every byte fits in seven bits.
fn check_seven_bit(body: &Vec<u8>) -> (r: bool)
    ensures r == all_seven_bit(body@),
{
    let mut i: usize = 0;
    while i < body.len()
        invariant
            0 <= i <= body@.len(),
            forall|j: int| 0 <= j < i ==> body@[j] < 128,
        decreases body@.len() - i,
    {
        if body[i] >= 128 {
            return false;
        }
        i += 1;
    }
    true
}

/// Writes the SysEx message with body `body` at the start of `buffer`.
fn write_body(body: &Vec<u8>, buffer: &mut [u8]) -> (r: Result<Option<usize>, RenderError>)
    ensures rendered(body@, old(buffer)@, final(buffer)@, r),
{
    if !check_seven_bit(body) {
        return Err(RenderError::InvalidData);
    }
    match write_sysex(buffer, body.as_slice()) {
        Ok(n) => Ok(Some(n)),
        Err(_) => Err(RenderError::BufferOverflow),
    }
}

/// Writes responses into a buffer, with values of `value_size` bytes.
pub struct OpenDeckRenderer<'a> {
    pub value_size: ValueSize,
    pub buffer: &'a mut [u8],
}

impl<'a> OpenDeckRenderer<'a> {
    pub fn new(value_size: ValueSize, buffer: &'a mut [u8]) -> (r: Self)
        ensures
            r.value_size == value_size,
            r.buffer@ == old(buffer)@,
            final(buffer)@ == final(r.buffer)@,
    {
        OpenDeckRenderer { value_size, buffer }
    }

    /// Writes the SysEx message of a response with the given status and
    /// returns its length. Fails when a byte of it does not fit in seven bits
    /// (the buffer is then left alone) or when the buffer cannot hold it.
    pub fn render(self, res: OpenDeckResponse, status: MessageStatus) -> (r: Result<Option<usize>, RenderError>)
        ensures rendered(spec_render_body(self.value_size, res, status), old(self.buffer)@, final(self.buffer)@, r),
    {
        let body = render_body(self.value_size, &res, status);
        write_body(&body, self.buffer)
    }

    /// Writes a component info message, which tells the host that the
    /// component `index` of `block` moved.
    pub fn render_component_info(self, block: BlockId, index: u16) -> (r: Result<Option<usize>, RenderError>)
        ensures rendered(spec_component_info_body(self.value_size, block, index), old(self.buffer)@, final(self.buffer)@, r),
    {
        let mut body: Vec<u8> = Vec::new();
        body.push(M_ID_0);
        body.push(M_ID_1);
        body.push(M_ID_2);
        body.push(MessageStatus::Response.code());
        body.push(0);
        body.push(COMPONENT_INFO_WISH);
        body.push(block.code());
        let ghost head = body@;
        push_value(&mut body, self.value_size, index);
        proof {
            assert(head =~= seq![M_ID_0, M_ID_1, M_ID_2, MessageStatus::Response.spec_code(), 0u8, COMPONENT_INFO_WISH, block.spec_code()]);
        }
        write_body(&body, self.buffer)
    }
}

} // verus!
