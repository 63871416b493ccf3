//! The responses to one SysEx request, rendered one by one.
use vstd::prelude::*;
use crate::config::backup::{is_step_response, ConfigBackupIterator};
use crate::config::{all_values_fit, spec_all_part, spec_component_count, spec_process_req, spec_req_answered, Config, ConfigView, SystemHandler};
use crate::renderer::{rendered, spec_render_body, OpenDeckRenderer, RenderError};
use crate::values::{values_new, values_view};
use crate::parser::{spec_parse, OpenDeckParseError};
use crate::{same_response, Amount, MessageStatus, OpenDeckRequest, OpenDeckResponse, SpecialRequest, SpecialResponse, ValueSize, Wish, PARAMS_PER_MESSAGE};

verus! {

/// A response that is given again on every call.
pub struct SingleResponseIterator {
    pub response: OpenDeckResponse,
    pub message_status: MessageStatus,
    pub done: bool,
}

impl SingleResponseIterator {
    pub fn new(response: OpenDeckResponse, message_status: MessageStatus) -> (r: SingleResponseIterator)
        ensures r.response == response, r.message_status == message_status, !r.done,
    {
        SingleResponseIterator { response, message_status, done: false }
    }

    /// The response and its status; it never runs out.
    pub fn next(&mut self) -> (r: Option<(OpenDeckResponse, MessageStatus)>)
        ensures
            *final(self) == *old(self),
            old(self).done ==> r is None,
            !old(self).done ==> (r matches Some((res, status)) && same_response(res, old(self).response) && status == old(self).message_status),
    {
        if self.done {
            return None;
        }
        Some((self.response.duplicate(), self.message_status))
    }
}

/// The number of parts that the values of `count` components take.
pub open spec fn spec_total_parts(count: usize) -> u8 {
    ((count + PARAMS_PER_MESSAGE - 1) / PARAMS_PER_MESSAGE as int) as u8
}

/// The part byte that asks for every part in turn.
pub const PART_ALL: u8 = 0x7F;
/// The part byte that asks for every part in turn and a closing acknowledgement.
pub const PART_ALL_WITH_ACK: u8 = 0x7E;

/// The responses to one request. A get or backup of all values of a block
/// is answered part by part, 32 values each.
pub struct ConfigResponseIterator<const P: usize, const B: usize, const A: usize, const E: usize, const L: usize> {
    pub request: OpenDeckRequest,
    pub part: u8,
    pub done: bool,
}

/// `r` is the response `Configuration(wish, amount, block)` with `values`.
pub open spec fn is_config_response(r: Option<OpenDeckResponse>, wish: Wish, amount: Amount, block: crate::Block, values: Seq<u16>) -> bool {
    r matches Some(OpenDeckResponse::Configuration(w, a, b, v)) && w == wish && a == amount && b == block && values_view(v) == values
}

impl<const P: usize, const B: usize, const A: usize, const E: usize, const L: usize> ConfigResponseIterator<P, B, A, E, L> {
    pub fn new(request: OpenDeckRequest) -> (r: Self)
        ensures r.request == request, r.part == 0, !r.done,
    {
        ConfigResponseIterator { request, part: 0, done: false }
    }

    /// What a call of `next` did: the iterator became `new`, the
    /// configuration went from `c` to `c2`, and it returned `r`.
    pub open spec fn next_post(self, new: Self, c: ConfigView, c2: ConfigView, r: Option<OpenDeckResponse>) -> bool {
        &&& new.request == self.request
        &&& self.done ==> r is None && new == self && c2 == c
        &&& !self.done ==> match self.request {
            OpenDeckRequest::Configuration(wish, Amount::All(orig_part), block) if wish != Wish::SetValue => {
                let total = spec_total_parts(spec_component_count(block, B, A, E, L));
                &&& c2 == c
                &&& if orig_part == PART_ALL || orig_part == PART_ALL_WITH_ACK {
                    if self.part < total {
                        &&& is_config_response(r, wish, Amount::All(self.part), block, spec_all_part(c, block, self.part, B, A, E, L))
                        &&& new.part == self.part + 1 && !new.done
                    } else {
                        &&& new.done
                        &&& orig_part == PART_ALL_WITH_ACK ==> is_config_response(r, wish, Amount::All(PART_ALL_WITH_ACK), block, Seq::<u16>::empty())
                        &&& orig_part == PART_ALL ==> r is None
                    }
                } else {
                    &&& new.done
                    &&& orig_part < total ==> is_config_response(r, wish, Amount::All(orig_part), block, spec_all_part(c, block, orig_part, B, A, E, L))
                    &&& orig_part >= total ==> r is None
                }
            },
            _ => {
                &&& new.done
                &&& c2 == spec_process_req(c, self.request, P, B, A, E, L).0
                &&& spec_req_answered(c, self.request, r, P, B, A, E, L)
            },
        }
    }

    /// The next response to the request, if any.
    pub fn next<H: SystemHandler>(&mut self, config: &mut Config<P, B, A, E, L, H>) -> (r: Option<OpenDeckResponse>)
        requires old(config).wf(),
        ensures
            final(config).wf(),
            old(self).next_post(*final(self), old(config)@, final(config)@, r),
    {
        if self.done {
            return None;
        }
        match self.request {
            OpenDeckRequest::Configuration(wish, Amount::All(orig_part), block) if !matches!(wish, Wish::SetValue) => {
                let count = config.component_count(&block);
                let total_parts = (count / PARAMS_PER_MESSAGE + if count % PARAMS_PER_MESSAGE == 0 { 0 } else { 1 }) as u8;
                proof {
                    assert(total_parts == spec_total_parts(count));
                }
                if orig_part == PART_ALL || orig_part == PART_ALL_WITH_ACK {
                    if self.part < total_parts {
                        let values = config.get_all_part(wish, block, self.part);
                        let response_part = self.part;
                        self.part += 1;
                        Some(OpenDeckResponse::Configuration(wish, Amount::All(response_part), block, values))
                    } else if orig_part == PART_ALL_WITH_ACK {
                        self.done = true;
                        Some(OpenDeckResponse::Configuration(wish, Amount::All(PART_ALL_WITH_ACK), block, values_new()))
                    } else {
                        self.done = true;
                        None
                    }
                } else {
                    self.done = true;
                    if orig_part < total_parts {
                        let values = config.get_all_part(wish, block, orig_part);
                        Some(OpenDeckResponse::Configuration(wish, Amount::All(orig_part), block, values))
                    } else {
                        None
                    }
                }
            },
            _ => {
                self.done = true;
                proof {
                    assert(self.request matches OpenDeckRequest::Configuration(wish, amount, block) ==> all_values_fit(wish, amount, block, B, A, E, L));
                }
                config.process_req(self.request)
            },
        }
    }
}

/// The answer at call `j` to a request for all values of `block` with part
/// byte `orig`: `None` when there is none, else its amount and values. Every
/// part, or every part and a closing acknowledgement, comes in turn; a single
/// part comes once, if it exists.
pub open spec fn spec_multipart_answer<const B: usize, const A: usize, const E: usize, const L: usize>(
    c: ConfigView, orig: u8, block: crate::Block, j: int,
) -> Option<(Amount, Seq<u16>)> {
    let total = spec_total_parts(spec_component_count(block, B, A, E, L)) as int;
    if orig == PART_ALL || orig == PART_ALL_WITH_ACK {
        if j < total {
            Some((Amount::All(j as u8), spec_all_part(c, block, j as u8, B, A, E, L)))
        } else if j == total && orig == PART_ALL_WITH_ACK {
            Some((Amount::All(PART_ALL_WITH_ACK), Seq::<u16>::empty()))
        } else {
            None
        }
    } else if j == 0 && (orig as int) < total {
        Some((Amount::All(orig), spec_all_part(c, block, orig, B, A, E, L)))
    } else {
        None
    }
}

/// `r` is the answer `ans` to a request with `wish` for `block`: nothing, or
/// a configuration response with its amount and values.
pub open spec fn answers_as(r: Option<OpenDeckResponse>, wish: Wish, block: crate::Block, ans: Option<(Amount, Seq<u16>)>) -> bool {
    match ans {
        None => r is None,
        Some((amount, values)) => is_config_response(r, wish, amount, block, values),
    }
}

/// `its`, `cs` and `rs` are a run of calls of `next`: call `j` took the
/// iterator from `its[j]` to `its[j + 1]` and the configuration from `cs[j]`
/// to `cs[j + 1]`, and returned `rs[j]`.
pub open spec fn is_response_run<const P: usize, const B: usize, const A: usize, const E: usize, const L: usize>(
    its: Seq<ConfigResponseIterator<P, B, A, E, L>>, cs: Seq<ConfigView>, rs: Seq<Option<OpenDeckResponse>>,
) -> bool {
    &&& its.len() == rs.len() + 1
    &&& cs.len() == rs.len() + 1
    &&& forall|j: int| 0 <= j < rs.len() ==> #[trigger] its[j].next_post(its[j + 1], cs[j], cs[j + 1], rs[j])
}

/// Where a run of a request for all values stands after `j` calls.
spec fn multipart_state<const P: usize, const B: usize, const A: usize, const E: usize, const L: usize>(
    it: ConfigResponseIterator<P, B, A, E, L>, orig: u8, block: crate::Block, j: int,
) -> bool {
    let total = spec_total_parts(spec_component_count(block, B, A, E, L)) as int;
    if orig == PART_ALL || orig == PART_ALL_WITH_ACK {
        if j <= total { it.part == j && !it.done } else { it.done }
    } else {
        if j == 0 { it.part == 0 && !it.done } else { it.done }
    }
}

proof fn lemma_multipart_states<const P: usize, const B: usize, const A: usize, const E: usize, const L: usize>(
    its: Seq<ConfigResponseIterator<P, B, A, E, L>>, cs: Seq<ConfigView>, rs: Seq<Option<OpenDeckResponse>>,
    wish: Wish, orig: u8, block: crate::Block, j: int,
)
    requires
        is_response_run(its, cs, rs),
        wish != Wish::SetValue,
        its[0].request == OpenDeckRequest::Configuration(wish, Amount::All(orig), block),
        its[0].part == 0,
        !its[0].done,
        0 <= j <= rs.len(),
    ensures
        its[j].request == its[0].request,
        cs[j] == cs[0],
        multipart_state(its[j], orig, block, j),
    decreases j,
{
    if j > 0 {
        lemma_multipart_states(its, cs, rs, wish, orig, block, j - 1);
        assert(its[j - 1].next_post(its[j - 1 + 1], cs[j - 1], cs[j - 1 + 1], rs[j - 1]));
    }
}

/// The answers to a get or backup request for all values of a block, over
/// any run of calls with the configuration left as it is between them:
/// with part byte 0x7F, the parts 0, 1, ... of 32 values each, as many as the
/// components need, then nothing; with 0x7E, the same parts and then an
/// empty acknowledgement with part 0x7E; with any other part byte, that part
/// alone, if it exists. The configuration never changes.
pub proof fn lemma_multipart_responses<const P: usize, const B: usize, const A: usize, const E: usize, const L: usize>(
    its: Seq<ConfigResponseIterator<P, B, A, E, L>>, cs: Seq<ConfigView>, rs: Seq<Option<OpenDeckResponse>>,
    wish: Wish, orig: u8, block: crate::Block,
)
    requires
        is_response_run(its, cs, rs),
        wish != Wish::SetValue,
        its[0].request == OpenDeckRequest::Configuration(wish, Amount::All(orig), block),
        its[0].part == 0,
        !its[0].done,
    ensures
        forall|j: int| 0 <= j < cs.len() ==> #[trigger] cs[j] == cs[0],
        forall|j: int| 0 <= j < rs.len() ==> #[trigger] answers_as(rs[j], wish, block, spec_multipart_answer::<B, A, E, L>(cs[0], orig, block, j)),
{
    assert forall|j: int| 0 <= j < cs.len() implies #[trigger] cs[j] == cs[0] by {
        lemma_multipart_states(its, cs, rs, wish, orig, block, j);
    }
    assert forall|j: int| 0 <= j < rs.len() implies #[trigger] answers_as(rs[j], wish, block, spec_multipart_answer::<B, A, E, L>(cs[0], orig, block, j)) by {
        lemma_multipart_states(its, cs, rs, wish, orig, block, j);
        assert(its[j].next_post(its[j + 1], cs[j], cs[j + 1], rs[j]));
    }
}

/// The responses to one SysEx message: those of a request, those of a
/// backup, or the report of a malformed request.
pub enum SysexResponseIterator<const P: usize, const B: usize, const A: usize, const E: usize, const L: usize> {
    Config(ConfigResponseIterator<P, B, A, E, L>),
    Backup(ConfigBackupIterator<P, B, A, E, L>),
    Error(SingleResponseIterator),
    /// The message is not answered.
    Empty,
}

/// Writing response `res` (none when `None`) with `status` took the buffer from
/// `before` to `after` and returned `r`.
pub open spec fn rendered_response(res: Option<OpenDeckResponse>, status: MessageStatus, before: Seq<u8>, after: Seq<u8>, r: Result<Option<usize>, RenderError>) -> bool {
    match res {
        None => r == Ok::<Option<usize>, RenderError>(None) && after == before,
        Some(x) => rendered(spec_render_body(ValueSize::TwoBytes, x, status), before, after, r),
    }
}

impl<const P: usize, const B: usize, const A: usize, const E: usize, const L: usize> SysexResponseIterator<P, B, A, E, L> {
    pub open spec fn wf(self) -> bool {
        match self {
            SysexResponseIterator::Backup(i) => i.wf() && P > 0,
            _ => true,
        }
    }

    /// Writes the next response into `buffer`, with values of two bytes, and
    /// returns its length; `Ok(None)` once there is none left.
    pub fn next<H: SystemHandler>(&mut self, buffer: &mut [u8], config: &mut Config<P, B, A, E, L, H>) -> (r: Result<Option<usize>, RenderError>)
        requires old(self).wf(), old(config).wf(),
        ensures
            final(self).wf(),
            final(config).wf(),
            *old(self) is Empty ==> *final(self) is Empty && r == Ok::<Option<usize>, RenderError>(None)
                && final(buffer)@ == old(buffer)@ && final(config)@ == old(config)@,
            *old(self) is Config ==> *final(self) is Config && exists|res: Option<OpenDeckResponse>| {
                &&& (*old(self))->Config_0.next_post((*final(self))->Config_0, old(config)@, final(config)@, res)
                &&& #[trigger] rendered_response(res, MessageStatus::Response, old(buffer)@, final(buffer)@, r)
            },
            *old(self) is Backup ==> *final(self) is Backup && final(config)@ == old(config)@ && ({
                let rem = (*old(self))->Backup_0.remaining(old(config)@.presets);
                &&& (*final(self))->Backup_0.remaining(old(config)@.presets) == if rem.len() == 0 { rem } else { rem.drop_first() }
                &&& exists|res: Option<OpenDeckResponse>| {
                    &&& (rem.len() == 0 ==> res is None)
                    &&& (rem.len() > 0 ==> is_step_response(res, rem[0]))
                    &&& #[trigger] rendered_response(res, MessageStatus::Response, old(buffer)@, final(buffer)@, r)
                }
            }),
            *old(self) is Error ==> *final(self) == *old(self) && final(config)@ == old(config)@ && ({
                let i = (*old(self))->Error_0;
                &&& i.done ==> r == Ok::<Option<usize>, RenderError>(None) && final(buffer)@ == old(buffer)@
                &&& !i.done ==> exists|res: OpenDeckResponse| same_response(res, i.response)
                    && #[trigger] rendered_response(Some(res), i.message_status, old(buffer)@, final(buffer)@, r)
            }),
    {
        match self {
            SysexResponseIterator::Config(i) => {
                let res = i.next(config);
                let ghost gres = res;
                let r = match res {
                    Some(res) => OpenDeckRenderer::new(ValueSize::TwoBytes, buffer).render(res, MessageStatus::Response),
                    None => Ok(None),
                };
                proof { assert(rendered_response(gres, MessageStatus::Response, old(buffer)@, buffer@, r)); }
                r
            },
            SysexResponseIterator::Backup(i) => {
                let res = i.next(config);
                let ghost gres = res;
                let r = match res {
                    Some(res) => OpenDeckRenderer::new(ValueSize::TwoBytes, buffer).render(res, MessageStatus::Response),
                    None => Ok(None),
                };
                proof { assert(rendered_response(gres, MessageStatus::Response, old(buffer)@, buffer@, r)); }
                r
            },
            SysexResponseIterator::Error(i) => {
                match i.next() {
                    Some((res, status)) => {
                        let ghost gres = res;
                        let r = OpenDeckRenderer::new(ValueSize::TwoBytes, buffer).render(res, status);
                        proof { assert(rendered_response(Some(gres), status, old(buffer)@, buffer@, r)); }
                        r
                    },
                    None => Ok(None),
                }
            },
            SysexResponseIterator::Empty => Ok(None),
        }
    }
}

impl<const P: usize, const B: usize, const A: usize, const E: usize, const L: usize, H: SystemHandler> Config<P, B, A, E, L, H> {
    /// Reads a SysEx message and returns its responses: a backup request
    /// starts a backup, a malformed request with a status error is answered
    /// with that status, any other malformed message is not answered.
    pub fn process_sysex(&mut self, request: &[u8]) -> (r: SysexResponseIterator<P, B, A, E, L>)
        ensures
            final(self)@ == old(self)@,
            r.wf() || P == 0,
            ({
                let parsed = spec_parse(old(self).parser.value_size, request@);
                match parsed {
                    Ok(OpenDeckRequest::Special(SpecialRequest::Backup)) =>
                        r matches SysexResponseIterator::Backup(i) && i.wf()
                            && forall|ps: Seq<crate::config::PresetView>| #[trigger] i.remaining(ps) == crate::config::backup::spec_config_backup(ps),
                    Ok(req) => r matches SysexResponseIterator::Config(i) && i.request == req && i.part == 0 && !i.done,
                    Err(OpenDeckParseError::StatusError(status)) => r matches SysexResponseIterator::Error(i)
                        && i.response == OpenDeckResponse::Special(SpecialResponse::Handshake) && i.message_status == status && !i.done,
                    Err(_) => r is Empty,
                }
            }),
    {
        match self.parser.parse(request) {
            Ok(OpenDeckRequest::Special(SpecialRequest::Backup)) => SysexResponseIterator::Backup(ConfigBackupIterator::new()),
            Ok(request) => SysexResponseIterator::Config(ConfigResponseIterator::new(request)),
            Err(OpenDeckParseError::StatusError(message_status)) => {
                let response = OpenDeckResponse::Special(SpecialResponse::Handshake);
                SysexResponseIterator::Error(SingleResponseIterator::new(response, message_status))
            },
            Err(_) => SysexResponseIterator::Empty,
        }
    }
}

} // verus!
