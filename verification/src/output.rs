//! What the runtime hands back during a run.
use vstd::prelude::*;
use vstd::slice::slice_subrange;

use crate::bindings::{LLMCallState, RKLLMPerfStat, RKLLMResult};
use crate::float::F32;
use crate::utf8::text_of;

verus! {

/// Where a run is in its lifecycle when the callback fires.
#[derive(Debug, Clone, Copy, PartialEq, Eq, Hash, Structural)]
#[non_exhaustive]
pub enum CallState {
    /// A chunk of output is ready.
    Normal,
    /// The runtime is holding back bytes until a UTF-8 character completes.
    Waiting,
    /// The run finished. This is the last call, and carries the perf stats.
    Finish,
    /// The run failed. This is the last call.
    Error,
    /// A state this crate does not know about.
    Unknown(u32),
}

impl From<LLMCallState> for CallState {
    fn from(raw: LLMCallState) -> (r: CallState) {
        match raw {
            LLMCallState::RKLLM_RUN_NORMAL => CallState::Normal,
            LLMCallState::RKLLM_RUN_WAITING => CallState::Waiting,
            LLMCallState::RKLLM_RUN_FINISH => CallState::Finish,
            LLMCallState::RKLLM_RUN_ERROR => CallState::Error,
            LLMCallState::Other(other) => CallState::Unknown(other),
        }
    }
}

impl vstd::std_specs::convert::FromSpecImpl<LLMCallState> for CallState {
    open spec fn obeys_from_spec() -> bool {
        true
    }

    open spec fn from_spec(raw: LLMCallState) -> CallState {
        CallState::meaning(raw)
    }
}

impl CallState {
    /// What a state of the runtime's stands for.
    pub open spec fn meaning(raw: LLMCallState) -> CallState {
        match raw {
            LLMCallState::RKLLM_RUN_NORMAL => CallState::Normal,
            LLMCallState::RKLLM_RUN_WAITING => CallState::Waiting,
            LLMCallState::RKLLM_RUN_FINISH => CallState::Finish,
            LLMCallState::RKLLM_RUN_ERROR => CallState::Error,
            LLMCallState::Other(other) => CallState::Unknown(other),
        }
    }

    /// Whether this is one of the two states that end a run.
    pub open spec fn ends_run(self) -> bool {
        self is Finish || self is Error
    }

    /// Whether no further callback will fire for this run.
    pub fn is_final(self) -> (r: bool)
        ensures
            r == self.ends_run(),
    {
        matches!(self, CallState::Finish | CallState::Error)
    }
}

/// What the callback tells the runtime to do next.
///
/// Ignored once the state is final.
#[derive(Debug, Clone, Copy, PartialEq, Eq, Hash, Structural)]
pub enum Control {
    /// Keep generating.
    Continue,
    /// Suspend this run and return from `run_llm`.
    ///
    /// Generation can be resumed by calling `run_llm` again with the content
    /// to continue from. This is also how a caller stops a run from inside the
    /// callback, since the C API has no separate stop code.
    Pause,
    /// Keep generating, but drop the buffer backing the current output.
    ///
    /// Worth returning when running in a mode that produces hidden states or
    /// logits, where each buffer can be large and is not always wanted.
    ReleaseBuffer,
}

impl Default for Control {
    fn default() -> (r: Control)
        ensures
            r == Control::Continue,
    {
        Control::Continue
    }
}

impl Control {
    /// The number the C API knows this decision by.
    pub open spec fn code(self) -> i32 {
        match self {
            Control::Continue => 0,
            Control::Pause => 1,
            Control::ReleaseBuffer => 2,
        }
    }

    /// The number the C API knows this decision by.
    pub fn as_code(self) -> (r: i32)
        ensures
            r == self.code(),
    {
        match self {
            Control::Continue => 0,
            Control::Pause => 1,
            Control::ReleaseBuffer => 2,
        }
    }
}

/// Timings and memory use for a finished run.
#[derive(Debug, Clone, Copy, PartialEq)]
pub struct PerfStat {
    /// Wall time spent in the prefill stage, in milliseconds.
    pub prefill_time_ms: F32,
    /// Tokens consumed during prefill.
    pub prefill_tokens: i32,
    /// Wall time spent generating, in milliseconds.
    pub generate_time_ms: F32,
    /// Tokens produced during generation.
    pub generate_tokens: i32,
    /// Peak resident memory during inference, in megabytes.
    pub memory_usage_mb: F32,
}

impl From<RKLLMPerfStat> for PerfStat {
    fn from(raw: RKLLMPerfStat) -> (r: PerfStat) {
        PerfStat {
            prefill_time_ms: raw.prefill_time_ms,
            prefill_tokens: raw.prefill_tokens,
            generate_time_ms: raw.generate_time_ms,
            generate_tokens: raw.generate_tokens,
            memory_usage_mb: raw.memory_usage_mb,
        }
    }
}

impl vstd::std_specs::convert::FromSpecImpl<RKLLMPerfStat> for PerfStat {
    open spec fn obeys_from_spec() -> bool {
        true
    }

    open spec fn from_spec(raw: RKLLMPerfStat) -> PerfStat {
        PerfStat::of(raw)
    }
}

impl PerfStat {
    /// The same numbers, under this crate's names.
    pub open spec fn of(raw: RKLLMPerfStat) -> PerfStat {
        PerfStat {
            prefill_time_ms: raw.prefill_time_ms,
            prefill_tokens: raw.prefill_tokens,
            generate_time_ms: raw.generate_time_ms,
            generate_tokens: raw.generate_tokens,
            memory_usage_mb: raw.memory_usage_mb,
        }
    }
}

/// How many values `num_tokens` rows of `width` hold: none unless both are
/// positive and the product can be counted.
pub open spec fn buffer_len(num_tokens: i32, width: i32) -> Option<usize> {
    if num_tokens > 0 && width > 0 && num_tokens * width <= usize::MAX {
        Some((num_tokens * width) as usize)
    } else {
        None
    }
}

/// How many values a buffer of `num_tokens` rows of `width` holds, if any.
pub fn checked_len(num_tokens: i32, width: i32) -> (r: Option<usize>)
    ensures
        r == buffer_len(num_tokens, width),
{
    if num_tokens <= 0 || width <= 0 {
        proof {
            if num_tokens == 0 || width == 0 {
                assert(num_tokens * width == 0) by (nonlinear_arith)
                    requires
                        num_tokens == 0 || width == 0,
                ;
            }
        }
        return None;
    }
    let tokens: usize = num_tokens as usize;
    let width: usize = width as usize;
    tokens.checked_mul(width)
}

/// The values of a buffer, where it has any: as many as its dimensions call for.
/// A buffer that holds fewer is not read at all.
pub open spec fn values_of(
    buffer: Option<Vec<F32>>,
    num_tokens: i32,
    width: i32,
) -> Option<Seq<F32>> {
    match (buffer, buffer_len(num_tokens, width)) {
        (Some(buffer), Some(len)) => if len <= buffer@.len() {
            Some(buffer@.take(len as int))
        } else {
            None
        },
        _ => None,
    }
}

/// The values of a buffer, where it has any.
fn values(buffer: &Option<Vec<F32>>, num_tokens: i32, width: i32) -> (r: Option<&[F32]>)
    ensures
        r is Some <==> values_of(*buffer, num_tokens, width) is Some,
        r matches Some(v) ==> v@ == values_of(*buffer, num_tokens, width)->0,
{
    let len: Option<usize> = checked_len(num_tokens, width);
    match (len, buffer) {
        (Some(len), Some(buffer)) => if len <= buffer.len() {
            Some(slice_subrange(buffer.as_slice(), 0, len))
        } else {
            None
        },
        _ => None,
    }
}

/// One callback's worth of output, borrowed for the length of the call.
///
/// Everything here points into buffers the runtime owns and reuses, so nothing
/// outlives the callback. Use [`Output::to_chunk`] to keep a copy.
#[derive(Debug, Clone, Copy)]
pub struct Output<'a> {
    state: CallState,
    result: Option<&'a RKLLMResult>,
}

impl<'a> Output<'a> {
    /// Where the run is in its lifecycle.
    pub closed spec fn call_state(self) -> CallState {
        self.state
    }

    /// What the runtime reported, if it reported anything.
    pub closed spec fn entry(self) -> Option<RKLLMResult> {
        match self.result {
            Some(result) => Some(*result),
            None => None,
        }
    }

    /// The bytes of the generated text, if there is any.
    pub open spec fn raw_text(self) -> Option<Seq<u8>> {
        match self.entry() {
            Some(result) => match result.text {
                Some(text) => Some(text@),
                None => None,
            },
            None => None,
        }
    }

    /// The generated text, if there is any and it is valid UTF-8.
    pub open spec fn decoded_text(self) -> Option<Seq<char>> {
        match self.raw_text() {
            Some(bytes) => if vstd::utf8::valid_utf8(bytes) {
                Some(vstd::utf8::decode_utf8(bytes))
            } else {
                None
            },
            None => None,
        }
    }

    /// An output that reports `state` and `result`.
    pub fn new(state: CallState, result: Option<&'a RKLLMResult>) -> (r: Output<'a>)
        ensures
            r.call_state() == state,
            r.entry() == (match result {
                Some(result) => Some(*result),
                None => None,
            }),
    {
        Output { state, result }
    }

    /// Where the run is in its lifecycle.
    pub fn state(&self) -> (r: CallState)
        ensures
            r == self.call_state(),
    {
        self.state
    }

    /// The generated text, if this callback carries valid UTF-8 text.
    ///
    /// Returns `None` when the runtime passed no text, or passed bytes that are
    /// not UTF-8. Reach for [`Output::text_bytes`] to see them regardless.
    pub fn text(&self) -> (r: Option<&'a str>)
        ensures
            r is Some <==> self.decoded_text() is Some,
            r matches Some(text) ==> text@ == self.decoded_text()->0,
    {
        match self.text_bytes() {
            Some(bytes) => text_of(bytes),
            None => None,
        }
    }

    /// The generated text as raw bytes, without the trailing NUL.
    pub fn text_bytes(&self) -> (r: Option<&'a [u8]>)
        ensures
            r is Some <==> self.raw_text() is Some,
            r matches Some(bytes) ==> bytes@ == self.raw_text()->0,
    {
        match self.result {
            Some(result) => match &result.text {
                Some(text) => Some(text.as_bytes()),
                None => None,
            },
            None => None,
        }
    }

    /// The id of the token that produced this output.
    pub fn token_id(&self) -> (r: Option<i32>)
        ensures
            r == (match self.entry() {
                Some(result) => Some(result.token_id),
                None => None,
            }),
    {
        match self.result {
            Some(result) => Some(result.token_id),
            None => None,
        }
    }

    /// Whether this batch entry has stopped generating.
    ///
    /// The runtime says so with a negative token id. The other entries of the
    /// batch may still be going.
    pub fn is_finished(&self) -> (r: bool)
        ensures
            r == (self.entry() is Some && self.entry()->0.token_id < 0),
    {
        match self.result {
            Some(result) => result.token_id < 0,
            None => false,
        }
    }

    /// The last layer's hidden states, when running in that inference mode.
    pub fn hidden_states(&self) -> (r: Option<&'a [F32]>)
        ensures
            r is Some <==> self.entry() is Some && values_of(
                self.entry()->0.last_hidden_layer.hidden_states,
                self.entry()->0.last_hidden_layer.num_tokens,
                self.entry()->0.last_hidden_layer.embd_size,
            ) is Some,
            r matches Some(v) ==> v@ == values_of(
                self.entry()->0.last_hidden_layer.hidden_states,
                self.entry()->0.last_hidden_layer.num_tokens,
                self.entry()->0.last_hidden_layer.embd_size,
            )->0,
    {
        match self.result {
            Some(result) => {
                let layer = &result.last_hidden_layer;
                values(&layer.hidden_states, layer.num_tokens, layer.embd_size)
            },
            None => None,
        }
    }

    /// The output logits, when running in that inference mode.
    pub fn logits(&self) -> (r: Option<&'a [F32]>)
        ensures
            r is Some <==> self.entry() is Some && values_of(
                self.entry()->0.logits.logits,
                self.entry()->0.logits.num_tokens,
                self.entry()->0.logits.vocab_size,
            ) is Some,
            r matches Some(v) ==> v@ == values_of(
                self.entry()->0.logits.logits,
                self.entry()->0.logits.num_tokens,
                self.entry()->0.logits.vocab_size,
            )->0,
    {
        match self.result {
            Some(result) => {
                let logits = &result.logits;
                values(&logits.logits, logits.num_tokens, logits.vocab_size)
            },
            None => None,
        }
    }

    /// Timings for the run. Only meaningful once the state is [`CallState::Finish`].
    pub fn perf(&self) -> (r: Option<PerfStat>)
        ensures
            r == (match self.entry() {
                Some(result) => Some(PerfStat::of(result.perf)),
                None => None,
            }),
    {
        match self.result {
            Some(result) => Some(PerfStat::from(result.perf)),
            None => None,
        }
    }

    /// Copies this output into an owned [`Chunk`].
    ///
    /// Only the text, token id and perf stats are copied. Hidden states and
    /// logits are left behind, since they are large and usually consumed in
    /// place.
    pub fn to_chunk(&self) -> (r: Chunk)
        ensures
            r.state == self.call_state(),
            r.text is Some <==> self.decoded_text() is Some,
            r.text matches Some(text) ==> text@ == self.decoded_text()->0,
            r.token_id == (match self.entry() {
                Some(result) => Some(result.token_id),
                None => None,
            }),
            r.perf == (match self.entry() {
                Some(result) => Some(PerfStat::of(result.perf)),
                None => None,
            }),
    {
        let text: Option<String> = match self.text() {
            Some(text) => Some(text.to_owned()),
            None => None,
        };
        Chunk { state: self.state, text, token_id: self.token_id(), perf: self.perf() }
    }
}

/// An owned copy of one callback's output, for sending across threads.
#[derive(Debug, Clone, PartialEq)]
#[non_exhaustive]
pub struct Chunk {
    /// Where the run was when this chunk was produced.
    pub state: CallState,
    /// The generated text, when there was valid UTF-8 text to copy.
    pub text: Option<String>,
    /// The id of the token that produced this chunk.
    pub token_id: Option<i32>,
    /// Timings, populated on the final chunk.
    pub perf: Option<PerfStat>,
}

impl Chunk {
    /// The text, or the empty string when this chunk carried none.
    pub fn text(&self) -> (r: &str)
        ensures
            r@ == (match self.text {
                Some(text) => text@,
                None => Seq::<char>::empty(),
            }),
    {
        match &self.text {
            Some(text) => text.as_str(),
            None => {
                proof {
                    reveal_strlit("");
                }
                ""
            },
        }
    }
}

/// No two decisions share a number, so the runtime never takes one for another.
pub proof fn codes_are_distinct(a: Control, b: Control)
    requires
        a.code() == b.code(),
    ensures
        a == b,
{
}

/// No two states of the runtime's are taken for one, so none is mistaken for a
/// state that ends the run.
pub proof fn states_are_told_apart(a: LLMCallState, b: LLMCallState)
    requires
        CallState::meaning(a) == CallState::meaning(b),
    ensures
        a == b,
{
}

/// Every state keeps its name, and one that has none keeps its number. The two that
/// end a run are the only ones that do.
pub proof fn states_keep_their_names(raw: LLMCallState, number: u32)
    ensures
        CallState::meaning(raw) is Normal <==> raw is RKLLM_RUN_NORMAL,
        CallState::meaning(raw) is Waiting <==> raw is RKLLM_RUN_WAITING,
        CallState::meaning(raw) is Finish <==> raw is RKLLM_RUN_FINISH,
        CallState::meaning(raw) is Error <==> raw is RKLLM_RUN_ERROR,
        CallState::meaning(raw) == CallState::Unknown(number) <==> raw == LLMCallState::Other(
            number,
        ),
        CallState::meaning(raw).ends_run() <==> raw is RKLLM_RUN_FINISH || raw is RKLLM_RUN_ERROR,
{
}

/// Each decision has the number that the C API gives it.
pub proof fn decisions_have_their_numbers(control: Control)
    ensures
        control.code() == 0 <==> control is Continue,
        control.code() == 1 <==> control is Pause,
        control.code() == 2 <==> control is ReleaseBuffer,
        0 <= control.code() <= 2,
{
}

/// Each timing keeps its name and value.
pub proof fn timings_keep_their_names(raw: RKLLMPerfStat)
    ensures
        PerfStat::of(raw).prefill_time_ms == raw.prefill_time_ms,
        PerfStat::of(raw).prefill_tokens == raw.prefill_tokens,
        PerfStat::of(raw).generate_time_ms == raw.generate_time_ms,
        PerfStat::of(raw).generate_tokens == raw.generate_tokens,
        PerfStat::of(raw).memory_usage_mb == raw.memory_usage_mb,
{
}

/// A buffer is read exactly when it is there, has rows of some width, and holds them
/// all. What is read is its front, as long as the rows are together.
pub proof fn a_buffer_is_read_to_its_dimensions(
    buffer: Option<Vec<F32>>,
    num_tokens: i32,
    width: i32,
)
    ensures
        values_of(buffer, num_tokens, width) is Some <==> {
            &&& buffer is Some
            &&& num_tokens > 0
            &&& width > 0
            &&& num_tokens * width <= buffer->0@.len()
        },
        values_of(buffer, num_tokens, width) matches Some(values) ==> {
            &&& values.len() == num_tokens * width
            &&& forall|i: int| 0 <= i < values.len() ==> values[i] == #[trigger] buffer->0@[i]
        },
        buffer_len(num_tokens, width) matches Some(len) ==> len == num_tokens * width,
{
    if num_tokens > 0 && width > 0 {
        assert(num_tokens * width > 0) by (nonlinear_arith)
            requires
                num_tokens > 0,
                width > 0,
        ;
        if let Some(values) = buffer {
            assert(values.len() == values@.len());
        }
    }
}

/// Text is what the runtime reported, byte for byte, and it is text exactly when
/// those bytes are UTF-8.
pub proof fn text_is_what_was_reported(output: Output<'_>)
    ensures
        output.raw_text() is Some <==> output.entry() is Some && output.entry()->0.text is Some,
        output.raw_text() matches Some(bytes) ==> bytes == output.entry()->0.text->0@,
        output.decoded_text() is Some <==> output.raw_text() is Some && vstd::utf8::valid_utf8(
            output.raw_text()->0,
        ),
        output.decoded_text() matches Some(text) ==> vstd::utf8::encode_utf8(text)
            == output.raw_text()->0,
{
    if let Some(text) = output.decoded_text() {
        vstd::utf8::decode_utf8_encode_utf8(output.raw_text()->0);
    }
}

/// An output tells the state and the result it was made of.
pub proof fn an_output_tells_what_it_was_made_of(
    state: CallState,
    result: Option<&RKLLMResult>,
    output: Output<'_>,
)
    requires
        call_ensures(Output::new, (state, result), output),
    ensures
        output.call_state() == state,
        output.entry() is Some <==> result is Some,
        result matches Some(result) ==> output.entry()->0 == *result,
{
}

/// A chunk keeps the state, the text, the token and the timings of the output it was
/// copied from.
pub proof fn a_chunk_keeps_the_output(output: Output<'_>, chunk: Chunk)
    requires
        call_ensures(Output::to_chunk, (&output,), chunk),
    ensures
        chunk.state == output.call_state(),
        chunk.token_id is Some <==> output.entry() is Some,
        chunk.token_id matches Some(id) ==> id == output.entry()->0.token_id,
        chunk.perf is Some <==> output.entry() is Some,
        chunk.perf matches Some(perf) ==> {
            &&& perf.generate_tokens == output.entry()->0.perf.generate_tokens
            &&& perf.generate_time_ms == output.entry()->0.perf.generate_time_ms
            &&& perf.prefill_tokens == output.entry()->0.perf.prefill_tokens
            &&& perf.prefill_time_ms == output.entry()->0.perf.prefill_time_ms
            &&& perf.memory_usage_mb == output.entry()->0.perf.memory_usage_mb
        },
        chunk.text matches Some(text) ==> vstd::utf8::encode_utf8(text@)
            == output.entry()->0.text->0@,
        chunk.text is Some <==> output.entry() is Some && output.entry()->0.text is Some
            && vstd::utf8::valid_utf8(output.entry()->0.text->0@),
{
    text_is_what_was_reported(output);
}

/// An output that reports nothing has nothing to show but the state.
pub proof fn nothing_reported_shows_nothing(output: Output<'_>)
    requires
        output.entry() is None,
    ensures
        forall|r: Option<&str>| #[trigger] call_ensures(Output::text, (&output,), r) ==> r is None,
        forall|r: Option<&[u8]>| #[trigger]
            call_ensures(Output::text_bytes, (&output,), r) ==> r is None,
        forall|r: Option<i32>| #[trigger]
            call_ensures(Output::token_id, (&output,), r) ==> r is None,
        forall|r: bool| #[trigger] call_ensures(Output::is_finished, (&output,), r) ==> !r,
        forall|r: Option<&[F32]>| #[trigger]
            call_ensures(Output::hidden_states, (&output,), r) ==> r is None,
        forall|r: Option<&[F32]>| #[trigger]
            call_ensures(Output::logits, (&output,), r) ==> r is None,
        forall|r: Option<PerfStat>| #[trigger]
            call_ensures(Output::perf, (&output,), r) ==> r is None,
{
}

/// An output shows what was reported, each part under its own name: the state, the
/// token, whether the entry has stopped, and the text in its bytes and, where they
/// are UTF-8, as text.
pub proof fn what_was_reported_is_shown(output: Output<'_>, result: RKLLMResult)
    requires
        output.entry() == Some(result),
    ensures
        forall|r: CallState| #[trigger]
            call_ensures(Output::state, (&output,), r) ==> r == output.call_state(),
        forall|r: Option<i32>| #[trigger]
            call_ensures(Output::token_id, (&output,), r) ==> r == Some(result.token_id),
        forall|r: bool| #[trigger]
            call_ensures(Output::is_finished, (&output,), r) ==> (r <==> result.token_id < 0),
        forall|r: Option<&[u8]>| #[trigger]
            call_ensures(Output::text_bytes, (&output,), r) ==> {
                &&& r is Some <==> result.text is Some
                &&& r is Some ==> r->0@ == result.text->0@
            },
        forall|r: Option<&str>| #[trigger]
            call_ensures(Output::text, (&output,), r) ==> {
                &&& r is Some <==> result.text is Some && vstd::utf8::valid_utf8(result.text->0@)
                &&& r is Some ==> vstd::utf8::encode_utf8(r->0@) == result.text->0@
            },
        forall|r: Option<PerfStat>| #[trigger]
            call_ensures(Output::perf, (&output,), r) ==> r is Some && r->0.generate_tokens
                == result.perf.generate_tokens && r->0.generate_time_ms
                == result.perf.generate_time_ms && r->0.prefill_tokens
                == result.perf.prefill_tokens && r->0.prefill_time_ms
                == result.perf.prefill_time_ms && r->0.memory_usage_mb
                == result.perf.memory_usage_mb,
{
    text_is_what_was_reported(output);
}

/// Hidden states are read from the last hidden layer and logits from the logits, each
/// to its own dimensions.
pub proof fn buffers_are_read_from_their_own_place(output: Output<'_>, result: RKLLMResult)
    requires
        output.entry() == Some(result),
    ensures
        forall|r: Option<&[F32]>| #[trigger]
            call_ensures(Output::hidden_states, (&output,), r) ==> {
                let layer = result.last_hidden_layer;
                &&& r is Some <==> {
                    &&& layer.hidden_states is Some
                    &&& layer.num_tokens > 0 && layer.embd_size > 0
                    &&& layer.num_tokens * layer.embd_size <= layer.hidden_states->0@.len()
                }
                &&& r is Some ==> r->0@ == layer.hidden_states->0@.take(
                    layer.num_tokens * layer.embd_size,
                )
            },
        forall|r: Option<&[F32]>| #[trigger]
            call_ensures(Output::logits, (&output,), r) ==> {
                let logits = result.logits;
                &&& r is Some <==> {
                    &&& logits.logits is Some
                    &&& logits.num_tokens > 0 && logits.vocab_size > 0
                    &&& logits.num_tokens * logits.vocab_size <= logits.logits->0@.len()
                }
                &&& r is Some ==> r->0@ == logits.logits->0@.take(
                    logits.num_tokens * logits.vocab_size,
                )
            },
{
    a_buffer_is_read_to_its_dimensions(
        result.last_hidden_layer.hidden_states,
        result.last_hidden_layer.num_tokens,
        result.last_hidden_layer.embd_size,
    );
    a_buffer_is_read_to_its_dimensions(
        result.logits.logits,
        result.logits.num_tokens,
        result.logits.vocab_size,
    );
}

/// The text of a chunk is the one it carries, and empty where it carries none.
pub proof fn a_chunk_tells_its_text(chunk: Chunk, r: &str)
    requires
        call_ensures(Chunk::text, (&chunk,), r),
    ensures
        chunk.text is None ==> r@.len() == 0,
        chunk.text matches Some(text) ==> r@ == text@,
{
}

} // verus!
