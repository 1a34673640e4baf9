//! Outputs, strings, numbers, messages and the stream's decisions.

use rkllm::bindings::{
    LLMCallState, RKLLMPerfStat, RKLLMResult, RKLLMResultLastHiddenLayer, RKLLMResultLogits,
};
use rkllm::decimal::{decimal_text, signed_decimal_text};
use rkllm::output::checked_len;
use rkllm::stream::{
    after_send, capacity, Joined, Polled, Received, Step, StreamError, StreamState, TaskPoll,
    DEFAULT_BUFFER,
};
use rkllm::{CString, CallState, Chunk, Control, Error, Linked, Mode, Output, Param, F32};

fn number(value: f32) -> F32 {
    F32::from_bits(value.to_bits())
}

fn result(text: Option<&[u8]>) -> RKLLMResult {
    RKLLMResult {
        text: text.map(|bytes| CString::new(bytes.to_vec()).unwrap()),
        token_id: 42,
        last_hidden_layer: RKLLMResultLastHiddenLayer {
            hidden_states: Some(vec![number(1.0), number(2.0), number(3.0)]),
            embd_size: 2,
            num_tokens: 1,
        },
        logits: RKLLMResultLogits { logits: None, vocab_size: 2, num_tokens: 1 },
        perf: RKLLMPerfStat {
            prefill_time_ms: number(1.5),
            prefill_tokens: 2,
            generate_time_ms: number(2.5),
            generate_tokens: 3,
            memory_usage_mb: number(3.5),
        },
    }
}

#[test]
fn states_keep_their_meaning() {
    assert_eq!(CallState::from(LLMCallState::RKLLM_RUN_NORMAL), CallState::Normal);
    assert_eq!(CallState::from(LLMCallState::RKLLM_RUN_WAITING), CallState::Waiting);
    assert_eq!(CallState::from(LLMCallState::RKLLM_RUN_FINISH), CallState::Finish);
    assert_eq!(CallState::from(LLMCallState::RKLLM_RUN_ERROR), CallState::Error);
    assert_eq!(CallState::from(LLMCallState::Other(9)), CallState::Unknown(9));
    assert!(CallState::Finish.is_final() && CallState::Error.is_final());
    assert!(!CallState::Normal.is_final() && !CallState::Unknown(9).is_final());
}

#[test]
fn decisions_have_their_own_codes() {
    assert_eq!(Control::default().as_code(), 0);
    assert_eq!(Control::Pause.as_code(), 1);
    assert_eq!(Control::ReleaseBuffer.as_code(), 2);
    assert_eq!(Mode::default(), Mode::Generate);
    assert_eq!(Linked::new(), Linked::default());
}

#[test]
fn text_is_text_only_when_it_is_utf8() {
    let good = result(Some("h\u{e9}".as_bytes()));
    let output = Output::new(CallState::Normal, Some(&good));
    assert_eq!(output.text(), Some("h\u{e9}"));
    assert_eq!(output.text_bytes(), Some("h\u{e9}".as_bytes()));

    let bad = result(Some(&[0xff, 0x41]));
    let output = Output::new(CallState::Normal, Some(&bad));
    assert_eq!(output.text(), None);
    assert_eq!(output.text_bytes(), Some(&[0xff, 0x41][..]));
    assert_eq!(output.to_chunk().text, None);
    assert_eq!(output.to_chunk().text(), "");
}

#[test]
fn buffers_are_read_to_their_dimensions() {
    let mut entry = result(None);
    let output = Output::new(CallState::Normal, Some(&entry));
    assert_eq!(output.hidden_states(), Some(&[number(1.0), number(2.0)][..]));
    assert_eq!(output.logits(), None);
    assert_eq!(output.token_id(), Some(42));
    assert!(!output.is_finished());

    entry.last_hidden_layer.num_tokens = 2;
    let output = Output::new(CallState::Normal, Some(&entry));
    assert_eq!(output.hidden_states(), None, "there are not that many values");

    entry.logits.logits = Some(vec![number(0.5), number(0.25)]);
    entry.last_hidden_layer.num_tokens = -1;
    let output = Output::new(CallState::Normal, Some(&entry));
    assert_eq!(output.logits(), Some(&[number(0.5), number(0.25)][..]));
    assert_eq!(output.hidden_states(), None);
    let nothing = Output::new(CallState::Normal, None);
    assert_eq!((nothing.logits(), nothing.hidden_states()), (None, None));
}

#[test]
fn lengths_are_counted_or_refused() {
    assert_eq!(checked_len(3, 4), Some(12));
    assert_eq!(checked_len(0, 4), None);
    assert_eq!(checked_len(3, 0), None);
    assert_eq!(checked_len(-3, -4), None);
}

#[test]
fn a_chunk_keeps_the_text_the_token_and_the_timings() {
    let entry = result(Some(b"hi"));
    let chunk: Chunk = Output::new(CallState::Finish, Some(&entry)).to_chunk();
    assert_eq!((chunk.state, chunk.text(), chunk.token_id), (CallState::Finish, "hi", Some(42)));
    let perf = chunk.perf.unwrap();
    assert_eq!((perf.prefill_tokens, perf.generate_tokens), (2, 3));
    assert_eq!(perf.prefill_time_ms, number(1.5));
    assert_eq!(perf.generate_time_ms, number(2.5));
    assert_eq!(perf.memory_usage_mb, number(3.5));
    let chunk = Output::new(CallState::Error, None).to_chunk();
    assert_eq!((chunk.text(), chunk.token_id, chunk.perf), ("", None, None));
}

#[test]
fn numbers_compare_as_numbers() {
    assert_eq!(number(1.5), number(1.5));
    assert_ne!(number(1.5), number(-1.5));
    assert_eq!(number(0.0), number(-0.0));
    assert_ne!(number(f32::NAN), number(f32::NAN));
    assert_eq!(number(f32::INFINITY), number(f32::INFINITY));
}

#[test]
fn strings_are_kept_whole_or_refused() {
    assert_eq!(CString::new(b"abc".to_vec()).unwrap().as_bytes(), b"abc");
    assert_eq!(CString::default().as_bytes(), b"");
    assert_eq!(CString::new(b"a\0b\0".to_vec()).unwrap_err().nul_position(), 1);
    let param = Param::new("/data/qwen.rkllm".into()).unwrap();
    assert_eq!(param.model_path().as_bytes(), b"/data/qwen.rkllm");
    assert_eq!(param.clone().top_k(5), param.clone().top_k(4).top_k(5));
    assert_ne!(param.clone().top_k(5), param);
}

#[test]
fn errors_describe_themselves() {
    assert_eq!(Error::ZeroBatch.message(), "a batch size of zero runs nothing");
    assert_eq!(
        Error::BatchSizeMismatch { expected: 3, given: 12 }.message(),
        "this session runs 3 inputs per batch, but 12 were given"
    );
    assert_eq!(
        Error::NotSingleBatch { n_batch: 2 }.message(),
        "this session runs 2 inputs per batch, so use the batch call"
    );
    assert_eq!(
        Error::EmbeddingNotDivisible { len: 7, n_image: 2, n_image_tokens: 3 }.message(),
        "an embedding of 7 floats does not divide into 2 images of 3 tokens"
    );
    assert_eq!(
        Error::InteriorNul { field: "prompt", position: 30 }.message(),
        "prompt contains a NUL byte at offset 30"
    );
    assert_eq!(Error::status("rkllm_run", 7).message(), "rkllm_run returned status 7");
    assert!(Error::check("rkllm_run", 0).is_ok());
    assert!(Error::check("rkllm_run", 1).is_err());
}

#[test]
fn numbers_are_written_in_decimal() {
    assert_eq!(decimal_text(0), "0");
    assert_eq!(decimal_text(u64::MAX), "18446744073709551615");
    assert_eq!(signed_decimal_text(i32::MIN), "-2147483648");
    assert_eq!(signed_decimal_text(105), "105");
}

fn chunk() -> Chunk {
    Output::new(CallState::Normal, Some(&result(Some(b"x")))).to_chunk()
}

#[test]
fn a_stream_yields_its_chunks_and_then_ends() {
    let mut stream = StreamState::new();
    let step: Step<&str> = stream.after_receive(Received::Chunk(chunk()));
    assert!(matches!(step, Step::Answer(Polled::Item(Ok(c))) if c == chunk()));
    let step: Step<&str> = stream.after_receive(Received::Pending);
    assert!(matches!(step, Step::Answer(Polled::Pending)));
    let step: Step<&str> = stream.after_receive(Received::Closed);
    assert!(matches!(step, Step::AskTask));
    assert!(matches!(stream.after_task::<&str>(TaskPoll::Pending), Polled::Pending));
    let step: Step<&str> = stream.after_receive(Received::Closed);
    assert!(matches!(step, Step::AskTask));
    let ended: TaskPoll<&str> = TaskPoll::Ready(Joined::Returned(Ok(())));
    assert!(matches!(stream.after_task(ended), Polled::Done));
    let step: Step<&str> = stream.after_receive(Received::Closed);
    assert!(matches!(step, Step::Answer(Polled::Done)));
}

#[test]
fn a_failed_run_is_reported_once() {
    let mut stream = StreamState::default();
    let failed: TaskPoll<&str> =
        TaskPoll::Ready(Joined::Returned(Err(Error::NotSingleBatch { n_batch: 2 })));
    assert!(matches!(
        stream.after_task(failed),
        Polled::Item(Err(StreamError::Run(Error::NotSingleBatch { n_batch: 2 })))
    ));
    let step: Step<&str> = stream.after_receive(Received::Closed);
    assert!(matches!(step, Step::Answer(Polled::Done)), "and then it ends");

    let mut stream = StreamState::new();
    let lost = stream.after_task(TaskPoll::Ready(Joined::Lost("panicked")));
    assert!(matches!(lost, Polled::Item(Err(StreamError::Task("panicked")))));
}

#[test]
fn a_channel_has_room_and_a_lost_reader_stops_the_run() {
    assert_eq!((capacity(0), capacity(1), capacity(DEFAULT_BUFFER)), (1, 1, 64));
    assert_eq!(after_send(true), Control::Continue);
    assert_eq!(after_send(false), Control::Pause);
}
