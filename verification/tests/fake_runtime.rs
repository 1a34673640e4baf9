//! Drives `RkllmSession` against a stand-in for `librkllmrt`.
//!
//! The fake implements `RkllmApi` by calling back from `rkllm_run`, which is
//! exactly what the real runtime does. That exercises the callback plumbing and
//! the control codes without an NPU or a `librkllmrt` to link against.

use std::sync::{Arc, Mutex};

use rkllm::api::RkllmApi;
use rkllm::bindings::{
    LLMCallState, LLMHandle, RKLLMCallback, RKLLMExtendParam, RKLLMInferMode, RKLLMInferParam,
    RKLLMInput, RKLLMInputPayload, RKLLMInputType, RKLLMLoraAdapter, RKLLMParam, RKLLMPerfStat,
    RKLLMResult, RKLLMResultLastHiddenLayer, RKLLMResultLogits,
};
use rkllm::callback::{trampoline, CallbackState, PerBatch, ResultCallback};
use rkllm::hooks::TokenizerHook;
use rkllm::{
    CString, CallState, Control, Error, ImageInput, InferParams, Input, Mode, Output, Param,
    RkllmSession, Sampling, SessionBuilder, F32,
};

/// What the fake hands back, one callback per entry.
const CHUNKS: [&str; 3] = ["Hello", ", ", "world"];

fn number(value: f32) -> F32 {
    F32::from_bits(value.to_bits())
}

fn numbers(values: &[f32]) -> Vec<F32> {
    values.iter().map(|v| number(*v)).collect()
}

fn string(text: &str) -> CString {
    CString::new(text.into()).unwrap()
}

fn read(text: &CString) -> String {
    String::from_utf8(text.as_bytes().to_vec()).unwrap()
}

/// What the fake read back out of the `RKLLMInput` it was handed.
#[derive(Debug, Clone, PartialEq)]
struct SeenInput {
    input_type: RKLLMInputType,
    role: Option<String>,
    enable_thinking: bool,
    prompt: String,
    tokens: Vec<i32>,
    n_tokens: usize,
    embed: Vec<f32>,
    n_image: usize,
    n_image_tokens: usize,
    tags: (String, String, String),
    size: (usize, usize),
    video_zeroed: bool,
}

/// What the fake read back out of the `RKLLMInferParam` it was handed.
#[derive(Debug, Clone, PartialEq)]
struct SeenParams {
    mode: RKLLMInferMode,
    keep_history: i32,
    max_new_tokens: i32,
    lora: Option<String>,
    cache: Option<(String, i32)>,
    top_k: Option<i32>,
}

#[derive(Debug, Clone, PartialEq)]
struct SeenModel {
    path: Option<String>,
    top_k: i32,
    temperature: f32,
    max_context_len: i32,
    ignore_eos_token: bool,
    extend: RKLLMExtendParam,
}

#[derive(Default)]
struct FakeState {
    n_batch: usize,
    model: Option<SeenModel>,
    registered: (bool, bool),
    tokenized: Option<usize>,
    seen: Vec<SeenInput>,
    params: Option<SeenParams>,
    cleared: Option<Vec<(i32, i32)>>,
    cleared_keep: i32,
    template: Vec<Option<String>>,
    tools: Vec<Option<String>>,
    lora: Option<(String, String, f32)>,
    cache: Option<String>,
    released: usize,
    destroyed: usize,
}

/// How the fake answers, where the answer is not simply success.
#[derive(Default, Clone, Copy)]
struct Answers {
    default_batch: u8,
    init: i32,
    null_handle: bool,
    run: i32,
    abort: i32,
    is_running: i32,
    cache_size: i32,
    no_results: bool,
}

#[derive(Default)]
struct FakeApi {
    answers: Answers,
    state: Mutex<FakeState>,
}

impl FakeApi {
    fn answering(answers: Answers) -> FakeApi {
        FakeApi { answers, state: Mutex::new(FakeState::default()) }
    }
}

fn empty_result() -> RKLLMResult {
    RKLLMResult {
        text: None,
        token_id: 0,
        last_hidden_layer: RKLLMResultLastHiddenLayer {
            hidden_states: None,
            embd_size: 0,
            num_tokens: 0,
        },
        logits: RKLLMResultLogits { logits: None, vocab_size: 0, num_tokens: 0 },
        perf: RKLLMPerfStat {
            prefill_time_ms: number(0.0),
            prefill_tokens: 0,
            generate_time_ms: number(0.0),
            generate_tokens: 0,
            memory_usage_mb: number(0.0),
        },
    }
}

#[allow(non_snake_case)]
impl RkllmApi for FakeApi {
    fn rkllm_createDefaultParam<'p>(&self) -> RKLLMParam<'p> {
        RKLLMParam {
            model_path: None,
            max_context_len: 512,
            max_new_tokens: 64,
            n_keep: 0,
            top_k: 40,
            top_p: number(0.9),
            temperature: number(0.8),
            repeat_penalty: number(1.1),
            frequency_penalty: number(0.0),
            presence_penalty: number(0.0),
            mirostat: 0,
            mirostat_tau: number(5.0),
            mirostat_eta: number(0.1),
            skip_special_token: true,
            ignore_eos_token: false,
            extend_param: RKLLMExtendParam {
                embed_flash: 0,
                enabled_cpus_num: 4,
                enabled_cpus_mask: 0xf0,
                n_batch: self.answers.default_batch,
                use_cross_attn: 0,
            },
        }
    }

    fn rkllm_init<'p>(
        &self,
        handle: &mut LLMHandle,
        param: &mut RKLLMParam<'p>,
        callback: &RKLLMCallback,
    ) -> i32 {
        let mut state = self.state.lock().unwrap();
        state.n_batch = usize::from(param.extend_param.n_batch).max(1);
        state.model = Some(SeenModel {
            path: param.model_path.map(read),
            top_k: param.top_k,
            temperature: f32::from_bits(param.temperature.to_bits()),
            max_context_len: param.max_context_len,
            ignore_eos_token: param.ignore_eos_token,
            extend: param.extend_param,
        });
        state.registered =
            (callback.tokenizer_userdata.is_some(), callback.embed_userdata.is_some());
        state.tokenized = callback
            .tokenizer_userdata
            .as_ref()
            .and_then(|hooks| hooks.tokenizer.as_ref())
            .and_then(|tokenizer| tokenizer.tokenize("four", &mut [0; 4]));
        if !self.answers.null_handle {
            *handle = LLMHandle { address: 0x1000 };
        }
        self.answers.init
    }

    fn rkllm_run<C: ResultCallback>(
        &self,
        _handle: LLMHandle,
        input: &[RKLLMInput<'_>],
        params: &RKLLMInferParam<'_>,
        userdata: &mut C,
    ) -> i32 {
        let n_batch = {
            let mut state = self.state.lock().unwrap();
            // Read every input the runtime would, which is what catches a caller
            // that passed fewer than n_batch.
            let seen = (0..state.n_batch).map(|i| read_input(&input[i])).collect();
            state.seen = seen;
            state.params = Some(SeenParams {
                mode: params.mode,
                keep_history: params.keep_history,
                max_new_tokens: params.max_new_tokens,
                lora: params.lora_params.map(|lora| read(lora.lora_adapter_name)),
                cache: params
                    .prompt_cache_params
                    .map(|cache| (read(cache.prompt_cache_path), cache.save_prompt_cache)),
                top_k: params.sampling_params.map(|sampling| sampling.top_k),
            });
            state.n_batch
        };

        if self.answers.no_results {
            userdata.call(None, LLMCallState::RKLLM_RUN_WAITING);
            return self.answers.run;
        }

        // Every entry walks the same chunks, but later entries stop sooner, so
        // the batches finish at staggered steps and the run ends only when the
        // last one does.
        for (step, chunk) in CHUNKS.iter().enumerate() {
            let results: Vec<RKLLMResult> = (0..n_batch)
                .map(|b| {
                    let mut result = empty_result();
                    if step + b < CHUNKS.len() {
                        result.text = Some(string(chunk));
                        result.token_id = step as i32 + 1;
                    } else {
                        // A negative id is how the runtime says this entry is
                        // done, and its text is null.
                        result.token_id = -(b as i32 + 1);
                    }
                    result
                })
                .collect();

            let code = userdata.call(Some(&results), LLMCallState::RKLLM_RUN_NORMAL);
            // 1 means "pause", which is how a caller stops a run early.
            if code == 1 {
                return self.answers.run;
            }
        }

        let mut result = empty_result();
        result.perf.generate_tokens = CHUNKS.len() as i32;
        result.perf.generate_time_ms = number(12.5);
        userdata.call(Some(&[result]), LLMCallState::RKLLM_RUN_FINISH);
        self.answers.run
    }

    fn rkllm_destroy(&self, _handle: LLMHandle) -> i32 {
        self.state.lock().unwrap().destroyed += 1;
        0
    }

    fn rkllm_abort(&self, _handle: LLMHandle) -> i32 {
        self.answers.abort
    }

    fn rkllm_is_running(&self, _handle: LLMHandle) -> i32 {
        self.answers.is_running
    }

    fn rkllm_load_lora(&self, _handle: LLMHandle, adapter: &RKLLMLoraAdapter<'_>) -> i32 {
        self.state.lock().unwrap().lora = Some((
            read(adapter.lora_adapter_path),
            read(adapter.lora_adapter_name),
            f32::from_bits(adapter.scale.to_bits()),
        ));
        0
    }

    fn rkllm_load_prompt_cache(&self, _handle: LLMHandle, path: &CString) -> i32 {
        self.state.lock().unwrap().cache = Some(read(path));
        0
    }

    fn rkllm_release_prompt_cache(&self, _handle: LLMHandle) -> i32 {
        self.state.lock().unwrap().released += 1;
        0
    }

    fn rkllm_clear_kv_cache(
        &self,
        _handle: LLMHandle,
        keep: i32,
        start: Option<&[i32]>,
        end: Option<&[i32]>,
    ) -> i32 {
        let mut state = self.state.lock().unwrap();
        state.cleared_keep = keep;
        // Reads one entry per batch from each array, exactly as the runtime
        // does. A wrapper passing a shorter array would be read out of bounds.
        let n_batch = state.n_batch;
        state.cleared = match (start, end) {
            (Some(start), Some(end)) => Some((0..n_batch).map(|i| (start[i], end[i])).collect()),
            _ => None,
        };
        0
    }

    fn rkllm_get_kv_cache_size(&self, _handle: LLMHandle, sizes: &mut [i32]) -> i32 {
        let n_batch = self.state.lock().unwrap().n_batch;
        // Writes one entry per batch, as the runtime does.
        for i in 0..n_batch {
            sizes[i] = 7 + i as i32;
        }
        self.answers.cache_size
    }

    fn rkllm_set_chat_template(
        &self,
        _handle: LLMHandle,
        system: Option<&CString>,
        prefix: Option<&CString>,
        postfix: Option<&CString>,
    ) -> i32 {
        // Prove the string survived the trip across the boundary intact.
        assert_eq!(system.unwrap().as_bytes(), b"be brief");
        self.state.lock().unwrap().template =
            vec![system.map(read), prefix.map(read), postfix.map(read)];
        0
    }

    fn rkllm_set_function_tools(
        &self,
        _handle: LLMHandle,
        system: Option<&CString>,
        tools: Option<&CString>,
        response: Option<&CString>,
    ) -> i32 {
        self.state.lock().unwrap().tools =
            vec![system.map(read), tools.map(read), response.map(read)];
        0
    }
}

/// Reads an `RKLLMInput` the way the real runtime would.
fn read_input(input: &RKLLMInput<'_>) -> SeenInput {
    let mut seen = SeenInput {
        input_type: input.input_type,
        role: input.role.map(read),
        enable_thinking: input.enable_thinking,
        prompt: String::new(),
        tokens: Vec::new(),
        n_tokens: 0,
        embed: Vec::new(),
        n_image: 0,
        n_image_tokens: 0,
        tags: (String::new(), String::new(), String::new()),
        size: (0, 0),
        video_zeroed: true,
    };
    match &input.payload {
        RKLLMInputPayload::Prompt(prompt) => seen.prompt = read(prompt),
        RKLLMInputPayload::Token(input) => {
            seen.tokens = input.input_ids.clone();
            seen.n_tokens = input.n_tokens;
        }
        RKLLMInputPayload::Embed(input) => {
            seen.embed = input.embed.iter().map(|v| f32::from_bits(v.to_bits())).collect();
            seen.n_tokens = input.n_tokens;
        }
        RKLLMInputPayload::MultiModal(mm) => {
            seen.prompt = read(mm.prompt);
            seen.n_image = mm.image.n_image;
            seen.n_image_tokens = mm.image.n_image_tokens;
            let len = mm.image.n_image * mm.image.n_image_tokens;
            // Read exactly what a model with an embedding width of 1 would,
            // which is enough to prove the buffer and counts arrived intact.
            seen.embed =
                mm.image.image_embed[..len].iter().map(|v| f32::from_bits(v.to_bits())).collect();
            seen.tags = (
                read(mm.image.image_start),
                read(mm.image.image_end),
                read(mm.image.image_content),
            );
            seen.size = (mm.image.image_width, mm.image.image_height);
            let v = &mm.video;
            seen.video_zeroed = v.video_embed.is_none()
                && v.video_start.is_none()
                && v.video_end.is_none()
                && v.video_content.is_none()
                && v.n_video == 0
                && v.n_frame_tokens == 0
                && v.n_frame_per_video == 0
                && v.frame_width == 0
                && v.frame_height == 0;
        }
    }
    seen
}

/// Everything the fake read out of the input array on the last run.
fn last_inputs(session: &RkllmSession<FakeApi>) -> Vec<SeenInput> {
    let seen = session.api().state.lock().unwrap().seen.clone();
    assert!(!seen.is_empty(), "a run happened");
    seen
}

/// What the fake read out of the first input on the last run.
fn last_input(session: &RkllmSession<FakeApi>) -> SeenInput {
    last_inputs(session).swap_remove(0)
}

fn session() -> RkllmSession<FakeApi> {
    batched_session(1)
}

fn batched_session(n_batch: u8) -> RkllmSession<FakeApi> {
    let param = Param::new("/dev/null".into()).unwrap().n_batch(n_batch).unwrap();
    RkllmSession::with_api(FakeApi::default(), &param).unwrap()
}

/// A session built without setting a batch size.
fn plain_session(answers: Answers) -> RkllmSession<FakeApi> {
    let param = Param::new("/dev/null".into()).unwrap();
    RkllmSession::new(FakeApi::answering(answers), &param).unwrap()
}

fn prompt(text: &str) -> Input {
    Input::prompt(text.into()).unwrap()
}

#[test]
fn run_llm_delivers_every_chunk_then_finishes() {
    let session = session();
    let mut input = prompt("hi");
    let mut seen = Vec::new();

    session
        .run_llm(&mut input, &InferParams::new(), |out| {
            seen.push((out.state(), out.text().map(str::to_owned), out.token_id()));
            Control::Continue
        })
        .unwrap();

    assert_eq!(seen.len(), CHUNKS.len() + 1);
    let text: String = seen.iter().filter_map(|(_, t, _)| t.clone()).collect();
    assert_eq!(text, "Hello, world");
    assert_eq!(seen[0].2, Some(1));
    assert_eq!(seen.last().unwrap().0, CallState::Finish);
}

#[test]
fn fake_runtime_run_llm_delivers_every_chunk_then_finishes() {
    let session = plain_session(Answers::default());
    let mut input = prompt("hi");
    let mut seen = Vec::new();

    session
        .run_llm(&mut input, &InferParams::new(), |out| {
            seen.push((out.state(), out.text().map(str::to_owned), out.token_id()));
            Control::Continue
        })
        .unwrap();

    assert_eq!(seen.len(), CHUNKS.len() + 1);
    let text: String = seen.iter().filter_map(|(_, t, _)| t.clone()).collect();
    assert_eq!(text, "Hello, world");
    assert_eq!(seen[0].2, Some(1));
    assert_eq!(seen.last().unwrap().0, CallState::Finish);
}

#[test]
fn pause_stops_the_run_early() {
    let session = session();
    let mut input = prompt("hi");
    let mut count = 0;

    session
        .run_llm(&mut input, &InferParams::new(), |_| {
            count += 1;
            Control::Pause
        })
        .unwrap();

    assert_eq!(count, 1, "the run should stop at the first Pause");
}

#[test]
fn fake_runtime_pause_stops_the_run_early() {
    let session = plain_session(Answers::default());
    let mut input = prompt("hi");
    let mut count = 0;

    session
        .run_llm(&mut input, &InferParams::new(), |_| {
            count += 1;
            Control::Pause
        })
        .unwrap();

    assert_eq!(count, 1, "the run should stop at the first Pause");
}

#[test]
fn perf_stats_arrive_with_the_final_chunk() {
    let session = session();
    let mut input = prompt("hi");
    let mut perf = None;

    session
        .run_llm(&mut input, &InferParams::new(), |out| {
            if out.state() == CallState::Finish {
                perf = out.perf();
            }
            Control::Continue
        })
        .unwrap();

    let perf = perf.expect("the final chunk carries perf stats");
    assert_eq!(perf.generate_tokens, 3);
    assert_eq!(perf.generate_time_ms, number(12.5));
}

#[test]
fn fake_runtime_perf_stats_arrive_with_the_final_chunk() {
    let session = plain_session(Answers::default());
    let mut input = prompt("hi");
    let mut perf = None;

    session
        .run_llm(&mut input, &InferParams::new(), |out| {
            if out.state() == CallState::Finish {
                perf = out.perf();
            }
            Control::Continue
        })
        .unwrap();

    let perf = perf.expect("the final chunk carries perf stats");
    assert_eq!(perf.generate_tokens, 3);
    assert_eq!(perf.generate_time_ms, number(12.5));
}

#[test]
fn strings_reach_the_runtime_intact() {
    let session = session();
    session.set_chat_template("be brief".into(), "".into(), "".into()).unwrap();
    assert_eq!(session.kv_cache_size().unwrap(), vec![7]);
}

#[test]
fn fake_runtime_strings_reach_the_runtime_intact() {
    let session = plain_session(Answers::default());
    session.set_chat_template("be brief".into(), "".into(), "".into()).unwrap();
    assert_eq!(session.kv_cache_size().unwrap(), vec![7]);
}

#[test]
fn interior_nul_is_rejected_rather_than_truncated() {
    let err = Input::prompt("bad\0prompt".into()).unwrap_err();
    assert!(matches!(err, Error::InteriorNul { field: "prompt", position: 3 }));
}

#[test]
fn fake_runtime_interior_nul_is_rejected_rather_than_truncated() {
    let err = Input::prompt(b"bad\0prompt".to_vec()).unwrap_err();
    assert!(matches!(err, Error::InteriorNul { field: "prompt", position: 3 }));
}

fn require<T: Send + Sync>() {}

#[test]
fn the_session_is_send_and_sync() {
    require::<RkllmSession<FakeApi>>();
    require::<Arc<RkllmSession<FakeApi>>>();
}

#[test]
fn a_prompt_arrives_as_a_prompt() {
    let session = session();
    let mut input = prompt("hello").role("user".into()).unwrap();

    session.run_llm(&mut input, &InferParams::new(), |_| Control::Pause).unwrap();

    let seen = last_input(&session);
    assert_eq!(seen.input_type, RKLLMInputType::RKLLM_INPUT_PROMPT);
    assert_eq!(seen.prompt, "hello");
    assert_eq!(seen.role.as_deref(), Some("user"));
}

#[test]
fn multimodal_input_crosses_the_boundary_intact() {
    let session = session();

    // Two images, three tokens each, embedding width of one, so the values are
    // readable back one per token.
    let embed: Vec<f32> = vec![1.0, 2.0, 3.0, 4.0, 5.0, 6.0];
    let image = ImageInput::new(numbers(&embed), 2, 3)
        .unwrap()
        .tags("<|vision_start|>".into(), "<|vision_end|>".into(), "<|image_pad|>".into())
        .unwrap()
        .size(392, 392);
    assert_eq!(image.embed_dim(), 1);

    let mut input = Input::multimodal("describe these".into(), image).unwrap();
    session.run_llm(&mut input, &InferParams::new(), |_| Control::Pause).unwrap();

    let seen = last_input(&session);
    assert_eq!(seen.input_type, RKLLMInputType::RKLLM_INPUT_MULTIMODAL);
    assert_eq!(seen.prompt, "describe these");
    assert_eq!(seen.embed, embed, "the embedding pointer survived");
    assert_eq!((seen.n_image, seen.n_image_tokens), (2, 3));
    assert_eq!(
        seen.tags,
        (
            "<|vision_start|>".to_owned(),
            "<|vision_end|>".to_owned(),
            "<|image_pad|>".to_owned()
        )
    );
    assert_eq!(seen.size, (392, 392));
}

#[test]
fn the_unused_video_half_is_zeroed() {
    let session = session();
    let image = ImageInput::new(numbers(&[0.0; 4]), 1, 4).unwrap();
    let mut input = Input::multimodal("x".into(), image).unwrap();

    session.run_llm(&mut input, &InferParams::new(), |_| Control::Pause).unwrap();

    assert!(
        last_input(&session).video_zeroed,
        "leaving the video block uninitialized would hand the runtime garbage"
    );
}

#[test]
fn an_embedding_that_does_not_divide_is_rejected() {
    // Seven floats cannot be two images of three tokens.
    let err = ImageInput::new(numbers(&[0.0; 7]), 2, 3).unwrap_err();
    assert!(matches!(
        err,
        Error::EmbeddingNotDivisible { len: 7, n_image: 2, n_image_tokens: 3 }
    ));

    // Zero of either would divide by zero.
    assert!(ImageInput::new(numbers(&[0.0; 4]), 0, 4).is_err());
    assert!(ImageInput::new(numbers(&[0.0; 4]), 4, 0).is_err());
}

#[test]
fn tags_default_to_empty_rather_than_null() {
    let session = session();
    let image = ImageInput::new(numbers(&[0.0; 2]), 1, 2).unwrap();
    let mut input = Input::multimodal("x".into(), image).unwrap();

    session.run_llm(&mut input, &InferParams::new(), |_| Control::Pause).unwrap();

    let seen = last_input(&session);
    assert_eq!(seen.tags.0, "", "an unset tag must still be a valid string");
}

/// What the fake recorded about the last cache clear.
fn last_clear(session: &RkllmSession<FakeApi>) -> (i32, Option<Vec<(i32, i32)>>) {
    let state = session.api().state.lock().unwrap();
    (state.cleared_keep, state.cleared.clone())
}

#[test]
fn clearing_ranges_passes_one_entry_per_batch() {
    let session = batched_session(3);
    session.clear_kv_cache_ranges(&[(1, 2), (3, 4), (5, 6)]).unwrap();

    let (keep, ranges) = last_clear(&session);
    assert_eq!(ranges, Some(vec![(1, 2), (3, 4), (5, 6)]));
    assert_eq!(keep, 0, "a range overrides the keep-system-prompt flag");
}

#[test]
fn clearing_everything_passes_null_ranges() {
    let session = session();
    session.clear_kv_cache(true).unwrap();

    let (keep, ranges) = last_clear(&session);
    assert_eq!(keep, 1, "the system prompt is kept");
    assert_eq!(ranges, None, "null arrays mean the whole cache");
}

#[test]
fn the_wrong_number_of_ranges_is_rejected() {
    let session = batched_session(2);
    let err = session.clear_kv_cache_ranges(&[(1, 2)]).unwrap_err();
    assert!(matches!(err, Error::BatchSizeMismatch { expected: 2, given: 1 }));
}

#[test]
fn the_cache_size_has_one_entry_per_batch() {
    let session = batched_session(3);
    assert_eq!(session.kv_cache_size().unwrap(), vec![7, 8, 9]);
}

#[test]
fn a_batch_run_passes_every_input() {
    let session = batched_session(3);
    let mut inputs = [prompt("first"), prompt("second"), prompt("third")];

    session
        .run_llm_batch(&mut inputs, &InferParams::new(), |_| Control::Continue)
        .unwrap();

    let prompts: Vec<String> = last_inputs(&session).into_iter().map(|i| i.prompt).collect();
    assert_eq!(prompts, vec!["first", "second", "third"]);
}

#[test]
fn a_batch_run_reports_one_output_per_entry() {
    let session = batched_session(3);
    let mut inputs = [prompt("a"), prompt("b"), prompt("c")];

    let mut widths = Vec::new();
    let mut finished_at = vec![None; 3];
    let mut step = 0usize;

    session
        .run_llm_batch(&mut inputs, &InferParams::new(), |outputs| {
            widths.push((outputs[0].state(), outputs.len()));
            for (entry, output) in outputs.iter().enumerate() {
                if output.is_finished() && finished_at[entry].is_none() {
                    finished_at[entry] = Some(step);
                }
            }
            step += 1;
            Control::Continue
        })
        .unwrap();

    // Three generating callbacks of three outputs each, then a final one.
    assert_eq!(
        widths,
        vec![
            (CallState::Normal, 3),
            (CallState::Normal, 3),
            (CallState::Normal, 3),
            (CallState::Finish, 1),
        ]
    );
    // Later entries stop sooner, so the batches finish at staggered steps.
    assert_eq!(finished_at, vec![None, Some(2), Some(1)]);
}

#[test]
fn a_single_input_call_is_refused_on_a_batched_session() {
    let session = batched_session(2);
    let mut input = prompt("only one");

    let err = session
        .run_llm(&mut input, &InferParams::new(), |_| Control::Continue)
        .unwrap_err();

    assert!(
        matches!(err, Error::NotSingleBatch { n_batch: 2 }),
        "passing one input would have the runtime read past its end"
    );
}

#[test]
fn the_wrong_number_of_inputs_is_rejected() {
    let session = batched_session(3);
    let mut inputs = [prompt("a"), prompt("b")];

    let err = session
        .run_llm_batch(&mut inputs, &InferParams::new(), |_| Control::Continue)
        .unwrap_err();

    assert!(matches!(err, Error::BatchSizeMismatch { expected: 3, given: 2 }));
}

#[test]
fn a_batch_size_of_zero_is_rejected() {
    assert!(matches!(
        Param::new("/dev/null".into()).unwrap().n_batch(0).unwrap_err(),
        Error::ZeroBatch
    ));
}

#[test]
fn a_refused_load_carries_the_status() {
    let param = Param::new("/dev/null".into()).unwrap();
    let answers = Answers { init: -3, ..Answers::default() };
    let err = RkllmSession::new(FakeApi::answering(answers), &param).err().unwrap();
    assert!(matches!(err, Error::Status { call: "rkllm_init", code: -3 }));
    assert_eq!(err.message(), "rkllm_init returned status -3");
}

#[test]
fn a_load_without_a_handle_is_refused() {
    let param = Param::new("/dev/null".into()).unwrap();
    let answers = Answers { null_handle: true, ..Answers::default() };
    let err = RkllmSession::new(FakeApi::answering(answers), &param).err().unwrap();
    assert!(matches!(err, Error::NullHandle));
    assert_eq!(err.message(), "rkllm_init succeeded but produced a null handle");
}

#[test]
fn an_unset_batch_size_is_the_runtimes_own() {
    assert_eq!(plain_session(Answers::default()).n_batch(), 1);
    let answers = Answers { default_batch: 4, ..Answers::default() };
    assert_eq!(plain_session(answers).n_batch(), 4);
    assert_eq!(batched_session(3).n_batch(), 3);
}

#[test]
fn settings_are_laid_over_the_defaults() {
    let param = Param::new("/data/model.rkllm".into())
        .unwrap()
        .temperature(number(0.25))
        .ignore_eos_token(true)
        .embed_flash(true)
        .cpus(2, 3);
    let session = RkllmSession::with_api(FakeApi::default(), &param).unwrap();
    let model = session.api().state.lock().unwrap().model.clone().unwrap();
    assert_eq!(
        model,
        SeenModel {
            path: Some("/data/model.rkllm".to_owned()),
            top_k: 40,
            temperature: 0.25,
            max_context_len: 512,
            ignore_eos_token: true,
            extend: RKLLMExtendParam {
                embed_flash: 1,
                enabled_cpus_num: 2,
                enabled_cpus_mask: 3,
                n_batch: 0,
                use_cross_attn: 0,
            },
        }
    );
}

#[test]
fn a_failed_run_carries_the_status() {
    let session = plain_session(Answers { run: 9, ..Answers::default() });
    let err = session
        .run_llm(&mut prompt("hi"), &InferParams::new(), |_| Control::Continue)
        .unwrap_err();
    assert!(matches!(err, Error::Status { call: "rkllm_run", code: 9 }));
}

#[test]
fn a_callback_without_results_still_sees_the_state() {
    let answers = Answers { no_results: true, default_batch: 2, ..Answers::default() };
    let session = plain_session(answers);
    let mut seen = Vec::new();
    session
        .run_llm_batch(&mut [prompt("a"), prompt("b")], &InferParams::new(), |outputs| {
            for output in outputs {
                seen.push((output.state(), output.token_id(), output.text_bytes().is_some()));
            }
            Control::Continue
        })
        .unwrap();
    assert_eq!(seen, vec![(CallState::Waiting, None, false)]);
}

#[test]
fn a_guarded_panic_stops_the_run_and_is_reported() {
    let session = session();
    let mut calls = 0;
    let outcome = session.run_llm_guarded(&mut prompt("hi"), &InferParams::new(), |_| {
        calls += 1;
        None
    });
    assert!(outcome.is_none());
    assert_eq!(calls, 1, "nothing is delivered after a panic");

    let mut calls = 0;
    let outcome = session.run_llm_guarded(&mut prompt("hi"), &InferParams::new(), |_| {
        calls += 1;
        Some(Control::Continue)
    });
    assert!(matches!(outcome, Some(Ok(()))));
    assert_eq!(calls, 4);
}

#[test]
fn a_guarded_panic_wins_over_the_status() {
    let answers = Answers { run: 5, default_batch: 2, ..Answers::default() };
    let session = plain_session(answers);
    let mut inputs = [prompt("a"), prompt("b")];
    let outcome = session.run_llm_batch_guarded(&mut inputs, &InferParams::new(), |_| None);
    assert!(outcome.is_none());
    let outcome = session.run_llm_batch_guarded(&mut inputs, &InferParams::new(), |_| {
        Some(Control::Pause)
    });
    assert!(matches!(outcome, Some(Err(Error::Status { call: "rkllm_run", code: 5 }))));
    let outcome = session.run_llm_guarded(&mut inputs[0], &InferParams::new(), |_| None);
    assert!(matches!(outcome, Some(Err(Error::NotSingleBatch { n_batch: 2 }))));
}

#[test]
fn tokens_and_embeddings_reach_the_runtime_intact() {
    let session = session();
    let mut input = Input::tokens(vec![5, 6, 7]).enable_thinking(true);
    session.run_llm(&mut input, &InferParams::new(), |_| Control::Pause).unwrap();
    let seen = last_input(&session);
    assert_eq!(seen.input_type, RKLLMInputType::RKLLM_INPUT_TOKEN);
    assert_eq!((seen.tokens, seen.n_tokens), (vec![5, 6, 7], 3));
    assert_eq!((seen.role, seen.enable_thinking), (None, true));

    let mut input = Input::embeddings(numbers(&[0.5, 1.5, 2.5, 3.5]), 2);
    session.run_llm(&mut input, &InferParams::new(), |_| Control::Pause).unwrap();
    let seen = last_input(&session);
    assert_eq!(seen.input_type, RKLLMInputType::RKLLM_INPUT_EMBED);
    assert_eq!((seen.embed, seen.n_tokens), (vec![0.5, 1.5, 2.5, 3.5], 2));
}

#[test]
fn run_settings_reach_the_runtime() {
    let session = session();
    session.run_llm(&mut prompt("hi"), &InferParams::default(), |_| Control::Pause).unwrap();
    assert_eq!(
        session.api().state.lock().unwrap().params,
        Some(SeenParams {
            mode: RKLLMInferMode::RKLLM_INFER_GENERATE,
            keep_history: 1,
            max_new_tokens: 0,
            lora: None,
            cache: None,
            top_k: None,
        })
    );

    let sampling = Sampling {
        top_k: 3,
        top_p: number(0.5),
        temperature: number(0.1),
        repeat_penalty: number(1.0),
        frequency_penalty: number(0.0),
        presence_penalty: number(0.0),
        mirostat: 0,
        mirostat_tau: number(5.0),
        mirostat_eta: number(0.1),
    };
    let params = InferParams::new()
        .mode(Mode::Logits)
        .keep_history(false)
        .max_new_tokens(17)
        .lora_adapter("style".into())
        .unwrap()
        .prompt_cache("/tmp/cache".into(), true)
        .unwrap()
        .sampling(sampling);
    session.run_llm(&mut prompt("hi"), &params, |_| Control::Pause).unwrap();
    assert_eq!(
        session.api().state.lock().unwrap().params,
        Some(SeenParams {
            mode: RKLLMInferMode::RKLLM_INFER_GET_LOGITS,
            keep_history: 0,
            max_new_tokens: 17,
            lora: Some("style".to_owned()),
            cache: Some(("/tmp/cache".to_owned(), 1)),
            top_k: Some(3),
        })
    );
}

#[test]
fn every_string_for_the_runtime_is_checked_for_nul() {
    let field = |e: Error| match e {
        Error::InteriorNul { field, position } => (field, position),
        _ => panic!("not a refused string"),
    };
    let bad = || b"a\0".to_vec();
    let ok = || b"ok".to_vec();
    let session = session();
    assert_eq!(field(Param::new(bad()).unwrap_err()), ("model_path", 1));
    assert_eq!(field(prompt("x").role(bad()).unwrap_err()), ("role", 1));
    let params = InferParams::new;
    assert_eq!(field(params().lora_adapter(bad()).unwrap_err()), ("lora_adapter_name", 1));
    assert_eq!(field(params().prompt_cache(bad(), false).unwrap_err()), ("prompt_cache_path", 1));
    let image = || ImageInput::new(Vec::new(), 1, 1).unwrap();
    assert_eq!(field(image().tags(bad(), ok(), bad()).unwrap_err()), ("image_start", 1));
    assert_eq!(field(image().tags(ok(), bad(), bad()).unwrap_err()), ("image_end", 1));
    assert_eq!(field(image().tags(ok(), ok(), bad()).unwrap_err()), ("image_content", 1));
    assert_eq!(field(Input::multimodal(bad(), image()).unwrap_err()), ("prompt", 1));
    let one = number(1.0);
    assert_eq!(field(session.load_lora(bad(), bad(), one).unwrap_err()), ("lora_adapter_path", 1));
    assert_eq!(field(session.load_lora(ok(), bad(), one).unwrap_err()), ("lora_adapter_name", 1));
    assert_eq!(field(session.load_prompt_cache(bad()).unwrap_err()), ("prompt_cache_path", 1));
    assert_eq!(
        field(session.set_chat_template(ok(), bad(), bad()).unwrap_err()),
        ("prompt_prefix", 1)
    );
    assert_eq!(
        field(session.set_chat_template(ok(), ok(), bad()).unwrap_err()),
        ("prompt_postfix", 1)
    );
    assert_eq!(
        field(session.set_function_tools(bad(), ok(), ok()).unwrap_err()),
        ("system_prompt", 1)
    );
    assert_eq!(field(session.set_function_tools(ok(), bad(), ok()).unwrap_err()), ("tools", 1));
    assert_eq!(
        field(session.set_function_tools(ok(), ok(), bad()).unwrap_err()),
        ("tool_response_str", 1)
    );
}

#[test]
fn adapters_caches_and_tools_reach_the_runtime() {
    let session = session();
    session.load_lora("/lora".into(), "style".into(), number(0.5)).unwrap();
    session.load_prompt_cache("/cache".into()).unwrap();
    session.release_prompt_cache().unwrap();
    session.set_chat_template("be brief".into(), "<".into(), ">".into()).unwrap();
    session.set_function_tools("s".into(), "[]".into(), "t".into()).unwrap();
    let state = session.api().state.lock().unwrap();
    assert_eq!(state.lora, Some(("/lora".to_owned(), "style".to_owned(), 0.5)));
    assert_eq!(state.cache.as_deref(), Some("/cache"));
    assert_eq!(state.released, 1);
    let strings = |texts: [&str; 3]| -> Vec<Option<String>> {
        texts.iter().map(|t| Some((*t).to_owned())).collect()
    };
    assert_eq!(state.template, strings(["be brief", "<", ">"]));
    assert_eq!(state.tools, strings(["s", "[]", "t"]));
}

#[test]
fn statuses_are_passed_on() {
    let answers = Answers { abort: 4, is_running: 1, cache_size: -1, ..Answers::default() };
    let session = plain_session(answers);
    assert!(matches!(
        session.abort().unwrap_err(),
        Error::Status { call: "rkllm_abort", code: 4 }
    ));
    assert!(session.is_running());
    assert!(matches!(
        session.kv_cache_size().unwrap_err(),
        Error::Status { call: "rkllm_get_kv_cache_size", code: -1 }
    ));

    let session = plain_session(Answers { is_running: 2, ..Answers::default() });
    assert!(session.abort().is_ok());
    assert!(!session.is_running(), "only 1 means that a task is running");
    assert!(session.clear_kv_cache(false).is_ok());
    assert_eq!(last_clear(&session), (0, None));
}

#[test]
fn destroying_a_session_destroys_the_model() {
    let session = session();
    assert_eq!(session.handle(), LLMHandle { address: 0x1000 });
    let api = session.destroy();
    assert_eq!(api.state.lock().unwrap().destroyed, 1);
}

#[test]
fn bindings_can_be_shared() {
    let api = Arc::new(FakeApi::default());
    let param = Param::new("/dev/null".into()).unwrap();
    let shared = RkllmSession::new(Arc::clone(&api), &param).unwrap();
    let mut chunks = 0;
    shared
        .run_llm(&mut prompt("hi"), &InferParams::new(), |_| {
            chunks += 1;
            Control::ReleaseBuffer
        })
        .unwrap();
    assert_eq!(chunks, 4);
    assert_eq!(shared.kv_cache_size().unwrap(), vec![7]);

    let borrowed = RkllmSession::new(&*api, &param).unwrap();
    assert!(!borrowed.is_running());
    let boxed = RkllmSession::new(Box::new(FakeApi::default()), &param).unwrap();
    assert!(boxed.abort().is_ok());
    boxed.set_chat_template("be brief".into(), "".into(), "".into()).unwrap();
}

struct Lengths;

impl TokenizerHook for Lengths {
    fn tokenize(&self, text: &str, _out: &mut [i32]) -> Option<usize> {
        Some(text.len())
    }
}

#[test]
fn only_supplied_hooks_are_registered() {
    let param = Param::new("/dev/null".into()).unwrap();
    let builder = SessionBuilder::new(&param);
    assert!(!builder.is_plain());
    let session = builder.with_api(FakeApi::default()).unwrap();
    assert_eq!(session.api().state.lock().unwrap().registered, (false, false));

    let builder = SessionBuilder::new(&param).tokenizer(Arc::new(Lengths));
    assert!(builder.is_plain());
    let session = builder.with_api(FakeApi::default()).unwrap();
    assert_eq!(session.api().state.lock().unwrap().registered, (true, false));
    assert_eq!(session.api().state.lock().unwrap().tokenized, Some(4));
}

#[test]
fn a_second_run_follows_the_first() {
    // One run leaves nothing behind that the next would find.
    let session = session();
    for _ in 0..3 {
        let mut text = String::new();
        session
            .run_llm(&mut prompt("hi"), &InferParams::new(), |out| {
                text.push_str(out.text().unwrap_or(""));
                Control::Continue
            })
            .unwrap();
        assert_eq!(text, "Hello, world");
    }
}

#[test]
fn an_embedding_is_as_wide_as_its_length_says() {
    let image = ImageInput::new(numbers(&[0.0; 24]), 2, 3).unwrap();
    assert_eq!(image.embed_dim(), 4);
    assert_eq!(image.clone(), image);
    // More tokens than can be counted divide nothing but an empty buffer.
    assert_eq!(ImageInput::new(Vec::new(), usize::MAX, 2).unwrap().embed_dim(), 0);
    assert!(ImageInput::new(numbers(&[0.0]), usize::MAX, 2).is_err());
}

#[test]
fn a_single_run_is_a_batch_run_of_one() {
    let session = session();
    let mut single = Vec::new();
    let one = session.run_llm(&mut prompt("hi"), &InferParams::new(), |out| {
        single.push(out.to_chunk());
        Control::Continue
    });
    let seen = last_inputs(&session);

    let mut batch = Vec::new();
    let all = session.run_llm_batch(&mut [prompt("hi")], &InferParams::new(), |outputs| {
        assert_eq!(outputs.len(), 1);
        batch.push(outputs[0].to_chunk());
        Control::Continue
    });
    assert!(one.is_ok() && all.is_ok());
    assert_eq!(single, batch);
    assert_eq!(seen, last_inputs(&session));
}

/// A callback state of one input that answers with `answers` in turn.
fn told(answers: &[Option<Control>]) -> Vec<i32> {
    let mut calls = answers.iter();
    let receiver = PerBatch {
        closure: |_: &[Output<'_>]| -> Option<Control> { *calls.next().unwrap() },
    };
    let mut state = CallbackState::new(receiver, 1);
    // A runtime that pays no attention to what it is told.
    let codes = (0..4).map(|_| state.call(None, LLMCallState::RKLLM_RUN_NORMAL)).collect();
    assert_eq!(state.panicked(), answers.contains(&None));
    codes
}

#[test]
fn every_code_is_the_callbacks_until_it_panics() {
    let release = Some(Control::ReleaseBuffer);
    let go = Some(Control::Continue);
    assert_eq!(told(&[go, release, Some(Control::Pause), go]), vec![0, 2, 1, 0]);
    // The answers run out with the panic, so nothing is asked for after it.
    assert_eq!(told(&[go, None]), vec![0, 1, 1, 1]);
}

#[test]
fn a_call_without_a_run_is_told_to_stop() {
    let none: Option<&mut CallbackState<PerBatch<fn(&[Output<'_>]) -> Control>>> = None;
    assert_eq!(trampoline(None, none, LLMCallState::RKLLM_RUN_NORMAL), 1);
}
