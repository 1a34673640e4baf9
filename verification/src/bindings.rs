//! The `librkllmrt` C API, with its pointers replaced by the values behind
//! them.
//!
//! The types keep the names that `rkllm.h` gives them. Where the C struct has a
//! pointer that may be null, the field here is an `Option`. Where it has a
//! pointer and a length, the field is a slice or a vector. [`RkllmApi`]
//! holds the calls themselves, which a set of bindings implements.
//!
//! [`RkllmApi`]: crate::api::RkllmApi
use std::sync::Arc;

use vstd::prelude::*;

use crate::cstring::CString;
use crate::float::F32;
use crate::hooks::Hooks;

verus! {

/// The runtime's name for one loaded model: an address, zero when null.
#[derive(Debug, Clone, Copy, PartialEq, Eq, Hash, Structural)]
pub struct LLMHandle {
    /// Where the runtime keeps the model.
    pub address: usize,
}

impl LLMHandle {
    /// The handle that names no model.
    pub open spec fn null_handle() -> LLMHandle {
        LLMHandle { address: 0 }
    }

    /// The handle that names no model.
    pub fn null() -> (r: LLMHandle)
        ensures
            r == LLMHandle::null_handle(),
    {
        LLMHandle { address: 0 }
    }

    /// Whether this handle names no model.
    pub fn is_null(self) -> (r: bool)
        ensures
            r == (self == LLMHandle::null_handle()),
    {
        self.address == 0
    }
}

/// Where a run is when the result callback fires.
#[allow(non_camel_case_types)]
#[derive(Debug, Clone, Copy, PartialEq, Eq, Hash, Structural)]
pub enum LLMCallState {
    /// Output is ready.
    RKLLM_RUN_NORMAL,
    /// Bytes are held back until a UTF-8 character completes.
    RKLLM_RUN_WAITING,
    /// The run finished.
    RKLLM_RUN_FINISH,
    /// The run failed.
    RKLLM_RUN_ERROR,
    /// A value that `rkllm.h` does not list.
    Other(u32),
}

/// What a run computes.
#[allow(non_camel_case_types)]
#[derive(Debug, Clone, Copy, PartialEq, Eq, Hash, Structural)]
pub enum RKLLMInferMode {
    /// Text.
    RKLLM_INFER_GENERATE,
    /// The last layer's hidden states.
    RKLLM_INFER_GET_LAST_HIDDEN_LAYER,
    /// The logits.
    RKLLM_INFER_GET_LOGITS,
}

/// Which kind of payload an [`RKLLMInput`] carries.
#[allow(non_camel_case_types)]
#[derive(Debug, Clone, Copy, PartialEq, Eq, Hash, Structural)]
pub enum RKLLMInputType {
    /// A text prompt.
    RKLLM_INPUT_PROMPT,
    /// Token ids.
    RKLLM_INPUT_TOKEN,
    /// Embeddings.
    RKLLM_INPUT_EMBED,
    /// Text and images.
    RKLLM_INPUT_MULTIMODAL,
}

/// Settings that `rkllm.h` keeps apart from the main block.
#[derive(Debug, Clone, Copy, PartialEq, Eq, Structural)]
pub struct RKLLMExtendParam {
    /// Whether word embeddings are read from flash.
    pub embed_flash: i8,
    /// How many CPU cores the runtime may use.
    pub enabled_cpus_num: i8,
    /// Which ones.
    pub enabled_cpus_mask: u32,
    /// How many inputs one forward pass handles.
    pub n_batch: u8,
    /// Whether the decoder runs cross attention.
    pub use_cross_attn: i8,
}

/// Everything `rkllm_init` reads about the model to load.
#[derive(Debug, Clone, Copy)]
pub struct RKLLMParam<'a> {
    /// The model file. Null in the runtime's defaults.
    pub model_path: Option<&'a CString>,
    /// Tokens the context window holds.
    pub max_context_len: i32,
    /// Tokens generated in one run.
    pub max_new_tokens: i32,
    /// Cache entries kept when the context shifts.
    pub n_keep: i32,
    /// Top-K sampling cutoff.
    pub top_k: i32,
    /// Top-P sampling cutoff.
    pub top_p: F32,
    /// Sampling temperature.
    pub temperature: F32,
    /// Penalty on repetition.
    pub repeat_penalty: F32,
    /// Penalty by frequency.
    pub frequency_penalty: F32,
    /// Penalty on presence.
    pub presence_penalty: F32,
    /// Mirostat strategy.
    pub mirostat: i32,
    /// Mirostat target entropy.
    pub mirostat_tau: F32,
    /// Mirostat learning rate.
    pub mirostat_eta: F32,
    /// Whether special tokens are left out of the text.
    pub skip_special_token: bool,
    /// Whether the end-of-sequence token is ignored.
    pub ignore_eos_token: bool,
    /// The remaining settings.
    pub extend_param: RKLLMExtendParam,
}

/// The callbacks that `rkllm_init` registers.
///
/// The result callback is always registered. Each of the other two is
/// registered exactly when the hooks it finds its closure in are given.
pub struct RKLLMCallback {
    /// What the tokenizer callback is handed, where it is registered.
    pub tokenizer_userdata: Option<Arc<Hooks>>,
    /// What the embedding callback is handed, where it is registered.
    pub embed_userdata: Option<Arc<Hooks>>,
}

/// A LoRA adapter to load.
#[derive(Debug, Clone, Copy)]
pub struct RKLLMLoraAdapter<'a> {
    /// The adapter file.
    pub lora_adapter_path: &'a CString,
    /// The name later runs select it by.
    pub lora_adapter_name: &'a CString,
    /// How strongly it applies.
    pub scale: F32,
}

/// The LoRA adapter a run applies.
#[derive(Debug, Clone, Copy)]
pub struct RKLLMLoraParam<'a> {
    /// Its name.
    pub lora_adapter_name: &'a CString,
}

/// The prompt cache a run uses.
#[derive(Debug, Clone, Copy)]
pub struct RKLLMPromptCacheParam<'a> {
    /// Whether the run writes to it.
    pub save_prompt_cache: i32,
    /// The cache file.
    pub prompt_cache_path: &'a CString,
}

/// The sampling settings a run overrides.
#[derive(Debug, Clone, Copy)]
pub struct RKLLMSamplingParam {
    /// Top-K sampling cutoff.
    pub top_k: i32,
    /// Top-P sampling cutoff.
    pub top_p: F32,
    /// Sampling temperature.
    pub temperature: F32,
    /// Penalty on repetition.
    pub repeat_penalty: F32,
    /// Penalty by frequency.
    pub frequency_penalty: F32,
    /// Penalty on presence.
    pub presence_penalty: F32,
    /// Mirostat strategy.
    pub mirostat: i32,
    /// Mirostat target entropy.
    pub mirostat_tau: F32,
    /// Mirostat learning rate.
    pub mirostat_eta: F32,
}

/// Everything `rkllm_run` reads about how to run.
#[derive(Debug, Clone, Copy)]
pub struct RKLLMInferParam<'a> {
    /// What to compute.
    pub mode: RKLLMInferMode,
    /// The LoRA adapter, if any.
    pub lora_params: Option<&'a RKLLMLoraParam<'a>>,
    /// The prompt cache, if any.
    pub prompt_cache_params: Option<&'a RKLLMPromptCacheParam<'a>>,
    /// The sampling override, if any.
    pub sampling_params: Option<&'a RKLLMSamplingParam>,
    /// Whether the run sees the conversation history.
    pub keep_history: i32,
    /// The token budget, where zero leaves the one set at init.
    pub max_new_tokens: i32,
}

/// Token ids to run on.
#[derive(Debug, Clone, Copy)]
pub struct RKLLMTokenInput<'a> {
    /// The ids.
    pub input_ids: &'a Vec<i32>,
    /// How many of them there are.
    pub n_tokens: usize,
}

/// Embeddings to run on.
#[derive(Debug, Clone, Copy)]
pub struct RKLLMEmbedInput<'a> {
    /// The values, token after token.
    pub embed: &'a Vec<F32>,
    /// How many tokens they stand for.
    pub n_tokens: usize,
}

/// The image half of a multimodal payload.
#[derive(Debug, Clone, Copy)]
pub struct RKLLMImage<'a> {
    /// The values, image after image and token after token.
    pub image_embed: &'a Vec<F32>,
    /// Tokens per image.
    pub n_image_tokens: usize,
    /// How many images there are.
    pub n_image: usize,
    /// The tag that opens an image.
    pub image_start: &'a CString,
    /// The tag that closes an image.
    pub image_end: &'a CString,
    /// The tag that stands for one image token.
    pub image_content: &'a CString,
    /// Image width in pixels.
    pub image_width: usize,
    /// Image height in pixels.
    pub image_height: usize,
}

/// The video half of a multimodal payload.
#[derive(Debug, Clone, Copy)]
pub struct RKLLMVideo<'a> {
    /// The values, null where there is no video.
    pub video_embed: Option<&'a Vec<F32>>,
    /// The tag that opens a video.
    pub video_start: Option<&'a CString>,
    /// The tag that closes a video.
    pub video_end: Option<&'a CString>,
    /// The tag that stands for one frame token.
    pub video_content: Option<&'a CString>,
    /// How many videos there are.
    pub n_video: usize,
    /// Tokens per frame.
    pub n_frame_tokens: usize,
    /// Frames per video.
    pub n_frame_per_video: usize,
    /// Frame width in pixels.
    pub frame_width: usize,
    /// Frame height in pixels.
    pub frame_height: usize,
}

impl<'a> RKLLMVideo<'a> {
    /// Whether every pointer is null and every count is zero.
    pub open spec fn is_zeroed(self) -> bool {
        &&& self.video_embed is None
        &&& self.video_start is None
        &&& self.video_end is None
        &&& self.video_content is None
        &&& self.n_video == 0
        &&& self.n_frame_tokens == 0
        &&& self.n_frame_per_video == 0
        &&& self.frame_width == 0
        &&& self.frame_height == 0
    }

    /// The block that says there is no video.
    pub fn zeroed() -> (r: RKLLMVideo<'a>)
        ensures
            r.is_zeroed(),
    {
        RKLLMVideo {
            video_embed: None,
            video_start: None,
            video_end: None,
            video_content: None,
            n_video: 0,
            n_frame_tokens: 0,
            n_frame_per_video: 0,
            frame_width: 0,
            frame_height: 0,
        }
    }
}

/// Text and images to run on.
#[derive(Debug, Clone, Copy)]
pub struct RKLLMMultiModalInput<'a> {
    /// The text.
    pub prompt: &'a CString,
    /// The images.
    pub image: RKLLMImage<'a>,
    /// The videos, of which there are none.
    pub video: RKLLMVideo<'a>,
}

/// The payload of an [`RKLLMInput`]. In C this is an untagged union.
#[derive(Debug, Clone, Copy)]
pub enum RKLLMInputPayload<'a> {
    /// A text prompt.
    Prompt(&'a CString),
    /// Token ids.
    Token(RKLLMTokenInput<'a>),
    /// Embeddings.
    Embed(RKLLMEmbedInput<'a>),
    /// Text and images.
    MultiModal(RKLLMMultiModalInput<'a>),
}

/// One message for the model.
#[derive(Debug, Clone, Copy)]
pub struct RKLLMInput<'a> {
    /// The role, null for the runtime's own default.
    pub role: Option<&'a CString>,
    /// Whether thinking mode is on.
    pub enable_thinking: bool,
    /// Which payload follows.
    pub input_type: RKLLMInputType,
    /// The payload.
    pub payload: RKLLMInputPayload<'a>,
}

/// The hidden states that a result carries.
#[derive(Debug, Clone)]
pub struct RKLLMResultLastHiddenLayer {
    /// The values, null in the other inference modes.
    pub hidden_states: Option<Vec<F32>>,
    /// Values per token.
    pub embd_size: i32,
    /// How many tokens there are.
    pub num_tokens: i32,
}

/// The logits that a result carries.
#[derive(Debug, Clone)]
pub struct RKLLMResultLogits {
    /// The values, null in the other inference modes.
    pub logits: Option<Vec<F32>>,
    /// Values per token.
    pub vocab_size: i32,
    /// How many tokens there are.
    pub num_tokens: i32,
}

/// Timings and memory use of a run.
#[derive(Debug, Clone, Copy)]
pub struct RKLLMPerfStat {
    /// Milliseconds spent in prefill.
    pub prefill_time_ms: F32,
    /// Tokens consumed during prefill.
    pub prefill_tokens: i32,
    /// Milliseconds spent generating.
    pub generate_time_ms: F32,
    /// Tokens generated.
    pub generate_tokens: i32,
    /// Peak memory in megabytes.
    pub memory_usage_mb: F32,
}

/// One batch entry's share of a callback.
#[derive(Debug, Clone)]
pub struct RKLLMResult {
    /// The text, null when there is none.
    pub text: Option<CString>,
    /// The token that produced it, negative once the entry has stopped.
    pub token_id: i32,
    /// The hidden states.
    pub last_hidden_layer: RKLLMResultLastHiddenLayer,
    /// The logits.
    pub logits: RKLLMResultLogits,
    /// The timings.
    pub perf: RKLLMPerfStat,
}

} // verus!
