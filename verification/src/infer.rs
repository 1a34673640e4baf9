//! Per-run configuration.
use vstd::prelude::*;

use crate::bindings::{
    RKLLMInferMode, RKLLMInferParam, RKLLMLoraParam, RKLLMPromptCacheParam, RKLLMSamplingParam,
};
use crate::cstring::CString;
use crate::error::Error;
use crate::float::F32;

verus! {

/// What a run should produce.
#[derive(Debug, Clone, Copy, PartialEq, Eq, Hash, Structural)]
pub enum Mode {
    /// Generate text.
    Generate,
    /// Return the hidden states of the last layer instead of generating.
    LastHiddenLayer,
    /// Return the output logits instead of generating.
    Logits,
}

impl Mode {
    /// The mode that `rkllm.h` lists for this.
    pub open spec fn raw_mode(self) -> RKLLMInferMode {
        match self {
            Mode::Generate => RKLLMInferMode::RKLLM_INFER_GENERATE,
            Mode::LastHiddenLayer => RKLLMInferMode::RKLLM_INFER_GET_LAST_HIDDEN_LAYER,
            Mode::Logits => RKLLMInferMode::RKLLM_INFER_GET_LOGITS,
        }
    }

    /// The mode that `rkllm.h` lists for this.
    pub fn as_raw(self) -> (r: RKLLMInferMode)
        ensures
            r == self.raw_mode(),
    {
        match self {
            Mode::Generate => RKLLMInferMode::RKLLM_INFER_GENERATE,
            Mode::LastHiddenLayer => RKLLMInferMode::RKLLM_INFER_GET_LAST_HIDDEN_LAYER,
            Mode::Logits => RKLLMInferMode::RKLLM_INFER_GET_LOGITS,
        }
    }
}

impl Default for Mode {
    /// Generates text.
    fn default() -> (r: Mode)
        ensures
            r == Mode::Generate,
    {
        Mode::Generate
    }
}

/// Sampling settings that override the ones fixed at init, for one run.
#[derive(Debug, Clone, Copy, PartialEq)]
pub struct Sampling {
    /// Top-K sampling cutoff.
    pub top_k: i32,
    /// Top-P, or nucleus, sampling cutoff.
    pub top_p: F32,
    /// Sampling temperature.
    pub temperature: F32,
    /// Penalty applied to tokens that repeat.
    pub repeat_penalty: F32,
    /// Penalty scaled by how often a token has appeared.
    pub frequency_penalty: F32,
    /// Penalty applied to tokens already present at all.
    pub presence_penalty: F32,
    /// Mirostat strategy, where zero disables it.
    pub mirostat: i32,
    /// Mirostat target entropy.
    pub mirostat_tau: F32,
    /// Mirostat learning rate.
    pub mirostat_eta: F32,
}

impl Sampling {
    /// The same settings, as the runtime takes them.
    pub open spec fn raw_sampling(self) -> RKLLMSamplingParam {
        RKLLMSamplingParam {
            top_k: self.top_k,
            top_p: self.top_p,
            temperature: self.temperature,
            repeat_penalty: self.repeat_penalty,
            frequency_penalty: self.frequency_penalty,
            presence_penalty: self.presence_penalty,
            mirostat: self.mirostat,
            mirostat_tau: self.mirostat_tau,
            mirostat_eta: self.mirostat_eta,
        }
    }

    /// The same settings, as the runtime takes them.
    pub fn as_raw(self) -> (r: RKLLMSamplingParam)
        ensures
            r == self.raw_sampling(),
    {
        RKLLMSamplingParam {
            top_k: self.top_k,
            top_p: self.top_p,
            temperature: self.temperature,
            repeat_penalty: self.repeat_penalty,
            frequency_penalty: self.frequency_penalty,
            presence_penalty: self.presence_penalty,
            mirostat: self.mirostat,
            mirostat_tau: self.mirostat_tau,
            mirostat_eta: self.mirostat_eta,
        }
    }
}

/// Settings for a single run.
///
/// The default generates text and keeps the conversation history, which is what
/// a chat session wants. Call [`InferParams::keep_history`] with `false` for
/// one-shot runs that should not see each other.
#[derive(Debug, Clone, PartialEq)]
pub struct InferParams {
    mode: Mode,
    keep_history: bool,
    max_new_tokens: Option<i32>,
    lora_adapter_name: Option<CString>,
    prompt_cache: Option<PromptCache>,
    sampling: Option<Sampling>,
}

#[derive(Debug, Clone, PartialEq)]
struct PromptCache {
    path: CString,
    save: bool,
}

/// What an [`InferParams`] holds.
pub ghost struct RunSettings {
    /// What the run should produce.
    pub mode: Mode,
    /// Whether the run sees, and adds to, the conversation history.
    pub keep_history: bool,
    /// The token budget, where it overrides the one set at init.
    pub max_new_tokens: Option<i32>,
    /// The name of the LoRA adapter to apply.
    pub lora_adapter_name: Option<Seq<u8>>,
    /// The prompt cache file, and whether the run writes to it.
    pub prompt_cache: Option<(Seq<u8>, bool)>,
    /// The sampling settings that override the ones set at init.
    pub sampling: Option<Sampling>,
}

impl RunSettings {
    /// Generate text, keep history, and override nothing.
    pub open spec fn initial() -> RunSettings {
        RunSettings {
            mode: Mode::Generate,
            keep_history: true,
            max_new_tokens: None,
            lora_adapter_name: None,
            prompt_cache: None,
            sampling: None,
        }
    }

    /// Whether `raw` tells the runtime these settings: what was left alone is
    /// null or zero, and what was set is there.
    pub open spec fn passed_as(self, raw: RKLLMInferParam<'_>) -> bool {
        &&& raw.mode == self.mode.raw_mode()
        &&& raw.keep_history == crate::param::flag(self.keep_history)
        &&& raw.max_new_tokens == crate::param::set_or(self.max_new_tokens, 0i32)
        &&& match (self.lora_adapter_name, raw.lora_params) {
            (Some(name), Some(lora)) => lora.lora_adapter_name@ == name,
            (None, None) => true,
            _ => false,
        }
        &&& match (self.prompt_cache, raw.prompt_cache_params) {
            (Some((path, save)), Some(cache)) => {
                &&& cache.prompt_cache_path@ == path
                &&& cache.save_prompt_cache == crate::param::flag(save)
            },
            (None, None) => true,
            _ => false,
        }
        &&& match (self.sampling, raw.sampling_params) {
            (Some(sampling), Some(param)) => *param == sampling.raw_sampling(),
            (None, None) => true,
            _ => false,
        }
    }
}

impl View for InferParams {
    type V = RunSettings;

    closed spec fn view(&self) -> RunSettings {
        RunSettings {
            mode: self.mode,
            keep_history: self.keep_history,
            max_new_tokens: self.max_new_tokens,
            lora_adapter_name: match self.lora_adapter_name {
                Some(name) => Some(name@),
                None => None,
            },
            prompt_cache: match self.prompt_cache {
                Some(cache) => Some((cache.path@, cache.save)),
                None => None,
            },
            sampling: self.sampling,
        }
    }
}

impl Default for InferParams {
    /// Settings that generate text and keep history.
    fn default() -> (r: InferParams)
        ensures
            r@ == RunSettings::initial(),
    {
        InferParams::new()
    }
}

impl InferParams {
    /// Settings that generate text and keep history.
    pub fn new() -> (r: InferParams)
        ensures
            r@ == RunSettings::initial(),
    {
        InferParams {
            mode: Mode::default(),
            keep_history: true,
            max_new_tokens: None,
            lora_adapter_name: None,
            prompt_cache: None,
            sampling: None,
        }
    }

    /// What the run should produce.
    pub fn mode(self, mode: Mode) -> (r: InferParams)
        ensures
            r@ == (RunSettings { mode, ..self@ }),
    {
        InferParams { mode, ..self }
    }

    /// Whether this run sees, and adds to, the conversation history.
    pub fn keep_history(self, keep: bool) -> (r: InferParams)
        ensures
            r@ == (RunSettings { keep_history: keep, ..self@ }),
    {
        InferParams { keep_history: keep, ..self }
    }

    /// Token budget for this run, overriding the one set at init.
    pub fn max_new_tokens(self, tokens: i32) -> (r: InferParams)
        ensures
            r@ == (RunSettings { max_new_tokens: Some(tokens), ..self@ }),
    {
        InferParams { max_new_tokens: Some(tokens), ..self }
    }

    /// Name of a LoRA adapter to apply, previously loaded into the session.
    pub fn lora_adapter(self, name: Vec<u8>) -> (r: Result<InferParams, Error>)
        ensures
            r is Ok <==> crate::cstring::nul_free(name@),
            r matches Ok(params) ==> params@ == (RunSettings {
                lora_adapter_name: Some(name@),
                ..self@
            }),
            r matches Err(e) ==> crate::error::refused_nul(e, "lora_adapter_name", name@),
    {
        match CString::new(name) {
            Ok(name) => Ok(InferParams { lora_adapter_name: Some(name), ..self }),
            Err(e) => Err(Error::nul("lora_adapter_name", &e)),
        }
    }

    /// Prompt cache file to use, and whether this run should write to it.
    pub fn prompt_cache(self, path: Vec<u8>, save: bool) -> (r: Result<InferParams, Error>)
        ensures
            r is Ok <==> crate::cstring::nul_free(path@),
            r matches Ok(params) ==> params@ == (RunSettings {
                prompt_cache: Some((path@, save)),
                ..self@
            }),
            r matches Err(e) ==> crate::error::refused_nul(e, "prompt_cache_path", path@),
    {
        match CString::new(path) {
            Ok(path) => Ok(InferParams { prompt_cache: Some(PromptCache { path, save }), ..self }),
            Err(e) => Err(Error::nul("prompt_cache_path", &e)),
        }
    }

    /// Sampling settings for this run, overriding the ones fixed at init.
    pub fn sampling(self, sampling: Sampling) -> (r: InferParams)
        ensures
            r@ == (RunSettings { sampling: Some(sampling), ..self@ }),
    {
        InferParams { sampling: Some(sampling), ..self }
    }

    /// Materializes the sub-structs the run needs.
    ///
    /// They live in the returned value rather than in `self`, since what the
    /// runtime is handed only points at them.
    pub fn scratch(&self) -> (r: Scratch<'_>)
        ensures
            self@.passed_as(r.block()),
    {
        Scratch {
            lora: match &self.lora_adapter_name {
                Some(name) => Some(RKLLMLoraParam { lora_adapter_name: name }),
                None => None,
            },
            cache: match &self.prompt_cache {
                Some(cache) => Some(
                    RKLLMPromptCacheParam {
                        save_prompt_cache: if cache.save {
                            1
                        } else {
                            0
                        },
                        prompt_cache_path: &cache.path,
                    },
                ),
                None => None,
            },
            sampling: match self.sampling {
                Some(sampling) => Some(sampling.as_raw()),
                None => None,
            },
            mode: self.mode.as_raw(),
            keep_history: if self.keep_history {
                1
            } else {
                0
            },
            max_new_tokens: match self.max_new_tokens {
                Some(tokens) => tokens,
                None => 0,
            },
        }
    }
}

/// The sub-structs of one run, borrowing the strings they point at from
/// [`InferParams`].
pub struct Scratch<'a> {
    lora: Option<RKLLMLoraParam<'a>>,
    cache: Option<RKLLMPromptCacheParam<'a>>,
    sampling: Option<RKLLMSamplingParam>,
    mode: RKLLMInferMode,
    keep_history: i32,
    max_new_tokens: i32,
}

impl<'a> Scratch<'a> {
    /// The block that points at these sub-structs.
    pub closed spec fn block(self) -> RKLLMInferParam<'a> {
        RKLLMInferParam {
            mode: self.mode,
            lora_params: match self.lora {
                Some(lora) => Some(&lora),
                None => None,
            },
            prompt_cache_params: match self.cache {
                Some(cache) => Some(&cache),
                None => None,
            },
            sampling_params: match self.sampling {
                Some(sampling) => Some(&sampling),
                None => None,
            },
            keep_history: self.keep_history,
            max_new_tokens: self.max_new_tokens,
        }
    }

    /// What the runtime is told, pointing into this value's own storage.
    pub fn as_raw(&self) -> (r: RKLLMInferParam<'_>)
        ensures
            r == self.block(),
    {
        RKLLMInferParam {
            mode: self.mode,
            lora_params: self.lora.as_ref(),
            prompt_cache_params: self.cache.as_ref(),
            sampling_params: self.sampling.as_ref(),
            keep_history: self.keep_history,
            max_new_tokens: self.max_new_tokens,
        }
    }
}

/// A run without a token budget of its own tells the runtime zero, and a run
/// with none of the overrides points it at nothing.
pub proof fn initial_settings_override_nothing(raw: RKLLMInferParam<'_>)
    requires
        RunSettings::initial().passed_as(raw),
    ensures
        raw.mode == RKLLMInferMode::RKLLM_INFER_GENERATE,
        raw.keep_history == 1,
        raw.max_new_tokens == 0,
        raw.lora_params is None,
        raw.prompt_cache_params is None,
        raw.sampling_params is None,
{
}

/// Each setting of a run is told to the runtime in the field of its own name, and
/// one that was left alone is told as null or zero.
pub proof fn run_settings_arrive(settings: RunSettings, raw: RKLLMInferParam<'_>)
    requires
        settings.passed_as(raw),
    ensures
        settings.mode is Generate <==> raw.mode is RKLLM_INFER_GENERATE,
        settings.mode is LastHiddenLayer <==> raw.mode is RKLLM_INFER_GET_LAST_HIDDEN_LAYER,
        settings.mode is Logits <==> raw.mode is RKLLM_INFER_GET_LOGITS,
        raw.keep_history == 0 || raw.keep_history == 1,
        raw.keep_history == 1 <==> settings.keep_history,
        settings.max_new_tokens matches Some(tokens) ==> raw.max_new_tokens == tokens,
        settings.max_new_tokens is None ==> raw.max_new_tokens == 0,
        raw.lora_params is Some <==> settings.lora_adapter_name is Some,
        settings.lora_adapter_name matches Some(name)
            ==> raw.lora_params->0.lora_adapter_name@ == name,
        raw.prompt_cache_params is Some <==> settings.prompt_cache is Some,
        settings.prompt_cache matches Some((path, save)) ==> {
            &&& raw.prompt_cache_params->0.prompt_cache_path@ == path
            &&& raw.prompt_cache_params->0.save_prompt_cache == (if save {
                1
            } else {
                0int
            })
        },
        raw.sampling_params is Some <==> settings.sampling is Some,
        settings.sampling matches Some(sampling) ==> {
            &&& raw.sampling_params->0.top_k == sampling.top_k
            &&& raw.sampling_params->0.top_p == sampling.top_p
            &&& raw.sampling_params->0.temperature == sampling.temperature
            &&& raw.sampling_params->0.repeat_penalty == sampling.repeat_penalty
            &&& raw.sampling_params->0.frequency_penalty == sampling.frequency_penalty
            &&& raw.sampling_params->0.presence_penalty == sampling.presence_penalty
            &&& raw.sampling_params->0.mirostat == sampling.mirostat
            &&& raw.sampling_params->0.mirostat_tau == sampling.mirostat_tau
            &&& raw.sampling_params->0.mirostat_eta == sampling.mirostat_eta
        },
{
}

/// Each setting of a run is kept under its own name as it was made, and leaves the
/// others as they were. A name or path that holds a NUL is refused.
pub proof fn a_run_setting_changes_only_itself(params: InferParams)
    ensures
        forall|mode: Mode, r: InferParams|
            #[trigger] call_ensures(InferParams::mode, (params, mode), r) ==> r@ == (RunSettings {
                mode,
                ..params@
            }),
        forall|keep: bool, r: InferParams|
            #[trigger] call_ensures(InferParams::keep_history, (params, keep), r) ==> r@ == (
            RunSettings { keep_history: keep, ..params@ }),
        forall|tokens: i32, r: InferParams|
            #[trigger] call_ensures(InferParams::max_new_tokens, (params, tokens), r) ==> r@ == (
            RunSettings { max_new_tokens: Some(tokens), ..params@ }),
        forall|sampling: Sampling, r: InferParams|
            #[trigger] call_ensures(InferParams::sampling, (params, sampling), r) ==> r@ == (
            RunSettings { sampling: Some(sampling), ..params@ }),
        forall|name: Vec<u8>, r: Result<InferParams, Error>|
            #[trigger] call_ensures(InferParams::lora_adapter, (params, name), r) ==> {
                &&& r is Err <==> exists|i: int| 0 <= i < name@.len() && name@[i] == 0
                &&& r is Ok ==> r->Ok_0@ == (RunSettings {
                    lora_adapter_name: Some(name@),
                    ..params@
                })
            },
        forall|path: Vec<u8>, save: bool, r: Result<InferParams, Error>|
            #[trigger] call_ensures(InferParams::prompt_cache, (params, path, save), r) ==> {
                &&& r is Err <==> exists|i: int| 0 <= i < path@.len() && path@[i] == 0
                &&& r is Ok ==> r->Ok_0@ == (RunSettings {
                    prompt_cache: Some((path@, save)),
                    ..params@
                })
            },
{
}

} // verus!
