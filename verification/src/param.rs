//! Model configuration, fixed when a session is created.
use vstd::prelude::*;

use crate::bindings::{RKLLMExtendParam, RKLLMParam};
use crate::cstring::CString;
use crate::error::Error;
use crate::float::F32;

verus! {

/// Configuration for a model.
///
/// A `Param` is a plain value: building one needs no runtime, and nothing in it
/// is resolved until a session is created. At that point the session asks the
/// runtime for its own defaults and lays these settings over the top, so
/// anything left alone keeps whatever default that version of `librkllmrt`
/// ships.
#[derive(Debug, Clone, PartialEq)]
pub struct Param {
    model_path: CString,
    max_context_len: Option<i32>,
    max_new_tokens: Option<i32>,
    n_keep: Option<i32>,
    top_k: Option<i32>,
    top_p: Option<F32>,
    temperature: Option<F32>,
    repeat_penalty: Option<F32>,
    frequency_penalty: Option<F32>,
    presence_penalty: Option<F32>,
    mirostat: Option<i32>,
    mirostat_tau: Option<F32>,
    mirostat_eta: Option<F32>,
    skip_special_token: Option<bool>,
    ignore_eos_token: Option<bool>,
    enabled_cpus: Option<(i8, u32)>,
    n_batch: Option<u8>,
    embed_flash: Option<bool>,
    use_cross_attn: Option<bool>,
}

/// What a [`Param`] holds: the model, and each setting that was made.
pub ghost struct Settings {
    /// The path of the model.
    pub model_path: Seq<u8>,
    /// Maximum number of tokens held in the context window.
    pub max_context_len: Option<i32>,
    /// Maximum number of tokens generated in one run.
    pub max_new_tokens: Option<i32>,
    /// Number of leading key-value cache entries kept when the context shifts.
    pub n_keep: Option<i32>,
    /// Top-K sampling cutoff.
    pub top_k: Option<i32>,
    /// Top-P, or nucleus, sampling cutoff.
    pub top_p: Option<F32>,
    /// Sampling temperature.
    pub temperature: Option<F32>,
    /// Penalty applied to tokens that repeat.
    pub repeat_penalty: Option<F32>,
    /// Penalty scaled by how often a token has appeared.
    pub frequency_penalty: Option<F32>,
    /// Penalty applied to tokens already present at all.
    pub presence_penalty: Option<F32>,
    /// Mirostat strategy, where zero disables it.
    pub mirostat: Option<i32>,
    /// Mirostat target entropy.
    pub mirostat_tau: Option<F32>,
    /// Mirostat learning rate.
    pub mirostat_eta: Option<F32>,
    /// Whether special tokens are left out of the generated text.
    pub skip_special_token: Option<bool>,
    /// Whether the runtime ignores the end-of-sequence token.
    pub ignore_eos_token: Option<bool>,
    /// Number of CPU cores the runtime may use, with the matching bitmask.
    pub enabled_cpus: Option<(i8, u32)>,
    /// How many inputs one forward pass handles.
    pub n_batch: Option<u8>,
    /// Whether word embeddings are read from flash rather than memory.
    pub embed_flash: Option<bool>,
    /// Whether the decoder runs cross attention.
    pub use_cross_attn: Option<bool>,
}

/// The value that was set, or else the default.
pub open spec fn set_or<T>(set: Option<T>, default: T) -> T {
    match set {
        Some(value) => value,
        None => default,
    }
}

/// How C spells a truth value.
pub open spec fn flag(value: bool) -> int {
    if value {
        1
    } else {
        0
    }
}

/// The truth value that was set, as C spells it, or else the default.
pub open spec fn flag_or(set: Option<bool>, default: i8) -> int {
    match set {
        Some(value) => flag(value),
        None => default as int,
    }
}

/// The value that was set, or else the default.
fn overlay<T: Copy>(set: Option<T>, default: T) -> (r: T)
    ensures
        r == set_or(set, default),
{
    match set {
        Some(value) => value,
        None => default,
    }
}

/// The truth value that was set, as C spells it, or else the default.
fn overlay_flag(set: Option<bool>, default: i8) -> (r: i8)
    ensures
        r == flag_or(set, default),
{
    match set {
        Some(true) => 1,
        Some(false) => 0,
        None => default,
    }
}

impl Settings {
    /// No setting made for the model at `model_path`.
    pub open spec fn unset(model_path: Seq<u8>) -> Settings {
        Settings {
            model_path,
            max_context_len: None,
            max_new_tokens: None,
            n_keep: None,
            top_k: None,
            top_p: None,
            temperature: None,
            repeat_penalty: None,
            frequency_penalty: None,
            presence_penalty: None,
            mirostat: None,
            mirostat_tau: None,
            mirostat_eta: None,
            skip_special_token: None,
            ignore_eos_token: None,
            enabled_cpus: None,
            n_batch: None,
            embed_flash: None,
            use_cross_attn: None,
        }
    }

    /// Whether `extended` is `defaults` with these settings laid over it.
    pub open spec fn extends(
        self,
        defaults: RKLLMExtendParam,
        extended: RKLLMExtendParam,
    ) -> bool {
        &&& extended.embed_flash == flag_or(self.embed_flash, defaults.embed_flash)
        &&& extended.enabled_cpus_num == (match self.enabled_cpus {
            Some((count, _)) => count,
            None => defaults.enabled_cpus_num,
        })
        &&& extended.enabled_cpus_mask == (match self.enabled_cpus {
            Some((_, mask)) => mask,
            None => defaults.enabled_cpus_mask,
        })
        &&& extended.n_batch == set_or(self.n_batch, defaults.n_batch)
        &&& extended.use_cross_attn == flag_or(self.use_cross_attn, defaults.use_cross_attn)
    }

    /// Whether `raw` is `defaults` with these settings laid over it: the model
    /// is this one, what was set has its value, and the rest is untouched.
    pub open spec fn lays_over(self, defaults: RKLLMParam<'_>, raw: RKLLMParam<'_>) -> bool {
        &&& raw.model_path is Some && raw.model_path->0@ == self.model_path
        &&& raw.max_context_len == set_or(self.max_context_len, defaults.max_context_len)
        &&& raw.max_new_tokens == set_or(self.max_new_tokens, defaults.max_new_tokens)
        &&& raw.n_keep == set_or(self.n_keep, defaults.n_keep)
        &&& raw.top_k == set_or(self.top_k, defaults.top_k)
        &&& raw.top_p == set_or(self.top_p, defaults.top_p)
        &&& raw.temperature == set_or(self.temperature, defaults.temperature)
        &&& raw.repeat_penalty == set_or(self.repeat_penalty, defaults.repeat_penalty)
        &&& raw.frequency_penalty == set_or(self.frequency_penalty, defaults.frequency_penalty)
        &&& raw.presence_penalty == set_or(self.presence_penalty, defaults.presence_penalty)
        &&& raw.mirostat == set_or(self.mirostat, defaults.mirostat)
        &&& raw.mirostat_tau == set_or(self.mirostat_tau, defaults.mirostat_tau)
        &&& raw.mirostat_eta == set_or(self.mirostat_eta, defaults.mirostat_eta)
        &&& raw.skip_special_token == set_or(self.skip_special_token, defaults.skip_special_token)
        &&& raw.ignore_eos_token == set_or(self.ignore_eos_token, defaults.ignore_eos_token)
        &&& self.extends(defaults.extend_param, raw.extend_param)
    }
}

impl View for Param {
    type V = Settings;

    closed spec fn view(&self) -> Settings {
        Settings {
            model_path: self.model_path@,
            max_context_len: self.max_context_len,
            max_new_tokens: self.max_new_tokens,
            n_keep: self.n_keep,
            top_k: self.top_k,
            top_p: self.top_p,
            temperature: self.temperature,
            repeat_penalty: self.repeat_penalty,
            frequency_penalty: self.frequency_penalty,
            presence_penalty: self.presence_penalty,
            mirostat: self.mirostat,
            mirostat_tau: self.mirostat_tau,
            mirostat_eta: self.mirostat_eta,
            skip_special_token: self.skip_special_token,
            ignore_eos_token: self.ignore_eos_token,
            enabled_cpus: self.enabled_cpus,
            n_batch: self.n_batch,
            embed_flash: self.embed_flash,
            use_cross_attn: self.use_cross_attn,
        }
    }
}

impl Default for Param {
    /// No setting made, for the model at the empty path.
    fn default() -> (r: Param)
        ensures
            r@ == Settings::unset(Seq::empty()),
    {
        Param {
            model_path: CString::default(),
            max_context_len: None,
            max_new_tokens: None,
            n_keep: None,
            top_k: None,
            top_p: None,
            temperature: None,
            repeat_penalty: None,
            frequency_penalty: None,
            presence_penalty: None,
            mirostat: None,
            mirostat_tau: None,
            mirostat_eta: None,
            skip_special_token: None,
            ignore_eos_token: None,
            enabled_cpus: None,
            n_batch: None,
            embed_flash: None,
            use_cross_attn: None,
        }
    }
}

impl Param {
    /// Configuration for the model at `model_path`, with every setting left at
    /// the runtime's default.
    pub fn new(model_path: Vec<u8>) -> (r: Result<Param, Error>)
        ensures
            r is Ok <==> crate::cstring::nul_free(model_path@),
            r matches Ok(param) ==> param@ == Settings::unset(model_path@),
            r matches Err(e) ==> crate::error::refused_nul(e, "model_path", model_path@),
    {
        match CString::new(model_path) {
            Ok(model_path) => Ok(Param { model_path, ..Param::default() }),
            Err(e) => Err(Error::nul("model_path", &e)),
        }
    }

    /// The path this configuration points at.
    pub fn model_path(&self) -> (r: &CString)
        ensures
            r@ == self@.model_path,
    {
        &self.model_path
    }

    /// Maximum number of tokens held in the context window.
    pub fn max_context_len(self, tokens: i32) -> (r: Param)
        ensures
            r@ == (Settings { max_context_len: Some(tokens), ..self@ }),
    {
        Param { max_context_len: Some(tokens), ..self }
    }

    /// Maximum number of tokens generated in one run.
    pub fn max_new_tokens(self, tokens: i32) -> (r: Param)
        ensures
            r@ == (Settings { max_new_tokens: Some(tokens), ..self@ }),
    {
        Param { max_new_tokens: Some(tokens), ..self }
    }

    /// Number of leading key-value cache entries kept when the context shifts.
    pub fn n_keep(self, tokens: i32) -> (r: Param)
        ensures
            r@ == (Settings { n_keep: Some(tokens), ..self@ }),
    {
        Param { n_keep: Some(tokens), ..self }
    }

    /// Top-K sampling cutoff.
    pub fn top_k(self, k: i32) -> (r: Param)
        ensures
            r@ == (Settings { top_k: Some(k), ..self@ }),
    {
        Param { top_k: Some(k), ..self }
    }

    /// Top-P, or nucleus, sampling cutoff.
    pub fn top_p(self, p: F32) -> (r: Param)
        ensures
            r@ == (Settings { top_p: Some(p), ..self@ }),
    {
        Param { top_p: Some(p), ..self }
    }

    /// Sampling temperature.
    pub fn temperature(self, temperature: F32) -> (r: Param)
        ensures
            r@ == (Settings { temperature: Some(temperature), ..self@ }),
    {
        Param { temperature: Some(temperature), ..self }
    }

    /// Penalty applied to tokens that repeat.
    pub fn repeat_penalty(self, penalty: F32) -> (r: Param)
        ensures
            r@ == (Settings { repeat_penalty: Some(penalty), ..self@ }),
    {
        Param { repeat_penalty: Some(penalty), ..self }
    }

    /// Penalty scaled by how often a token has appeared.
    pub fn frequency_penalty(self, penalty: F32) -> (r: Param)
        ensures
            r@ == (Settings { frequency_penalty: Some(penalty), ..self@ }),
    {
        Param { frequency_penalty: Some(penalty), ..self }
    }

    /// Penalty applied to tokens already present at all.
    pub fn presence_penalty(self, penalty: F32) -> (r: Param)
        ensures
            r@ == (Settings { presence_penalty: Some(penalty), ..self@ }),
    {
        Param { presence_penalty: Some(penalty), ..self }
    }

    /// Mirostat strategy, where zero disables it.
    pub fn mirostat(self, strategy: i32) -> (r: Param)
        ensures
            r@ == (Settings { mirostat: Some(strategy), ..self@ }),
    {
        Param { mirostat: Some(strategy), ..self }
    }

    /// Mirostat target entropy.
    pub fn mirostat_tau(self, tau: F32) -> (r: Param)
        ensures
            r@ == (Settings { mirostat_tau: Some(tau), ..self@ }),
    {
        Param { mirostat_tau: Some(tau), ..self }
    }

    /// Mirostat learning rate.
    pub fn mirostat_eta(self, eta: F32) -> (r: Param)
        ensures
            r@ == (Settings { mirostat_eta: Some(eta), ..self@ }),
    {
        Param { mirostat_eta: Some(eta), ..self }
    }

    /// Whether special tokens are left out of the generated text.
    pub fn skip_special_token(self, skip: bool) -> (r: Param)
        ensures
            r@ == (Settings { skip_special_token: Some(skip), ..self@ }),
    {
        Param { skip_special_token: Some(skip), ..self }
    }

    /// Whether the runtime ignores the end-of-sequence token.
    pub fn ignore_eos_token(self, ignore: bool) -> (r: Param)
        ensures
            r@ == (Settings { ignore_eos_token: Some(ignore), ..self@ }),
    {
        Param { ignore_eos_token: Some(ignore), ..self }
    }

    /// Number of CPU cores the runtime may use, with the matching bitmask.
    ///
    /// The mask is built from the `CPU0` through `CPU7` constants.
    pub fn cpus(self, count: i8, mask: u32) -> (r: Param)
        ensures
            r@ == (Settings { enabled_cpus: Some((count, mask)), ..self@ }),
    {
        Param { enabled_cpus: Some((count, mask)), ..self }
    }

    /// How many inputs one forward pass handles. Above one enables batching.
    ///
    /// A batch of zero would run nothing, and is refused.
    pub fn n_batch(self, n_batch: u8) -> (r: Result<Param, Error>)
        ensures
            r == Err::<Param, Error>(Error::ZeroBatch) <==> n_batch == 0,
            n_batch != 0 ==> r is Ok && r->Ok_0@ == (Settings { n_batch: Some(n_batch), ..self@ }),
    {
        if n_batch == 0 {
            return Err(Error::ZeroBatch);
        }
        Ok(Param { n_batch: Some(n_batch), ..self })
    }

    /// Whether word embeddings are read from flash rather than memory.
    pub fn embed_flash(self, from_flash: bool) -> (r: Param)
        ensures
            r@ == (Settings { embed_flash: Some(from_flash), ..self@ }),
    {
        Param { embed_flash: Some(from_flash), ..self }
    }

    /// Whether the decoder runs cross attention.
    pub fn use_cross_attn(self, enabled: bool) -> (r: Param)
        ensures
            r@ == (Settings { use_cross_attn: Some(enabled), ..self@ }),
    {
        Param { use_cross_attn: Some(enabled), ..self }
    }

    /// Lays these settings over the runtime's defaults, and points
    /// `model_path` at this `Param`'s own storage.
    pub fn apply_to<'p>(&'p self, raw: &mut RKLLMParam<'p>)
        ensures
            self@.lays_over(*old(raw), *final(raw)),
    {
        raw.model_path = Some(&self.model_path);

        raw.max_context_len = overlay(self.max_context_len, raw.max_context_len);
        raw.max_new_tokens = overlay(self.max_new_tokens, raw.max_new_tokens);
        raw.n_keep = overlay(self.n_keep, raw.n_keep);
        raw.top_k = overlay(self.top_k, raw.top_k);
        raw.top_p = overlay(self.top_p, raw.top_p);
        raw.temperature = overlay(self.temperature, raw.temperature);
        raw.repeat_penalty = overlay(self.repeat_penalty, raw.repeat_penalty);
        raw.frequency_penalty = overlay(self.frequency_penalty, raw.frequency_penalty);
        raw.presence_penalty = overlay(self.presence_penalty, raw.presence_penalty);
        raw.mirostat = overlay(self.mirostat, raw.mirostat);
        raw.mirostat_tau = overlay(self.mirostat_tau, raw.mirostat_tau);
        raw.mirostat_eta = overlay(self.mirostat_eta, raw.mirostat_eta);
        raw.skip_special_token = overlay(self.skip_special_token, raw.skip_special_token);
        raw.ignore_eos_token = overlay(self.ignore_eos_token, raw.ignore_eos_token);
        if let Some((count, mask)) = self.enabled_cpus {
            raw.extend_param.enabled_cpus_num = count;
            raw.extend_param.enabled_cpus_mask = mask;
        }
        raw.extend_param.n_batch = overlay(self.n_batch, raw.extend_param.n_batch);
        raw.extend_param.embed_flash = overlay_flag(
            self.embed_flash,
            raw.extend_param.embed_flash,
        );
        raw.extend_param.use_cross_attn = overlay_flag(
            self.use_cross_attn,
            raw.extend_param.use_cross_attn,
        );
    }
}

/// Settings that were never made leave the runtime's defaults as they are, all
/// but the path of the model.
pub proof fn unset_settings_keep_the_defaults(
    model_path: Seq<u8>,
    defaults: RKLLMParam<'_>,
    raw: RKLLMParam<'_>,
)
    requires
        Settings::unset(model_path).lays_over(defaults, raw),
    ensures
        raw == (RKLLMParam { model_path: raw.model_path, ..defaults }),
{
}

/// Laying the same settings over once more changes nothing.
pub proof fn laying_over_twice_changes_nothing(
    settings: Settings,
    defaults: RKLLMParam<'_>,
    once: RKLLMParam<'_>,
    twice: RKLLMParam<'_>,
)
    requires
        settings.lays_over(defaults, once),
        settings.lays_over(once, twice),
    ensures
        twice == (RKLLMParam { model_path: twice.model_path, ..once }),
        twice.model_path->0@ == once.model_path->0@,
{
}

/// What a setting is laid over makes no difference to it: whatever the defaults,
/// a batch size that was set is the one the runtime is told.
pub proof fn a_batch_size_that_was_set_arrives(
    settings: Settings,
    n_batch: u8,
    defaults: RKLLMParam<'_>,
    raw: RKLLMParam<'_>,
)
    requires
        settings.n_batch == Some(n_batch),
        settings.lays_over(defaults, raw),
    ensures
        raw.extend_param.n_batch == n_batch,
{
}

/// A setting that was made arrives in the field of its own name, whatever the
/// defaults and the other settings are. The model is the one that was named.
pub proof fn what_was_set_arrives(
    settings: Settings,
    defaults: RKLLMParam<'_>,
    raw: RKLLMParam<'_>,
)
    requires
        settings.lays_over(defaults, raw),
    ensures
        raw.model_path is Some,
        raw.model_path->0@ == settings.model_path,
        settings.max_context_len matches Some(value) ==> raw.max_context_len == value,
        settings.max_new_tokens matches Some(value) ==> raw.max_new_tokens == value,
        settings.n_keep matches Some(value) ==> raw.n_keep == value,
        settings.top_k matches Some(value) ==> raw.top_k == value,
        settings.top_p matches Some(value) ==> raw.top_p == value,
        settings.temperature matches Some(value) ==> raw.temperature == value,
        settings.repeat_penalty matches Some(value) ==> raw.repeat_penalty == value,
        settings.frequency_penalty matches Some(value) ==> raw.frequency_penalty == value,
        settings.presence_penalty matches Some(value) ==> raw.presence_penalty == value,
        settings.mirostat matches Some(value) ==> raw.mirostat == value,
        settings.mirostat_tau matches Some(value) ==> raw.mirostat_tau == value,
        settings.mirostat_eta matches Some(value) ==> raw.mirostat_eta == value,
        settings.skip_special_token matches Some(value) ==> raw.skip_special_token == value,
        settings.ignore_eos_token matches Some(value) ==> raw.ignore_eos_token == value,
        settings.enabled_cpus matches Some((count, mask)) ==> raw.extend_param.enabled_cpus_num
            == count && raw.extend_param.enabled_cpus_mask == mask,
        settings.n_batch matches Some(value) ==> raw.extend_param.n_batch == value,
        settings.embed_flash matches Some(value) ==> raw.extend_param.embed_flash == (if value {
            1
        } else {
            0int
        }),
        settings.use_cross_attn matches Some(value) ==> raw.extend_param.use_cross_attn == (if value {
            1
        } else {
            0int
        }),
{
}

/// A setting that was not made leaves the field of its own name at the runtime's
/// default, whatever the other settings are.
pub proof fn what_was_not_set_stays(
    settings: Settings,
    defaults: RKLLMParam<'_>,
    raw: RKLLMParam<'_>,
)
    requires
        settings.lays_over(defaults, raw),
    ensures
        settings.max_context_len is None ==> raw.max_context_len == defaults.max_context_len,
        settings.max_new_tokens is None ==> raw.max_new_tokens == defaults.max_new_tokens,
        settings.n_keep is None ==> raw.n_keep == defaults.n_keep,
        settings.top_k is None ==> raw.top_k == defaults.top_k,
        settings.top_p is None ==> raw.top_p == defaults.top_p,
        settings.temperature is None ==> raw.temperature == defaults.temperature,
        settings.repeat_penalty is None ==> raw.repeat_penalty == defaults.repeat_penalty,
        settings.frequency_penalty is None ==> raw.frequency_penalty == defaults.frequency_penalty,
        settings.presence_penalty is None ==> raw.presence_penalty == defaults.presence_penalty,
        settings.mirostat is None ==> raw.mirostat == defaults.mirostat,
        settings.mirostat_tau is None ==> raw.mirostat_tau == defaults.mirostat_tau,
        settings.mirostat_eta is None ==> raw.mirostat_eta == defaults.mirostat_eta,
        settings.skip_special_token is None ==> raw.skip_special_token == defaults.skip_special_token,
        settings.ignore_eos_token is None ==> raw.ignore_eos_token == defaults.ignore_eos_token,
        settings.enabled_cpus is None ==> raw.extend_param.enabled_cpus_num
            == defaults.extend_param.enabled_cpus_num && raw.extend_param.enabled_cpus_mask
            == defaults.extend_param.enabled_cpus_mask,
        settings.n_batch is None ==> raw.extend_param.n_batch
            == defaults.extend_param.n_batch,
        settings.embed_flash is None ==> raw.extend_param.embed_flash
            == defaults.extend_param.embed_flash,
        settings.use_cross_attn is None ==> raw.extend_param.use_cross_attn
            == defaults.extend_param.use_cross_attn,
{
}

/// Each setting is kept under its own name as it was made, and leaves the others
/// as they were.
pub proof fn a_setting_changes_only_itself(param: Param)
    ensures
        forall|value: i32, r: Param|
            #[trigger] call_ensures(Param::max_context_len, (param, value), r) ==> r@ == (Settings {
                max_context_len: Some(value),
                ..param@
            }),
        forall|value: i32, r: Param|
            #[trigger] call_ensures(Param::max_new_tokens, (param, value), r) ==> r@ == (Settings {
                max_new_tokens: Some(value),
                ..param@
            }),
        forall|value: i32, r: Param|
            #[trigger] call_ensures(Param::n_keep, (param, value), r) ==> r@ == (Settings {
                n_keep: Some(value),
                ..param@
            }),
        forall|value: i32, r: Param|
            #[trigger] call_ensures(Param::top_k, (param, value), r) ==> r@ == (Settings {
                top_k: Some(value),
                ..param@
            }),
        forall|value: F32, r: Param|
            #[trigger] call_ensures(Param::top_p, (param, value), r) ==> r@ == (Settings {
                top_p: Some(value),
                ..param@
            }),
        forall|value: F32, r: Param|
            #[trigger] call_ensures(Param::temperature, (param, value), r) ==> r@ == (Settings {
                temperature: Some(value),
                ..param@
            }),
        forall|value: F32, r: Param|
            #[trigger] call_ensures(Param::repeat_penalty, (param, value), r) ==> r@ == (Settings {
                repeat_penalty: Some(value),
                ..param@
            }),
        forall|value: F32, r: Param|
            #[trigger] call_ensures(Param::frequency_penalty, (param, value), r) ==> r@ == (Settings {
                frequency_penalty: Some(value),
                ..param@
            }),
        forall|value: F32, r: Param|
            #[trigger] call_ensures(Param::presence_penalty, (param, value), r) ==> r@ == (Settings {
                presence_penalty: Some(value),
                ..param@
            }),
        forall|value: i32, r: Param|
            #[trigger] call_ensures(Param::mirostat, (param, value), r) ==> r@ == (Settings {
                mirostat: Some(value),
                ..param@
            }),
        forall|value: F32, r: Param|
            #[trigger] call_ensures(Param::mirostat_tau, (param, value), r) ==> r@ == (Settings {
                mirostat_tau: Some(value),
                ..param@
            }),
        forall|value: F32, r: Param|
            #[trigger] call_ensures(Param::mirostat_eta, (param, value), r) ==> r@ == (Settings {
                mirostat_eta: Some(value),
                ..param@
            }),
        forall|value: bool, r: Param|
            #[trigger] call_ensures(Param::skip_special_token, (param, value), r) ==> r@ == (Settings {
                skip_special_token: Some(value),
                ..param@
            }),
        forall|value: bool, r: Param|
            #[trigger] call_ensures(Param::ignore_eos_token, (param, value), r) ==> r@ == (Settings {
                ignore_eos_token: Some(value),
                ..param@
            }),
        forall|value: bool, r: Param|
            #[trigger] call_ensures(Param::embed_flash, (param, value), r) ==> r@ == (Settings {
                embed_flash: Some(value),
                ..param@
            }),
        forall|value: bool, r: Param|
            #[trigger] call_ensures(Param::use_cross_attn, (param, value), r) ==> r@ == (Settings {
                use_cross_attn: Some(value),
                ..param@
            }),
        forall|count: i8, mask: u32, r: Param|
            #[trigger] call_ensures(Param::cpus, (param, count, mask), r) ==> r@ == (Settings {
                enabled_cpus: Some((count, mask)),
                ..param@
            }),
        forall|value: u8, r: Result<Param, Error>|
            #[trigger] call_ensures(Param::n_batch, (param, value), r) ==> {
                &&& r is Ok <==> value > 0
                &&& r is Ok ==> r->Ok_0@ == (Settings { n_batch: Some(value), ..param@ })
                &&& r is Err ==> r->Err_0 is ZeroBatch
            },
{
}

/// A configuration starts with the path it was given, and with nothing set.
pub proof fn a_new_configuration_sets_nothing(model_path: Vec<u8>, r: Result<Param, Error>)
    requires
        call_ensures(Param::new, (model_path,), r),
    ensures
        r is Ok <==> forall|i: int| 0 <= i < model_path@.len() ==> model_path@[i] != 0,
        r matches Ok(param) ==> {
            &&& param@.model_path == model_path@
            &&& param@.max_context_len is None
            &&& param@.max_new_tokens is None
            &&& param@.n_keep is None
            &&& param@.top_k is None
            &&& param@.top_p is None
            &&& param@.temperature is None
            &&& param@.repeat_penalty is None
            &&& param@.frequency_penalty is None
            &&& param@.presence_penalty is None
            &&& param@.mirostat is None
            &&& param@.mirostat_tau is None
            &&& param@.mirostat_eta is None
            &&& param@.skip_special_token is None
            &&& param@.ignore_eos_token is None
            &&& param@.enabled_cpus is None
            &&& param@.n_batch is None
            &&& param@.embed_flash is None
            &&& param@.use_cross_attn is None
        },
{
}

} // verus!
