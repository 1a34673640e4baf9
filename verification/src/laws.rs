//! What the library promises of its functions together.
//!
//! Each law speaks of calls: what a function returned for its arguments, and what
//! the bindings were called with on the way.
use std::sync::Arc;

use vstd::prelude::*;
use vstd::string::StringSliceAdditionalSpecFns;

use crate::api::RkllmApi;
use crate::bindings::{
    LLMHandle, RKLLMCallback, RKLLMInferParam, RKLLMInput, RKLLMLoraAdapter, RKLLMParam,
};
use crate::builder::SessionBuilder;
use crate::callback::{CallbackState, PerBatch, PerOutput, Reply};
use crate::closure::Shows;
use crate::cstring::CString;
use crate::error::Error;
use crate::float::F32;
use crate::hooks::{EmbeddingHook, Hooks, TokenizerHook};
use crate::infer::InferParams;
use crate::input::Input;
use crate::output::{CallState, Control, Output};
use crate::param::Param;
use crate::session::RkllmSession;

verus! {

/// A model is loaded with what its configuration says: the runtime is handed the
/// path, each setting that was made in the field of its own name, and its own
/// defaults in the others.
pub proof fn a_model_is_loaded_as_configured<A: RkllmApi>(
    api: A,
    param: &Param,
    hooks: Hooks,
    r: Result<RkllmSession<A>, Error>,
)
    requires
        call_ensures(RkllmSession::<A>::with_api_and_hooks, (api, param, hooks), r),
    ensures
        exists|
            defaults: RKLLMParam<'_>,
            handle: &mut LLMHandle,
            raw: &mut RKLLMParam<'_>,
            callback: &RKLLMCallback,
            code: i32,
        |
            {
                &&& #[trigger] call_ensures(A::rkllm_createDefaultParam, (&api,), defaults)
                &&& #[trigger] call_ensures(A::rkllm_init, (&api, handle, raw, callback), code)
                &&& raw.model_path is Some
                &&& raw.model_path->0@ == param@.model_path
                &&& match param@.max_context_len {
                    Some(value) => raw.max_context_len == value,
                    None => raw.max_context_len == defaults.max_context_len,
                }
                &&& match param@.max_new_tokens {
                    Some(value) => raw.max_new_tokens == value,
                    None => raw.max_new_tokens == defaults.max_new_tokens,
                }
                &&& match param@.n_keep {
                    Some(value) => raw.n_keep == value,
                    None => raw.n_keep == defaults.n_keep,
                }
                &&& match param@.top_k {
                    Some(value) => raw.top_k == value,
                    None => raw.top_k == defaults.top_k,
                }
                &&& match param@.top_p {
                    Some(value) => raw.top_p == value,
                    None => raw.top_p == defaults.top_p,
                }
                &&& match param@.temperature {
                    Some(value) => raw.temperature == value,
                    None => raw.temperature == defaults.temperature,
                }
                &&& match param@.repeat_penalty {
                    Some(value) => raw.repeat_penalty == value,
                    None => raw.repeat_penalty == defaults.repeat_penalty,
                }
                &&& match param@.frequency_penalty {
                    Some(value) => raw.frequency_penalty == value,
                    None => raw.frequency_penalty == defaults.frequency_penalty,
                }
                &&& match param@.presence_penalty {
                    Some(value) => raw.presence_penalty == value,
                    None => raw.presence_penalty == defaults.presence_penalty,
                }
                &&& match param@.mirostat {
                    Some(value) => raw.mirostat == value,
                    None => raw.mirostat == defaults.mirostat,
                }
                &&& match param@.mirostat_tau {
                    Some(value) => raw.mirostat_tau == value,
                    None => raw.mirostat_tau == defaults.mirostat_tau,
                }
                &&& match param@.mirostat_eta {
                    Some(value) => raw.mirostat_eta == value,
                    None => raw.mirostat_eta == defaults.mirostat_eta,
                }
                &&& match param@.skip_special_token {
                    Some(value) => raw.skip_special_token == value,
                    None => raw.skip_special_token == defaults.skip_special_token,
                }
                &&& match param@.ignore_eos_token {
                    Some(value) => raw.ignore_eos_token == value,
                    None => raw.ignore_eos_token == defaults.ignore_eos_token,
                }
                &&& match param@.enabled_cpus {
                    Some((count, mask)) => raw.extend_param.enabled_cpus_num == count
                        && raw.extend_param.enabled_cpus_mask == mask,
                    None => raw.extend_param.enabled_cpus_num
                        == defaults.extend_param.enabled_cpus_num
                        && raw.extend_param.enabled_cpus_mask
                        == defaults.extend_param.enabled_cpus_mask,
                }
                &&& match param@.n_batch {
                    Some(value) => raw.extend_param.n_batch == value,
                    None => raw.extend_param.n_batch == defaults.extend_param.n_batch,
                }
                &&& match param@.embed_flash {
                    Some(value) => raw.extend_param.embed_flash == (if value {
                        1int
                    } else {
                        0
                    }),
                    None => raw.extend_param.embed_flash == defaults.extend_param.embed_flash,
                }
                &&& match param@.use_cross_attn {
                    Some(value) => raw.extend_param.use_cross_attn == (if value {
                        1int
                    } else {
                        0
                    }),
                    None => raw.extend_param.use_cross_attn == defaults.extend_param.use_cross_attn,
                }
            },
{
}

/// The runtime is handed just the callbacks that were supplied: a tokenizer leads to
/// that tokenizer, an embedding layer to that embedding layer, and neither is
/// registered where nothing was supplied.
pub proof fn supplied_hooks_are_registered<A: RkllmApi>(
    api: A,
    param: &Param,
    hooks: Hooks,
    r: Result<RkllmSession<A>, Error>,
)
    requires
        call_ensures(RkllmSession::<A>::with_api_and_hooks, (api, param, hooks), r),
    ensures
        exists|
            handle: &mut LLMHandle,
            raw: &mut RKLLMParam<'_>,
            callback: &RKLLMCallback,
            code: i32,
        |
            {
                &&& #[trigger] call_ensures(A::rkllm_init, (&api, handle, raw, callback), code)
                &&& callback.tokenizer_userdata is Some <==> hooks.tokenizer is Some
                &&& hooks.tokenizer is Some ==> callback.tokenizer_userdata->0.tokenizer
                    == hooks.tokenizer
                &&& callback.embed_userdata is Some <==> hooks.embedding is Some
                &&& hooks.embedding is Some ==> callback.embed_userdata->0.embedding
                    == hooks.embedding
            },
        r matches Ok(session) ==> session.supplied().tokenizer == hooks.tokenizer
            && session.supplied().embedding == hooks.embedding,
{
}

/// A session is opened exactly when the runtime reports success and names a model.
/// It is a session on that model, and runs as many inputs as the runtime was left
/// with, or one where that is none. Otherwise the failure is the runtime's.
pub proof fn a_session_is_opened_on_the_model<A: RkllmApi>(
    api: A,
    param: &Param,
    hooks: Hooks,
    r: Result<RkllmSession<A>, Error>,
)
    requires
        call_ensures(RkllmSession::<A>::with_api_and_hooks, (api, param, hooks), r),
    ensures
        exists|
            handle: &mut LLMHandle,
            raw: &mut RKLLMParam<'_>,
            callback: &RKLLMCallback,
            code: i32,
        |
            {
                &&& #[trigger] call_ensures(A::rkllm_init, (&api, handle, raw, callback), code)
                &&& handle.address == 0
                &&& r is Ok <==> code == 0 && final(handle).address != 0
                &&& code != 0 ==> r->Err_0 == (Error::Status { call: "rkllm_init", code })
                &&& code == 0 && r is Err ==> r->Err_0 is NullHandle
                &&& r is Ok ==> {
                    &&& r->Ok_0.bindings() == api
                    &&& r->Ok_0.model() == *final(handle)
                    &&& r->Ok_0.batch_size() >= 1
                    &&& final(raw).extend_param.n_batch >= 1 ==> r->Ok_0.batch_size()
                        == final(raw).extend_param.n_batch
                    &&& final(raw).extend_param.n_batch == 0 ==> r->Ok_0.batch_size() == 1
                }
            },
{
}

/// A tokenizer supplied to a builder is what the runtime is handed when the session
/// is built.
pub proof fn a_builders_tokenizer_is_registered<'a, A: RkllmApi>(
    given: (SessionBuilder<'a>, Arc<dyn TokenizerHook>),
    supplied: SessionBuilder<'a>,
    api: A,
    r: Result<RkllmSession<A>, Error>,
)
    requires
        call_ensures(SessionBuilder::tokenizer, given, supplied),
        call_ensures(SessionBuilder::with_api::<A>, (supplied, api), r),
    ensures
        exists|
            handle: &mut LLMHandle,
            raw: &mut RKLLMParam<'_>,
            callback: &RKLLMCallback,
            code: i32,
        |
            {
                &&& #[trigger] call_ensures(A::rkllm_init, (&api, handle, raw, callback), code)
                &&& callback.tokenizer_userdata is Some
                &&& callback.tokenizer_userdata->0.tokenizer is Some
                &&& callback.tokenizer_userdata->0.tokenizer->0 == given.1
                &&& callback.embed_userdata is Some <==> given.0.supplied().embedding is Some
                &&& callback.embed_userdata is Some ==> callback.embed_userdata->0.embedding
                    == given.0.supplied().embedding
            },
{
    supplied_hooks_are_registered(api, supplied.configuration(), supplied.supplied(), r);
}

/// An embedding layer supplied to a builder is what the runtime is handed when the
/// session is built.
pub proof fn a_builders_embedding_is_registered<'a, A: RkllmApi>(
    given: (SessionBuilder<'a>, Arc<dyn EmbeddingHook>),
    supplied: SessionBuilder<'a>,
    api: A,
    r: Result<RkllmSession<A>, Error>,
)
    requires
        call_ensures(SessionBuilder::embedding, given, supplied),
        call_ensures(SessionBuilder::with_api::<A>, (supplied, api), r),
    ensures
        exists|
            handle: &mut LLMHandle,
            raw: &mut RKLLMParam<'_>,
            callback: &RKLLMCallback,
            code: i32,
        |
            {
                &&& #[trigger] call_ensures(A::rkllm_init, (&api, handle, raw, callback), code)
                &&& callback.embed_userdata is Some
                &&& callback.embed_userdata->0.embedding is Some
                &&& callback.embed_userdata->0.embedding->0 == given.1
                &&& callback.tokenizer_userdata is Some <==> given.0.supplied().tokenizer is Some
                &&& callback.tokenizer_userdata is Some
                    ==> callback.tokenizer_userdata->0.tokenizer == given.0.supplied().tokenizer
            },
{
    supplied_hooks_are_registered(api, supplied.configuration(), supplied.supplied(), r);
}

/// A builder that was supplied nothing registers nothing, and neither does a session
/// opened without one.
pub proof fn nothing_supplied_registers_nothing<'a, A: RkllmApi>(
    param: &'a Param,
    builder: SessionBuilder<'a>,
    api: A,
    r: Result<RkllmSession<A>, Error>,
)
    requires
        call_ensures(SessionBuilder::new, (param,), builder),
        call_ensures(SessionBuilder::with_api::<A>, (builder, api), r) || call_ensures(
            RkllmSession::<A>::new,
            (api, param),
            r,
        ),
    ensures
        exists|
            handle: &mut LLMHandle,
            raw: &mut RKLLMParam<'_>,
            callback: &RKLLMCallback,
            code: i32,
        |
            {
                &&& #[trigger] call_ensures(A::rkllm_init, (&api, handle, raw, callback), code)
                &&& callback.tokenizer_userdata is None
                &&& callback.embed_userdata is None
                &&& raw.model_path->0@ == param@.model_path
            },
{
    if call_ensures(RkllmSession::<A>::new, (api, param), r) {
        assert(call_ensures(RkllmSession::<A>::with_api, (api, param), r));
        let none = choose|none: Hooks|
            none.tokenizer is None && none.embedding is None && #[trigger] call_ensures(
                RkllmSession::<A>::with_api_and_hooks,
                (api, param, none),
                r,
            );
        a_model_is_loaded_as_configured(api, param, none, r);
    } else {
        a_model_is_loaded_as_configured(api, builder.configuration(), builder.supplied(), r);
    }
}

/// A run of one input calls the closure once for each report of the runtime's, in
/// order, with what was reported, and tells the runtime what that one call decided.
/// The run ends as the runtime says.
pub proof fn every_chunk_reaches_the_closure_once<
    A: RkllmApi,
    F: FnMut(Output<'_>) -> Control,
>(session: &RkllmSession<A>, input: Input, params: &InferParams, f: F, r: Result<(), Error>)
    requires
        session.batch_size() == 1,
        exists|given: &mut Input|
            *given == input && #[trigger] call_ensures(
                RkllmSession::<A>::run_llm::<F>,
                (session, given, params, f),
                r,
            ),
    ensures
        exists|
            raw_inputs: &[RKLLMInput<'_>],
            raw_params: &RKLLMInferParam<'_>,
            calls: Seq<crate::callback::Report>,
            heard: Seq<crate::closure::Heard>,
            code: i32,
        |
            #![trigger
                session.bindings().may_run(
                    session.model(),
                    raw_inputs@,
                    *raw_params,
                    calls,
                    code,
                ),
                heard.len()
            ]
            {
                &&& session.bindings().may_run(
                    session.model(),
                    raw_inputs@,
                    *raw_params,
                    calls,
                    code,
                )
                &&& raw_inputs@.len() == 1
                &&& input@.passed_as(raw_inputs@[0])
                &&& params@.passed_as(*raw_params)
                &&& heard.len() == calls.len()
                &&& r is Ok <==> code == 0
                &&& r is Err ==> r->Err_0 == (Error::Status { call: "rkllm_run", code })
                &&& forall|i: int|
                    #![trigger heard[i]]
                    0 <= i < heard.len() ==> {
                        &&& heard[i].shown.len() == 1
                        &&& heard[i].shown[0].state == CallState::meaning(calls[i].state)
                        &&& heard[i].shown[0].entry == (match calls[i].results {
                            Some(results) => if results.len() > 0 {
                                Some(results[0])
                            } else {
                                None
                            },
                            None => None,
                        })
                        &&& exists|output: Output<'_>|
                            {
                                &&& output.call_state() == heard[i].shown[0].state
                                &&& output.entry() == heard[i].shown[0].entry
                                &&& #[trigger] call_ensures(
                                    f,
                                    (output,),
                                    heard[i].decision->0,
                                )
                            }
                        &&& heard[i].decision is Some
&&& calls[i].code == 0 <==> heard[i].decision == Some(Control::Continue)
                        &&& calls[i].code == 2 <==> heard[i].decision == Some(
                            Control::ReleaseBuffer,
                        )
                        &&& heard[i].decision == Some(Control::Pause) ==> calls[i].code == 1
                    }
            },
{
    let given = choose|given: &mut Input|
        *given == input && #[trigger] call_ensures(
            RkllmSession::<A>::run_llm::<F>,
            (session, given, params, f),
            r,
        );
    let (raw_inputs, raw_params, state, code) = choose|
        raw_inputs: &[RKLLMInput<'_>],
        raw_params: &RKLLMInferParam<'_>,
        state: &mut CallbackState<PerOutput<F>>,
        code: i32,
    |
        {
            &&& session.hands_over(
                seq![input@],
                params@,
                PerOutput { closure: f },
                raw_inputs@,
                *raw_params,
                *state,
            )
            &&& #[trigger] call_ensures(
                A::rkllm_run::<CallbackState<PerOutput<F>>>,
                (&session.bindings(), session.model(), raw_inputs, raw_params, state),
                code,
            )
            &&& final(state).is_outcome(PerOutput { closure: f }, session.batch_size())
            &&& session.bindings().may_run(
                session.model(),
                raw_inputs@,
                *raw_params,
                final(state).calls(),
                code,
            )
            &&& r == crate::error::checked("rkllm_run", code)
        };
    let done = *final(state);
    assert(!done.has_panicked()) by {
        if done.has_panicked() {
            crate::callback::the_first_output_is_shown(done, done.heard().len() - 1);
        }
    }
    assert forall|i: int|
        #![trigger done.heard()[i]]
        0 <= i < done.heard().len() implies {
                                &&& done.heard()[i].shown.len() == 1
                                &&& done.heard()[i].shown[0].state == CallState::meaning(done.calls()[i].state)
                                &&& done.heard()[i].shown[0].entry == (match done.calls()[i].results {
                                    Some(results) => if results.len() > 0 {
                                        Some(results[0])
                                    } else {
                                        None
                                    },
                                    None => None,
                                })
                                &&& exists|output: Output<'_>|
                                    {
                                        &&& output.call_state() == done.heard()[i].shown[0].state
                                        &&& output.entry() == done.heard()[i].shown[0].entry
                                        &&& #[trigger] call_ensures(
                                            f,
                                            (output,),
                                            done.heard()[i].decision->0,
                                        )
                                    }
                                &&& done.heard()[i].decision is Some
        &&& done.calls()[i].code == 0 <==> done.heard()[i].decision == Some(
            Control::Continue,
        )
                                &&& done.calls()[i].code == 2 <==> done.heard()[i].decision == Some(
                                    Control::ReleaseBuffer,
                                )
                                &&& done.heard()[i].decision == Some(Control::Pause) ==> done.calls()[i].code == 1
    } by {
        crate::callback::the_first_output_is_shown(done, i);
        assert(done.calls()[i].code == crate::callback::governing(
            done.heard()[i].decision,
        ).code());
        let (output, reply) = choose|output: Output<'_>, reply: Control|
            {
                &&& output.call_state() == done.heard()[i].shown[0].state
                &&& output.entry() == done.heard()[i].shown[0].entry
                &&& #[trigger] call_ensures(done.started_with().closure, (output,), reply)
                &&& reply.decision() == done.heard()[i].decision
            };
        assert(call_ensures(f, (output,), reply));
    }
    assert(done.heard().len() == done.deliveries());
}

/// A run of a batch calls the closure once for each report of the runtime's, in
/// order, with an output for each entry, and tells the runtime what that one call
/// decided. The run ends as the runtime says.
pub proof fn every_batch_reaches_the_closure_once<
    A: RkllmApi,
    F: FnMut(&[Output<'_>]) -> Control,
>(session: &RkllmSession<A>, inputs: Seq<Input>, params: &InferParams, f: F, r: Result<(), Error>)
    requires
        inputs.len() == session.batch_size(),
        exists|given: &mut [Input]|
            given@ == inputs && #[trigger] call_ensures(
                RkllmSession::<A>::run_llm_batch::<F>,
                (session, given, params, f),
                r,
            ),
    ensures
        exists|
            raw_inputs: &[RKLLMInput<'_>],
            raw_params: &RKLLMInferParam<'_>,
            calls: Seq<crate::callback::Report>,
            heard: Seq<crate::closure::Heard>,
            code: i32,
        |
            #![trigger
                session.bindings().may_run(
                    session.model(),
                    raw_inputs@,
                    *raw_params,
                    calls,
                    code,
                ),
                heard.len()
            ]
            {
                &&& session.bindings().may_run(
                    session.model(),
                    raw_inputs@,
                    *raw_params,
                    calls,
                    code,
                )
                &&& raw_inputs@.len() == inputs.len()
                &&& forall|i: int|
                    0 <= i < inputs.len() ==> inputs[i]@.passed_as(#[trigger] raw_inputs@[i])
                &&& params@.passed_as(*raw_params)
                &&& heard.len() == calls.len()
                &&& r is Ok <==> code == 0
                &&& r is Err ==> r->Err_0 == (Error::Status { call: "rkllm_run", code })
                &&& forall|i: int|
                    #![trigger heard[i]]
                    0 <= i < heard.len() ==> {
                        &&& calls[i].results is None || calls[i].results->0.len() == 0
                            ==> heard[i].shown.len() == 1 && heard[i].shown[0].entry is None
                        &&& calls[i].results matches Some(results) ==> results.len() > 0 ==> {
                            &&& heard[i].shown.len() == vstd::math::min(
                                results.len() as int,
                                if calls[i].state is RKLLM_RUN_FINISH
                                    || calls[i].state is RKLLM_RUN_ERROR {
                                    1
                                } else {
                                    session.batch_size() as int
                                },
                            )
                            &&& forall|j: int|
                                0 <= j < heard[i].shown.len() ==> (
                                #[trigger] heard[i].shown[j]).entry == Some(results[j])
                        }
                        &&& exists|outputs: &[Output<'_>]|
                            {
                                &&& outputs.shows() == heard[i].shown
                                &&& #[trigger] call_ensures(
                                    f,
                                    (outputs,),
                                    heard[i].decision->0,
                                )
                            }
                        &&& heard[i].decision is Some
&&& calls[i].code == 0 <==> heard[i].decision == Some(Control::Continue)
                        &&& calls[i].code == 2 <==> heard[i].decision == Some(
                            Control::ReleaseBuffer,
                        )
                        &&& heard[i].decision == Some(Control::Pause) ==> calls[i].code == 1
                    }
            },
{
    let given = choose|given: &mut [Input]|
        given@ == inputs && #[trigger] call_ensures(
            RkllmSession::<A>::run_llm_batch::<F>,
            (session, given, params, f),
            r,
        );
    let (raw_inputs, raw_params, state, code) = choose|
        raw_inputs: &[RKLLMInput<'_>],
        raw_params: &RKLLMInferParam<'_>,
        state: &mut CallbackState<PerBatch<F>>,
        code: i32,
    |
        {
            &&& session.hands_over(
                crate::session::messages(inputs),
                params@,
                PerBatch { closure: f },
                raw_inputs@,
                *raw_params,
                *state,
            )
            &&& #[trigger] call_ensures(
                A::rkllm_run::<CallbackState<PerBatch<F>>>,
                (&session.bindings(), session.model(), raw_inputs, raw_params, state),
                code,
            )
            &&& final(state).is_outcome(PerBatch { closure: f }, session.batch_size())
            &&& session.bindings().may_run(
                session.model(),
                raw_inputs@,
                *raw_params,
                final(state).calls(),
                code,
            )
            &&& r == crate::error::checked("rkllm_run", code)
        };
    let done = *final(state);
    assert(!done.has_panicked()) by {
        if done.has_panicked() {
            crate::callback::every_entry_is_shown(done, done.heard().len() - 1);
        }
    }
    assert forall|i: int|
        #![trigger done.heard()[i]]
        0 <= i < done.heard().len() implies {
                                &&& done.calls()[i].results is None || done.calls()[i].results->0.len() == 0
                                    ==> done.heard()[i].shown.len() == 1 && done.heard()[i].shown[0].entry is None
                                &&& done.calls()[i].results matches Some(results) ==> results.len() > 0 ==> {
                                    &&& done.heard()[i].shown.len() == vstd::math::min(
                                        results.len() as int,
                                        if done.calls()[i].state is RKLLM_RUN_FINISH
                                            || done.calls()[i].state is RKLLM_RUN_ERROR {
                                            1
                                        } else {
                                            session.batch_size() as int
                                        },
                                    )
                                    &&& forall|j: int|
                                        0 <= j < done.heard()[i].shown.len() ==> (
                                        #[trigger] done.heard()[i].shown[j]).entry == Some(results[j])
                                }
                                &&& exists|outputs: &[Output<'_>]|
                                    {
                                        &&& outputs.shows() == done.heard()[i].shown
                                        &&& #[trigger] call_ensures(
                                            f,
                                            (outputs,),
                                            done.heard()[i].decision->0,
                                        )
                                    }
                                &&& done.heard()[i].decision is Some
        &&& done.calls()[i].code == 0 <==> done.heard()[i].decision == Some(
            Control::Continue,
        )
                                &&& done.calls()[i].code == 2 <==> done.heard()[i].decision == Some(
                                    Control::ReleaseBuffer,
                                )
                                &&& done.heard()[i].decision == Some(Control::Pause) ==> done.calls()[i].code == 1
    } by {
        crate::callback::every_entry_is_shown(done, i);
        assert(done.calls()[i].code == crate::callback::governing(
            done.heard()[i].decision,
        ).code());
        let (outputs, reply) = choose|outputs: &[Output<'_>], reply: Control|
            {
                &&& outputs.shows() == done.heard()[i].shown
                &&& #[trigger] call_ensures(done.started_with().closure, (outputs,), reply)
                &&& reply.decision() == done.heard()[i].decision
            };
        assert(call_ensures(f, (outputs,), reply));
    }
    assert(done.heard().len() == done.deliveries());
}

/// A guarded run of one input calls the closure once for each report, up to the one
/// at which it panics. From there on the runtime is told to stop, and the panic is
/// what the run comes to.
pub proof fn a_guarded_closure_is_called_until_it_panics<
    A: RkllmApi,
    F: FnMut(Output<'_>) -> Option<Control>,
>(session: &RkllmSession<A>, input: Input, params: &InferParams, f: F, r: Option<Result<(), Error>>)
    requires
        session.batch_size() == 1,
        exists|given: &mut Input|
            *given == input && #[trigger] call_ensures(
                RkllmSession::<A>::run_llm_guarded::<F>,
                (session, given, params, f),
                r,
            ),
    ensures
        exists|
            raw_inputs: &[RKLLMInput<'_>],
            raw_params: &RKLLMInferParam<'_>,
            calls: Seq<crate::callback::Report>,
            heard: Seq<crate::closure::Heard>,
            code: i32,
        |
            #![trigger
                session.bindings().may_run(
                    session.model(),
                    raw_inputs@,
                    *raw_params,
                    calls,
                    code,
                ),
                heard.len()
            ]
            {
                &&& session.bindings().may_run(
                    session.model(),
                    raw_inputs@,
                    *raw_params,
                    calls,
                    code,
                )
                &&& raw_inputs@.len() == 1
                &&& input@.passed_as(raw_inputs@[0])
                &&& params@.passed_as(*raw_params)
                &&& r is None <==> heard.len() > 0 && heard.last().decision is None
                &&& r is Some ==> heard.len() == calls.len()
                &&& r is Some ==> (r->0 is Ok <==> code == 0)
                &&& r is Some && r->0 is Err ==> r->0->Err_0 == (Error::Status {
                    call: "rkllm_run",
                    code,
                })
                &&& heard.len() <= calls.len()
                &&& forall|i: int|
                    heard.len() <= i < calls.len() ==> (#[trigger] calls[i]).code == 1
                &&& forall|i: int|
                    0 <= i < heard.len() - 1 ==> (#[trigger] heard[i]).decision is Some
                &&& forall|i: int|
                    #![trigger heard[i]]
                    0 <= i < heard.len() ==> {
                        &&& heard[i].shown.len() == 1
                        &&& heard[i].shown[0].state == CallState::meaning(calls[i].state)
                        &&& heard[i].shown[0].entry == (match calls[i].results {
                            Some(results) => if results.len() > 0 {
                                Some(results[0])
                            } else {
                                None
                            },
                            None => None,
                        })
                        &&& exists|output: Output<'_>|
                            {
                                &&& output.call_state() == heard[i].shown[0].state
                                &&& output.entry() == heard[i].shown[0].entry
                                &&& #[trigger] call_ensures(
                                    f,
                                    (output,),
                                    heard[i].decision,
                                )
                            }
                        &&& heard[i].decision is None ==> calls[i].code == 1
&&& calls[i].code == 0 <==> heard[i].decision == Some(Control::Continue)
                        &&& calls[i].code == 2 <==> heard[i].decision == Some(
                            Control::ReleaseBuffer,
                        )
                        &&& heard[i].decision == Some(Control::Pause) ==> calls[i].code == 1
                    }
            },
{
    let given = choose|given: &mut Input|
        *given == input && #[trigger] call_ensures(
            RkllmSession::<A>::run_llm_guarded::<F>,
            (session, given, params, f),
            r,
        );
    let (raw_inputs, raw_params, state, code) = choose|
        raw_inputs: &[RKLLMInput<'_>],
        raw_params: &RKLLMInferParam<'_>,
        state: &mut CallbackState<PerOutput<F>>,
        code: i32,
    |
        {
            &&& session.hands_over(
                seq![input@],
                params@,
                PerOutput { closure: f },
                raw_inputs@,
                *raw_params,
                *state,
            )
            &&& #[trigger] call_ensures(
                A::rkllm_run::<CallbackState<PerOutput<F>>>,
                (&session.bindings(), session.model(), raw_inputs, raw_params, state),
                code,
            )
            &&& final(state).is_outcome(PerOutput { closure: f }, session.batch_size())
            &&& session.bindings().may_run(
                session.model(),
                raw_inputs@,
                *raw_params,
                final(state).calls(),
                code,
            )
            &&& r == crate::session::unless(
                final(state).has_panicked(),
                crate::error::checked("rkllm_run", code),
            )
        };
    let done = *final(state);
    assert forall|i: int|
        #![trigger done.heard()[i]]
        0 <= i < done.heard().len() implies {
                                &&& done.heard()[i].shown.len() == 1
                                &&& done.heard()[i].shown[0].state == CallState::meaning(done.calls()[i].state)
                                &&& done.heard()[i].shown[0].entry == (match done.calls()[i].results {
                                    Some(results) => if results.len() > 0 {
                                        Some(results[0])
                                    } else {
                                        None
                                    },
                                    None => None,
                                })
                                &&& exists|output: Output<'_>|
                                    {
                                        &&& output.call_state() == done.heard()[i].shown[0].state
                                        &&& output.entry() == done.heard()[i].shown[0].entry
                                        &&& #[trigger] call_ensures(
                                            f,
                                            (output,),
                                            done.heard()[i].decision,
                                        )
                                    }
                                &&& done.heard()[i].decision is None ==> done.calls()[i].code == 1
        &&& done.calls()[i].code == 0 <==> done.heard()[i].decision == Some(
            Control::Continue,
        )
                                &&& done.calls()[i].code == 2 <==> done.heard()[i].decision == Some(
                                    Control::ReleaseBuffer,
                                )
                                &&& done.heard()[i].decision == Some(Control::Pause) ==> done.calls()[i].code == 1
    } by {
        crate::callback::the_first_output_is_shown(done, i);
        assert(done.calls()[i].code == crate::callback::governing(
            done.heard()[i].decision,
        ).code());
        let (output, reply) = choose|output: Output<'_>, reply: Option<Control>|
            {
                &&& output.call_state() == done.heard()[i].shown[0].state
                &&& output.entry() == done.heard()[i].shown[0].entry
                &&& #[trigger] call_ensures(done.started_with().closure, (output,), reply)
                &&& reply.decision() == done.heard()[i].decision
            };
        assert(call_ensures(f, (output,), reply));
    }
    assert(done.heard().len() == done.deliveries());
}

/// A guarded run of a batch calls the closure once for each report, up to the one at
/// which it panics. From there on the runtime is told to stop, and the panic is what
/// the run comes to.
pub proof fn a_guarded_batch_is_called_until_it_panics<
    A: RkllmApi,
    F: FnMut(&[Output<'_>]) -> Option<Control>,
>(session: &RkllmSession<A>, inputs: Seq<Input>, params: &InferParams, f: F, r: Option<Result<(), Error>>)
    requires
        inputs.len() == session.batch_size(),
        exists|given: &mut [Input]|
            given@ == inputs && #[trigger] call_ensures(
                RkllmSession::<A>::run_llm_batch_guarded::<F>,
                (session, given, params, f),
                r,
            ),
    ensures
        exists|
            raw_inputs: &[RKLLMInput<'_>],
            raw_params: &RKLLMInferParam<'_>,
            calls: Seq<crate::callback::Report>,
            heard: Seq<crate::closure::Heard>,
            code: i32,
        |
            #![trigger
                session.bindings().may_run(
                    session.model(),
                    raw_inputs@,
                    *raw_params,
                    calls,
                    code,
                ),
                heard.len()
            ]
            {
                &&& session.bindings().may_run(
                    session.model(),
                    raw_inputs@,
                    *raw_params,
                    calls,
                    code,
                )
                &&& raw_inputs@.len() == inputs.len()
                &&& forall|i: int|
                    0 <= i < inputs.len() ==> inputs[i]@.passed_as(#[trigger] raw_inputs@[i])
                &&& params@.passed_as(*raw_params)
                &&& r is None <==> heard.len() > 0 && heard.last().decision is None
                &&& r is Some ==> heard.len() == calls.len()
                &&& r is Some ==> (r->0 is Ok <==> code == 0)
                &&& r is Some && r->0 is Err ==> r->0->Err_0 == (Error::Status {
                    call: "rkllm_run",
                    code,
                })
                &&& heard.len() <= calls.len()
                &&& forall|i: int|
                    heard.len() <= i < calls.len() ==> (#[trigger] calls[i]).code == 1
                &&& forall|i: int|
                    0 <= i < heard.len() - 1 ==> (#[trigger] heard[i]).decision is Some
                &&& forall|i: int|
                    #![trigger heard[i]]
                    0 <= i < heard.len() ==> {
                        &&& calls[i].results is None || calls[i].results->0.len() == 0
                            ==> heard[i].shown.len() == 1 && heard[i].shown[0].entry is None
                        &&& calls[i].results matches Some(results) ==> results.len() > 0 ==> {
                            &&& heard[i].shown.len() == vstd::math::min(
                                results.len() as int,
                                if calls[i].state is RKLLM_RUN_FINISH
                                    || calls[i].state is RKLLM_RUN_ERROR {
                                    1
                                } else {
                                    session.batch_size() as int
                                },
                            )
                            &&& forall|j: int|
                                0 <= j < heard[i].shown.len() ==> (
                                #[trigger] heard[i].shown[j]).entry == Some(results[j])
                        }
                        &&& exists|outputs: &[Output<'_>]|
                            {
                                &&& outputs.shows() == heard[i].shown
                                &&& #[trigger] call_ensures(
                                    f,
                                    (outputs,),
                                    heard[i].decision,
                                )
                            }
                        &&& heard[i].decision is None ==> calls[i].code == 1
&&& calls[i].code == 0 <==> heard[i].decision == Some(Control::Continue)
                        &&& calls[i].code == 2 <==> heard[i].decision == Some(
                            Control::ReleaseBuffer,
                        )
                        &&& heard[i].decision == Some(Control::Pause) ==> calls[i].code == 1
                    }
            },
{
    let given = choose|given: &mut [Input]|
        given@ == inputs && #[trigger] call_ensures(
            RkllmSession::<A>::run_llm_batch_guarded::<F>,
            (session, given, params, f),
            r,
        );
    let (raw_inputs, raw_params, state, code) = choose|
        raw_inputs: &[RKLLMInput<'_>],
        raw_params: &RKLLMInferParam<'_>,
        state: &mut CallbackState<PerBatch<F>>,
        code: i32,
    |
        {
            &&& session.hands_over(
                crate::session::messages(inputs),
                params@,
                PerBatch { closure: f },
                raw_inputs@,
                *raw_params,
                *state,
            )
            &&& #[trigger] call_ensures(
                A::rkllm_run::<CallbackState<PerBatch<F>>>,
                (&session.bindings(), session.model(), raw_inputs, raw_params, state),
                code,
            )
            &&& final(state).is_outcome(PerBatch { closure: f }, session.batch_size())
            &&& session.bindings().may_run(
                session.model(),
                raw_inputs@,
                *raw_params,
                final(state).calls(),
                code,
            )
            &&& r == crate::session::unless(
                final(state).has_panicked(),
                crate::error::checked("rkllm_run", code),
            )
        };
    let done = *final(state);
    assert forall|i: int|
        #![trigger done.heard()[i]]
        0 <= i < done.heard().len() implies {
                                &&& done.calls()[i].results is None || done.calls()[i].results->0.len() == 0
                                    ==> done.heard()[i].shown.len() == 1 && done.heard()[i].shown[0].entry is None
                                &&& done.calls()[i].results matches Some(results) ==> results.len() > 0 ==> {
                                    &&& done.heard()[i].shown.len() == vstd::math::min(
                                        results.len() as int,
                                        if done.calls()[i].state is RKLLM_RUN_FINISH
                                            || done.calls()[i].state is RKLLM_RUN_ERROR {
                                            1
                                        } else {
                                            session.batch_size() as int
                                        },
                                    )
                                    &&& forall|j: int|
                                        0 <= j < done.heard()[i].shown.len() ==> (
                                        #[trigger] done.heard()[i].shown[j]).entry == Some(results[j])
                                }
                                &&& exists|outputs: &[Output<'_>]|
                                    {
                                        &&& outputs.shows() == done.heard()[i].shown
                                        &&& #[trigger] call_ensures(
                                            f,
                                            (outputs,),
                                            done.heard()[i].decision,
                                        )
                                    }
                                &&& done.heard()[i].decision is None ==> done.calls()[i].code == 1
        &&& done.calls()[i].code == 0 <==> done.heard()[i].decision == Some(
            Control::Continue,
        )
                                &&& done.calls()[i].code == 2 <==> done.heard()[i].decision == Some(
                                    Control::ReleaseBuffer,
                                )
                                &&& done.heard()[i].decision == Some(Control::Pause) ==> done.calls()[i].code == 1
    } by {
        crate::callback::every_entry_is_shown(done, i);
        assert(done.calls()[i].code == crate::callback::governing(
            done.heard()[i].decision,
        ).code());
        let (outputs, reply) = choose|outputs: &[Output<'_>], reply: Option<Control>|
            {
                &&& outputs.shows() == done.heard()[i].shown
                &&& #[trigger] call_ensures(done.started_with().closure, (outputs,), reply)
                &&& reply.decision() == done.heard()[i].decision
            };
        assert(call_ensures(f, (outputs,), reply));
    }
    assert(done.heard().len() == done.deliveries());
}

/// Aborting asks the runtime to abort this model, and fails as the runtime does.
pub proof fn aborting_is_the_runtimes<A: RkllmApi>(session: &RkllmSession<A>, r: Result<(), Error>)
    requires
        call_ensures(RkllmSession::<A>::abort, (session,), r),
    ensures
        exists|code: i32|
            {
                &&& #[trigger] call_ensures(
                    A::rkllm_abort,
                    (&session.bindings(), session.model()),
                    code,
                )
                &&& r is Ok <==> code == 0
                &&& r is Err ==> r->Err_0 == (Error::Status { call: "rkllm_abort", code })
            },
{
}

/// Releasing the prompt cache asks the runtime to release that of this model, and
/// fails as the runtime does.
pub proof fn releasing_is_the_runtimes<A: RkllmApi>(session: &RkllmSession<A>, r: Result<(), Error>)
    requires
        call_ensures(RkllmSession::<A>::release_prompt_cache, (session,), r),
    ensures
        exists|code: i32|
            {
                &&& #[trigger] call_ensures(
                    A::rkllm_release_prompt_cache,
                    (&session.bindings(), session.model()),
                    code,
                )
                &&& r is Ok <==> code == 0
                &&& r is Err ==> r->Err_0 == (Error::Status { call: "rkllm_release_prompt_cache", code })
            },
{
}

/// A run is in flight exactly when the runtime answers with one.
pub proof fn only_one_means_running<A: RkllmApi>(session: &RkllmSession<A>, r: bool)
    requires
        call_ensures(RkllmSession::<A>::is_running, (session,), r),
    ensures
        exists|code: i32|
            {
                &&& #[trigger] call_ensures(
                    A::rkllm_is_running,
                    (&session.bindings(), session.model()),
                    code,
                )
                &&& r <==> code == 1
            },
{
}

/// An adapter is loaded from its path, under its name and at its scale, each as it
/// was given. A path or name that holds a NUL is refused, the path first.
pub proof fn an_adapter_is_loaded_as_given<A: RkllmApi>(
    session: &RkllmSession<A>,
    path: Vec<u8>,
    name: Vec<u8>,
    scale: F32,
    r: Result<(), Error>,
)
    requires
        call_ensures(RkllmSession::<A>::load_lora, (session, path, name, scale), r),
    ensures
        !path@.contains(0) && !name@.contains(0) ==> exists|
            adapter: &RKLLMLoraAdapter<'_>,
            code: i32,
        |
            {
                &&& adapter.lora_adapter_path@ == path@
                &&& adapter.lora_adapter_name@ == name@
                &&& adapter.scale == scale
                &&& #[trigger] call_ensures(
                    A::rkllm_load_lora,
                    (&session.bindings(), session.model(), adapter),
                    code,
                )
                &&& r is Ok <==> code == 0
                &&& r is Err ==> r->Err_0 == (Error::Status { call: "rkllm_load_lora", code })
            },
        path@.contains(0) ==> r is Err && r->Err_0 is InteriorNul && r->Err_0->field
            == "lora_adapter_path" && path@[r->Err_0->position as int] == 0,
        !path@.contains(0) && name@.contains(0) ==> r is Err && r->Err_0 is InteriorNul
            && r->Err_0->field == "lora_adapter_name" && name@[r->Err_0->position as int] == 0,
{
    nul_free_holds_no_nul(path@);
    nul_free_holds_no_nul(name@);
}

/// Bytes are free of NUL exactly when none of them is one.
proof fn nul_free_holds_no_nul(bytes: Seq<u8>)
    ensures
        crate::cstring::nul_free(bytes) <==> !bytes.contains(0),
{
    if !crate::cstring::nul_free(bytes) {
        let i = choose|i: int| 0 <= i < bytes.len() && bytes[i] == 0;
        assert(bytes[i] == 0);
    }
}

/// A prompt cache is loaded from the path that was given, unless that holds a NUL.
pub proof fn a_prompt_cache_is_loaded_as_given<A: RkllmApi>(
    session: &RkllmSession<A>,
    path: Vec<u8>,
    r: Result<(), Error>,
)
    requires
        call_ensures(RkllmSession::<A>::load_prompt_cache, (session, path), r),
    ensures
        !path@.contains(0) ==> exists|given: &CString, code: i32|
            {
                &&& given@ == path@
                &&& #[trigger] call_ensures(
                    A::rkllm_load_prompt_cache,
                    (&session.bindings(), session.model(), given),
                    code,
                )
                &&& r is Ok <==> code == 0
                &&& r is Err ==> r->Err_0 == (Error::Status { call: "rkllm_load_prompt_cache", code })
            },
        path@.contains(0) ==> r is Err && r->Err_0 is InteriorNul && r->Err_0->field
            == "prompt_cache_path" && path@[r->Err_0->position as int] == 0,
{
    nul_free_holds_no_nul(path@);
}

/// Clearing the whole cache names no positions, and keeps the system prompt exactly
/// when that was asked for.
pub proof fn the_whole_cache_is_cleared<A: RkllmApi>(
    session: &RkllmSession<A>,
    keep_system_prompt: bool,
    r: Result<(), Error>,
)
    requires
        call_ensures(RkllmSession::<A>::clear_kv_cache, (session, keep_system_prompt), r),
    ensures
        exists|keep: i32, code: i32|
            {
                &&& keep_system_prompt ==> keep == 1
                &&& !keep_system_prompt ==> keep == 0
                &&& #[trigger] call_ensures(
                    A::rkllm_clear_kv_cache,
                    (&session.bindings(), session.model(), keep, None, None),
                    code,
                )
                &&& r is Ok <==> code == 0
                &&& r is Err ==> r->Err_0 == (Error::Status { call: "rkllm_clear_kv_cache", code })
            },
{
}

/// Clearing ranges takes one for each entry of the batch, and names where each starts
/// and ends, in order.
pub proof fn each_range_is_cleared<A: RkllmApi>(
    session: &RkllmSession<A>,
    ranges: &[(i32, i32)],
    r: Result<(), Error>,
)
    requires
        call_ensures(RkllmSession::<A>::clear_kv_cache_ranges, (session, ranges), r),
    ensures
        ranges@.len() == session.batch_size() ==> exists|start: &[i32], end: &[i32], code: i32|
            {
                &&& start@.len() == ranges@.len()
                &&& end@.len() == ranges@.len()
                &&& forall|i: int|
                    0 <= i < ranges@.len() ==> start@[i] == (#[trigger] ranges@[i]).0 && end@[i]
                        == ranges@[i].1
                &&& #[trigger] call_ensures(
                    A::rkllm_clear_kv_cache,
                    (&session.bindings(), session.model(), 0i32, Some(start), Some(end)),
                    code,
                )
                &&& r is Ok <==> code == 0
                &&& r is Err ==> r->Err_0 == (Error::Status { call: "rkllm_clear_kv_cache", code })
            },
        ranges@.len() != session.batch_size() ==> r is Err && r->Err_0 is BatchSizeMismatch
            && r->Err_0->expected == session.batch_size() && r->Err_0->given == ranges@.len(),
{
    assert(ranges@.len() <= usize::MAX) by {
        assert(ranges.len() == ranges@.len());
    }
}

/// The cache sizes are those that the runtime wrote, one for each entry of the batch.
pub proof fn the_cache_sizes_are_the_runtimes<A: RkllmApi>(
    session: &RkllmSession<A>,
    r: Result<Vec<i32>, Error>,
)
    requires
        call_ensures(RkllmSession::<A>::kv_cache_size, (session,), r),
    ensures
        r is Ok ==> r->Ok_0@.len() == session.batch_size(),
        exists|sizes: &mut [i32], code: i32|
            {
                &&& sizes@.len() == session.batch_size()
                &&& #[trigger] call_ensures(
                    A::rkllm_get_kv_cache_size,
                    (&session.bindings(), session.model(), sizes),
                    code,
                )
                &&& r is Ok ==> r->Ok_0@ == final(sizes)@
                &&& r is Ok <==> code == 0
                &&& r is Err ==> r->Err_0 == (Error::Status { call: "rkllm_get_kv_cache_size", code })
            },
{
}

/// A chat template is handed over as it was given: the system prompt, what goes before
/// a prompt, and what goes after it. The first of them that holds a NUL is refused.
pub proof fn a_template_is_handed_over_as_given<A: RkllmApi>(
    session: &RkllmSession<A>,
    system_prompt: Vec<u8>,
    prompt_prefix: Vec<u8>,
    prompt_postfix: Vec<u8>,
    r: Result<(), Error>,
)
    requires
        call_ensures(
            RkllmSession::<A>::set_chat_template,
            (session, system_prompt, prompt_prefix, prompt_postfix),
            r,
        ),
    ensures
        !system_prompt@.contains(0) && !prompt_prefix@.contains(0) && !prompt_postfix@.contains(0) ==> exists|
            first: &CString,
            second: &CString,
            third: &CString,
            code: i32,
        |
            {
                &&& first@ == system_prompt@
                &&& second@ == prompt_prefix@
                &&& third@ == prompt_postfix@
                &&& #[trigger] call_ensures(
                    A::rkllm_set_chat_template,
                    (&session.bindings(), session.model(), Some(first), Some(second), Some(third)),
                    code,
                )
                &&& r is Ok <==> code == 0
                &&& r is Err ==> r->Err_0 == (Error::Status { call: "rkllm_set_chat_template", code })
            },
        system_prompt@.contains(0) ==> r is Err && r->Err_0 is InteriorNul && r->Err_0->field
            == "system_prompt",
        !system_prompt@.contains(0) && prompt_prefix@.contains(0) ==> r is Err
            && r->Err_0 is InteriorNul && r->Err_0->field == "prompt_prefix",
        !system_prompt@.contains(0) && !prompt_prefix@.contains(0) && prompt_postfix@.contains(0)
            ==> r is Err && r->Err_0 is InteriorNul && r->Err_0->field == "prompt_postfix",
{
    nul_free_holds_no_nul(system_prompt@);
    nul_free_holds_no_nul(prompt_prefix@);
    nul_free_holds_no_nul(prompt_postfix@);
}

/// Tools are handed over as they were given: the system prompt, the tools, and the tag
/// of a response. The first of them that holds a NUL is refused.
pub proof fn tools_are_handed_over_as_given<A: RkllmApi>(
    session: &RkllmSession<A>,
    system_prompt: Vec<u8>,
    tools: Vec<u8>,
    tool_response_str: Vec<u8>,
    r: Result<(), Error>,
)
    requires
        call_ensures(
            RkllmSession::<A>::set_function_tools,
            (session, system_prompt, tools, tool_response_str),
            r,
        ),
    ensures
        !system_prompt@.contains(0) && !tools@.contains(0) && !tool_response_str@.contains(0) ==> exists|
            first: &CString,
            second: &CString,
            third: &CString,
            code: i32,
        |
            {
                &&& first@ == system_prompt@
                &&& second@ == tools@
                &&& third@ == tool_response_str@
                &&& #[trigger] call_ensures(
                    A::rkllm_set_function_tools,
                    (&session.bindings(), session.model(), Some(first), Some(second), Some(third)),
                    code,
                )
                &&& r is Ok <==> code == 0
                &&& r is Err ==> r->Err_0 == (Error::Status { call: "rkllm_set_function_tools", code })
            },
        system_prompt@.contains(0) ==> r is Err && r->Err_0 is InteriorNul && r->Err_0->field
            == "system_prompt",
        !system_prompt@.contains(0) && tools@.contains(0) ==> r is Err
            && r->Err_0 is InteriorNul && r->Err_0->field == "tools",
        !system_prompt@.contains(0) && !tools@.contains(0) && tool_response_str@.contains(0)
            ==> r is Err && r->Err_0 is InteriorNul && r->Err_0->field == "tool_response_str",
{
    nul_free_holds_no_nul(system_prompt@);
    nul_free_holds_no_nul(tools@);
    nul_free_holds_no_nul(tool_response_str@);
}

/// A run is refused before the runtime is asked exactly where it was given another
/// number of inputs than the session runs at a time, and the refusal says both.
pub proof fn a_run_of_the_wrong_size_is_refused<
    A: RkllmApi,
    F: FnMut(Output<'_>) -> Control,
    G: FnMut(&[Output<'_>]) -> Control,
>(
    session: &RkllmSession<A>,
    input: Input,
    inputs: Seq<Input>,
    params: &InferParams,
    f: F,
    g: G,
    one: Result<(), Error>,
    all: Result<(), Error>,
)
    requires
        exists|given: &mut Input|
            *given == input && #[trigger] call_ensures(
                RkllmSession::<A>::run_llm::<F>,
                (session, given, params, f),
                one,
            ),
        exists|given: &mut [Input]|
            given@ == inputs && #[trigger] call_ensures(
                RkllmSession::<A>::run_llm_batch::<G>,
                (session, given, params, g),
                all,
            ),
        inputs.len() <= usize::MAX,
    ensures
        one matches Err(e) && e is NotSingleBatch <==> session.batch_size() != 1,
        session.batch_size() != 1 ==> one->Err_0->n_batch == session.batch_size(),
        all matches Err(e) && e is BatchSizeMismatch <==> inputs.len() != session.batch_size(),
        inputs.len() != session.batch_size() ==> {
            &&& all->Err_0->expected == session.batch_size()
            &&& all->Err_0->given == inputs.len()
        },
{
}

/// A session that is destroyed destroys its model, and gives its bindings back.
pub proof fn destroying_a_session_destroys_its_model<A: RkllmApi>(session: RkllmSession<A>, r: A)
    requires
        call_ensures(RkllmSession::<A>::destroy, (session,), r),
    ensures
        r == session.bindings(),
        exists|code: i32|
            #[trigger] call_ensures(
                A::rkllm_destroy,
                (&session.bindings(), session.model()),
                code,
            ),
{
}

/// A tokenizer that was supplied is asked once what the runtime asks, in the text's
/// own bytes, and the runtime is told the number of tokens it claims, where they fit.
pub proof fn the_tokenizers_answer_is_passed_on<
    T: TokenizerHook + ?Sized,
    E: EmbeddingHook + ?Sized,
>(
    hooks: &Hooks<T, E>,
    text: &[u8],
    text_len: i32,
    room: Seq<i32>,
    n_tokens_max: i32,
    r: i32,
)
    requires
        text_len >= 0,
        n_tokens_max >= 0,
        hooks.tokenizer is Some,
        vstd::utf8::valid_utf8(text@),
        exists|tokens: &mut [i32]|
            tokens@ == room && #[trigger] call_ensures(
                crate::hooks::tokenizer_trampoline::<T, E>,
                (Some(hooks), Some(text), text_len, Some(tokens), n_tokens_max),
                r,
            ),
    ensures
        exists|said: &str, out: &mut [i32], written: Option<usize>|
            {
                &&& said.spec_bytes() == text@
                &&& out@ == room
                &&& #[trigger] call_ensures(
                    T::tokenize,
                    (&*hooks.tokenizer->0, said, out),
                    written,
                )
                &&& r >= 0 <==> written is Some && written->0 <= n_tokens_max
                &&& r >= 0 ==> r == written->0
                &&& r < 0 ==> r == -1
            },
{
}

/// An embedding layer that was supplied is asked once what the runtime asks, and the
/// runtime is told whether it succeeded.
pub proof fn the_embeddings_answer_is_passed_on<
    T: TokenizerHook + ?Sized,
    E: EmbeddingHook + ?Sized,
>(
    hooks: &Hooks<T, E>,
    tokens: &[i32],
    num_tokens: u64,
    address: usize,
    len: u64,
    room: Seq<F32>,
    r: i32,
)
    requires
        num_tokens <= usize::MAX,
        address != 0,
        address % 4 == 0,
        len % 4 == 0,
        len <= usize::MAX,
        hooks.embedding is Some,
        exists|out: &mut [F32]|
            out@ == room && #[trigger] call_ensures(
                crate::hooks::embedding_trampoline::<T, E>,
                (Some(hooks), Some(tokens), num_tokens, address, len, out),
                r,
            ),
    ensures
        exists|ids: &[i32], filled: &mut [F32], done: bool|
            {
                &&& ids@ == tokens@
                &&& filled@ == room
                &&& #[trigger] call_ensures(
                    E::embed,
                    (&*hooks.embedding->0, ids, filled),
                    done,
                )
                &&& done ==> r == 0
                &&& !done ==> r == -1
            },
{
}

/// A callback without hooks, or with hooks that were not supplied, fails.
pub proof fn a_hook_that_was_not_supplied_fails<
    T: TokenizerHook + ?Sized,
    E: EmbeddingHook + ?Sized,
>(
    hooks: Option<&Hooks<T, E>>,
    text: Option<&[u8]>,
    text_len: i32,
    tokens: Option<&mut [i32]>,
    n_tokens_max: i32,
    r: i32,
)
    requires
        hooks is None || hooks->0.tokenizer is None,
        call_ensures(
            crate::hooks::tokenizer_trampoline::<T, E>,
            (hooks, text, text_len, tokens, n_tokens_max),
            r,
        ),
    ensures
        r == -1,
{
}

} // verus!
