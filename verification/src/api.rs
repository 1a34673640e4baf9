//! The calls that make up `librkllmrt`.
use std::sync::Arc;

use vstd::prelude::*;

use crate::bindings::{
    LLMHandle, RKLLMCallback, RKLLMInferParam, RKLLMInput, RKLLMLoraAdapter, RKLLMParam,
};
use crate::callback::{Report, ResultCallback};
use crate::cstring::CString;

verus! {

/// The calls of the `librkllmrt` C API that a session makes, as a set of bindings
/// offers them.
///
/// Method names and argument order mirror `rkllm.h`. A session states what it
/// passes, and what it makes of any answer. Two methods promise something. Of
/// [`RkllmApi::rkllm_run`], it is that the callback is called and nothing else, and
/// that the run is one that the bindings' own `may_run` admits. Of
/// [`RkllmApi::rkllm_get_kv_cache_size`], it is that the slice keeps its length.
/// No method promises anything of the status it returns.
#[allow(non_snake_case)]
pub trait RkllmApi {
    /// The runtime's own defaults.
    fn rkllm_createDefaultParam<'p>(&self) -> RKLLMParam<'p>;

    /// Loads a model and writes its handle to `handle`.
    ///
    /// The runtime may write to `param`, and keeps what it needs of `callback`.
    fn rkllm_init<'p>(
        &self,
        handle: &mut LLMHandle,
        param: &mut RKLLMParam<'p>,
        callback: &RKLLMCallback,
    ) -> i32;

    /// Loads a LoRA adapter into the model.
    fn rkllm_load_lora(&self, handle: LLMHandle, lora_adapter: &RKLLMLoraAdapter<'_>) -> i32;

    /// Loads a prompt cache from a file.
    fn rkllm_load_prompt_cache(&self, handle: LLMHandle, prompt_cache_path: &CString) -> i32;

    /// Releases the loaded prompt cache.
    fn rkllm_release_prompt_cache(&self, handle: LLMHandle) -> i32;

    /// Destroys the model and frees its resources.
    fn rkllm_destroy(&self, handle: LLMHandle) -> i32;

    /// Whether a run on `handle` of these inputs, with these settings, may make
    /// these reports, get these replies to them, and return `code`.
    ///
    /// This is for bindings to say. Any relation that their runs keep to will do,
    /// and bindings that say nothing leave every run possible.
    open spec fn may_run(
        &self,
        handle: LLMHandle,
        inputs: Seq<RKLLMInput<'_>>,
        params: RKLLMInferParam<'_>,
        reports: Seq<Report>,
        code: i32,
    ) -> bool {
        true
    }

    /// Runs inference, reporting results through `userdata` before it returns.
    ///
    /// All that a run can do to `userdata`, whatever its type, is to call it.
    fn rkllm_run<C: ResultCallback>(
        &self,
        handle: LLMHandle,
        rkllm_input: &[RKLLMInput<'_>],
        rkllm_infer_params: &RKLLMInferParam<'_>,
        userdata: &mut C,
    ) -> (code: i32)
        requires
            old(userdata).callable(),
        ensures
            final(userdata).callable(),
            final(userdata).origin() == old(userdata).origin(),
            exists|reports: Seq<Report>|
                {
                    &&& final(userdata).reported() == old(userdata).reported() + reports
                    &&& #[trigger] self.may_run(
                        handle,
                        rkllm_input@,
                        *rkllm_infer_params,
                        reports,
                        code,
                    )
                },
    ;

    /// Aborts the task currently running on `handle`.
    fn rkllm_abort(&self, handle: LLMHandle) -> i32;

    /// Returns 1 while a task is running on `handle`.
    fn rkllm_is_running(&self, handle: LLMHandle) -> i32;

    /// Clears the key-value cache: all of it, or one range per batch entry where
    /// the two position arrays are given.
    fn rkllm_clear_kv_cache(
        &self,
        handle: LLMHandle,
        keep_system_prompt: i32,
        start_pos: Option<&[i32]>,
        end_pos: Option<&[i32]>,
    ) -> i32;

    /// Writes the key-value cache size of each batch entry into `cache_sizes`.
    ///
    /// A slice keeps its length, whatever is written to it.
    fn rkllm_get_kv_cache_size(&self, handle: LLMHandle, cache_sizes: &mut [i32]) -> (code: i32)
        ensures
            final(cache_sizes)@.len() == old(cache_sizes)@.len(),
    ;

    /// Sets the chat template used to frame user input.
    fn rkllm_set_chat_template(
        &self,
        handle: LLMHandle,
        system_prompt: Option<&CString>,
        prompt_prefix: Option<&CString>,
        prompt_postfix: Option<&CString>,
    ) -> i32;

    /// Configures function calling, with tools given as a JSON string.
    fn rkllm_set_function_tools(
        &self,
        handle: LLMHandle,
        system_prompt: Option<&CString>,
        tools: Option<&CString>,
        tool_response_str: Option<&CString>,
    ) -> i32;
}

/// The link-time API: a zero-sized name for the symbols the linker resolved.
#[derive(Debug, Clone, Copy, PartialEq, Eq, Hash, Structural)]
pub struct Linked;

impl Linked {
    /// Returns the link-time API handle.
    pub fn new() -> (r: Linked)
        ensures
            r == Linked,
    {
        Linked
    }
}

impl Default for Linked {
    fn default() -> (r: Linked)
        ensures
            r == Linked,
    {
        Linked
    }
}

/// A reference to bindings forwards every call to them.
///
/// A run may come to exactly what a run of those bindings may.
#[allow(non_snake_case)]
impl<T: RkllmApi> RkllmApi for &T {
    fn rkllm_createDefaultParam<'p>(&self) -> (r: RKLLMParam<'p>)
        ensures
            call_ensures(T::rkllm_createDefaultParam, (&**self,), r),
    {
        (**self).rkllm_createDefaultParam()
    }

    fn rkllm_init<'p>(
        &self,
        handle: &mut LLMHandle,
        param: &mut RKLLMParam<'p>,
        callback: &RKLLMCallback,
    ) -> (r: i32)
        ensures
            exists|h: &mut LLMHandle, p: &mut RKLLMParam<'p>|
                *h == *old(handle) && *final(h) == *final(handle) && *p == *old(param) && *final(p)
                    == *final(param) && #[trigger] call_ensures(
                    T::rkllm_init,
                    (&**self, h, p, callback),
                    r,
                ),
    {
        (**self).rkllm_init(handle, param, callback)
    }

    fn rkllm_load_lora(&self, handle: LLMHandle, lora_adapter: &RKLLMLoraAdapter<'_>) -> (r: i32)
        ensures
            call_ensures(T::rkllm_load_lora, (&**self, handle, lora_adapter), r),
    {
        (**self).rkllm_load_lora(handle, lora_adapter)
    }

    fn rkllm_load_prompt_cache(&self, handle: LLMHandle, prompt_cache_path: &CString) -> (r: i32)
        ensures
            call_ensures(T::rkllm_load_prompt_cache, (&**self, handle, prompt_cache_path), r),
    {
        (**self).rkllm_load_prompt_cache(handle, prompt_cache_path)
    }

    fn rkllm_release_prompt_cache(&self, handle: LLMHandle) -> (r: i32)
        ensures
            call_ensures(T::rkllm_release_prompt_cache, (&**self, handle), r),
    {
        (**self).rkllm_release_prompt_cache(handle)
    }

    fn rkllm_destroy(&self, handle: LLMHandle) -> (r: i32)
        ensures
            call_ensures(T::rkllm_destroy, (&**self, handle), r),
    {
        (**self).rkllm_destroy(handle)
    }

    open spec fn may_run(
        &self,
        handle: LLMHandle,
        inputs: Seq<RKLLMInput<'_>>,
        params: RKLLMInferParam<'_>,
        reports: Seq<Report>,
        code: i32,
    ) -> bool {
        (**self).may_run(handle, inputs, params, reports, code)
    }

    fn rkllm_run<C: ResultCallback>(
        &self,
        handle: LLMHandle,
        rkllm_input: &[RKLLMInput<'_>],
        rkllm_infer_params: &RKLLMInferParam<'_>,
        userdata: &mut C,
    ) -> (code: i32)
    {
        let code: i32 = (**self).rkllm_run(handle, rkllm_input, rkllm_infer_params, userdata);
        proof {
            let reports = choose|reports: Seq<Report>|
                {
                    &&& userdata.reported() == old(userdata).reported() + reports
                    &&& #[trigger] (**self).may_run(
                        handle,
                        rkllm_input@,
                        *rkllm_infer_params,
                        reports,
                        code,
                    )
                };
            assert(self.may_run(handle, rkllm_input@, *rkllm_infer_params, reports, code));
        }
        code
    }

    fn rkllm_abort(&self, handle: LLMHandle) -> (r: i32)
        ensures
            call_ensures(T::rkllm_abort, (&**self, handle), r),
    {
        (**self).rkllm_abort(handle)
    }

    fn rkllm_is_running(&self, handle: LLMHandle) -> (r: i32)
        ensures
            call_ensures(T::rkllm_is_running, (&**self, handle), r),
    {
        (**self).rkllm_is_running(handle)
    }

    fn rkllm_clear_kv_cache(
        &self,
        handle: LLMHandle,
        keep_system_prompt: i32,
        start_pos: Option<&[i32]>,
        end_pos: Option<&[i32]>,
    ) -> (r: i32)
        ensures
            call_ensures(
                T::rkllm_clear_kv_cache,
                (&**self, handle, keep_system_prompt, start_pos, end_pos),
                r,
            ),
    {
        (**self).rkllm_clear_kv_cache(handle, keep_system_prompt, start_pos, end_pos)
    }

    fn rkllm_get_kv_cache_size(&self, handle: LLMHandle, cache_sizes: &mut [i32]) -> (code: i32)
        ensures
            exists|s: &mut [i32]|
                s@ == old(cache_sizes)@ && final(s)@ == final(cache_sizes)@
                    && #[trigger] call_ensures(
                    T::rkllm_get_kv_cache_size,
                    (&**self, handle, s),
                    code,
                ),
    {
        (**self).rkllm_get_kv_cache_size(handle, cache_sizes)
    }

    fn rkllm_set_chat_template(
        &self,
        handle: LLMHandle,
        system_prompt: Option<&CString>,
        prompt_prefix: Option<&CString>,
        prompt_postfix: Option<&CString>,
    ) -> (r: i32)
        ensures
            call_ensures(
                T::rkllm_set_chat_template,
                (&**self, handle, system_prompt, prompt_prefix, prompt_postfix),
                r,
            ),
    {
        (**self).rkllm_set_chat_template(handle, system_prompt, prompt_prefix, prompt_postfix)
    }

    fn rkllm_set_function_tools(
        &self,
        handle: LLMHandle,
        system_prompt: Option<&CString>,
        tools: Option<&CString>,
        tool_response_str: Option<&CString>,
    ) -> (r: i32)
        ensures
            call_ensures(
                T::rkllm_set_function_tools,
                (&**self, handle, system_prompt, tools, tool_response_str),
                r,
            ),
    {
        (**self).rkllm_set_function_tools(handle, system_prompt, tools, tool_response_str)
    }
}

/// A box of bindings forwards every call to them.
#[allow(non_snake_case)]
impl<T: RkllmApi> RkllmApi for Box<T> {
    fn rkllm_createDefaultParam<'p>(&self) -> (r: RKLLMParam<'p>)
        ensures
            call_ensures(T::rkllm_createDefaultParam, (&**self,), r),
    {
        (**self).rkllm_createDefaultParam()
    }

    fn rkllm_init<'p>(
        &self,
        handle: &mut LLMHandle,
        param: &mut RKLLMParam<'p>,
        callback: &RKLLMCallback,
    ) -> (r: i32)
        ensures
            exists|h: &mut LLMHandle, p: &mut RKLLMParam<'p>|
                *h == *old(handle) && *final(h) == *final(handle) && *p == *old(param) && *final(p)
                    == *final(param) && #[trigger] call_ensures(
                    T::rkllm_init,
                    (&**self, h, p, callback),
                    r,
                ),
    {
        (**self).rkllm_init(handle, param, callback)
    }

    fn rkllm_load_lora(&self, handle: LLMHandle, lora_adapter: &RKLLMLoraAdapter<'_>) -> (r: i32)
        ensures
            call_ensures(T::rkllm_load_lora, (&**self, handle, lora_adapter), r),
    {
        (**self).rkllm_load_lora(handle, lora_adapter)
    }

    fn rkllm_load_prompt_cache(&self, handle: LLMHandle, prompt_cache_path: &CString) -> (r: i32)
        ensures
            call_ensures(T::rkllm_load_prompt_cache, (&**self, handle, prompt_cache_path), r),
    {
        (**self).rkllm_load_prompt_cache(handle, prompt_cache_path)
    }

    fn rkllm_release_prompt_cache(&self, handle: LLMHandle) -> (r: i32)
        ensures
            call_ensures(T::rkllm_release_prompt_cache, (&**self, handle), r),
    {
        (**self).rkllm_release_prompt_cache(handle)
    }

    fn rkllm_destroy(&self, handle: LLMHandle) -> (r: i32)
        ensures
            call_ensures(T::rkllm_destroy, (&**self, handle), r),
    {
        (**self).rkllm_destroy(handle)
    }

    open spec fn may_run(
        &self,
        handle: LLMHandle,
        inputs: Seq<RKLLMInput<'_>>,
        params: RKLLMInferParam<'_>,
        reports: Seq<Report>,
        code: i32,
    ) -> bool {
        (**self).may_run(handle, inputs, params, reports, code)
    }

    fn rkllm_run<C: ResultCallback>(
        &self,
        handle: LLMHandle,
        rkllm_input: &[RKLLMInput<'_>],
        rkllm_infer_params: &RKLLMInferParam<'_>,
        userdata: &mut C,
    ) -> (code: i32)
    {
        let code: i32 = (**self).rkllm_run(handle, rkllm_input, rkllm_infer_params, userdata);
        proof {
            let reports = choose|reports: Seq<Report>|
                {
                    &&& userdata.reported() == old(userdata).reported() + reports
                    &&& #[trigger] (**self).may_run(
                        handle,
                        rkllm_input@,
                        *rkllm_infer_params,
                        reports,
                        code,
                    )
                };
            assert(self.may_run(handle, rkllm_input@, *rkllm_infer_params, reports, code));
        }
        code
    }

    fn rkllm_abort(&self, handle: LLMHandle) -> (r: i32)
        ensures
            call_ensures(T::rkllm_abort, (&**self, handle), r),
    {
        (**self).rkllm_abort(handle)
    }

    fn rkllm_is_running(&self, handle: LLMHandle) -> (r: i32)
        ensures
            call_ensures(T::rkllm_is_running, (&**self, handle), r),
    {
        (**self).rkllm_is_running(handle)
    }

    fn rkllm_clear_kv_cache(
        &self,
        handle: LLMHandle,
        keep_system_prompt: i32,
        start_pos: Option<&[i32]>,
        end_pos: Option<&[i32]>,
    ) -> (r: i32)
        ensures
            call_ensures(
                T::rkllm_clear_kv_cache,
                (&**self, handle, keep_system_prompt, start_pos, end_pos),
                r,
            ),
    {
        (**self).rkllm_clear_kv_cache(handle, keep_system_prompt, start_pos, end_pos)
    }

    fn rkllm_get_kv_cache_size(&self, handle: LLMHandle, cache_sizes: &mut [i32]) -> (code: i32)
        ensures
            exists|s: &mut [i32]|
                s@ == old(cache_sizes)@ && final(s)@ == final(cache_sizes)@
                    && #[trigger] call_ensures(
                    T::rkllm_get_kv_cache_size,
                    (&**self, handle, s),
                    code,
                ),
    {
        (**self).rkllm_get_kv_cache_size(handle, cache_sizes)
    }

    fn rkllm_set_chat_template(
        &self,
        handle: LLMHandle,
        system_prompt: Option<&CString>,
        prompt_prefix: Option<&CString>,
        prompt_postfix: Option<&CString>,
    ) -> (r: i32)
        ensures
            call_ensures(
                T::rkllm_set_chat_template,
                (&**self, handle, system_prompt, prompt_prefix, prompt_postfix),
                r,
            ),
    {
        (**self).rkllm_set_chat_template(handle, system_prompt, prompt_prefix, prompt_postfix)
    }

    fn rkllm_set_function_tools(
        &self,
        handle: LLMHandle,
        system_prompt: Option<&CString>,
        tools: Option<&CString>,
        tool_response_str: Option<&CString>,
    ) -> (r: i32)
        ensures
            call_ensures(
                T::rkllm_set_function_tools,
                (&**self, handle, system_prompt, tools, tool_response_str),
                r,
            ),
    {
        (**self).rkllm_set_function_tools(handle, system_prompt, tools, tool_response_str)
    }
}

/// Shared bindings forward every call to them, so several sessions can use one
/// loaded library.
#[allow(non_snake_case)]
impl<T: RkllmApi> RkllmApi for Arc<T> {
    fn rkllm_createDefaultParam<'p>(&self) -> (r: RKLLMParam<'p>)
        ensures
            call_ensures(T::rkllm_createDefaultParam, (&**self,), r),
    {
        (**self).rkllm_createDefaultParam()
    }

    fn rkllm_init<'p>(
        &self,
        handle: &mut LLMHandle,
        param: &mut RKLLMParam<'p>,
        callback: &RKLLMCallback,
    ) -> (r: i32)
        ensures
            exists|h: &mut LLMHandle, p: &mut RKLLMParam<'p>|
                *h == *old(handle) && *final(h) == *final(handle) && *p == *old(param) && *final(p)
                    == *final(param) && #[trigger] call_ensures(
                    T::rkllm_init,
                    (&**self, h, p, callback),
                    r,
                ),
    {
        (**self).rkllm_init(handle, param, callback)
    }

    fn rkllm_load_lora(&self, handle: LLMHandle, lora_adapter: &RKLLMLoraAdapter<'_>) -> (r: i32)
        ensures
            call_ensures(T::rkllm_load_lora, (&**self, handle, lora_adapter), r),
    {
        (**self).rkllm_load_lora(handle, lora_adapter)
    }

    fn rkllm_load_prompt_cache(&self, handle: LLMHandle, prompt_cache_path: &CString) -> (r: i32)
        ensures
            call_ensures(T::rkllm_load_prompt_cache, (&**self, handle, prompt_cache_path), r),
    {
        (**self).rkllm_load_prompt_cache(handle, prompt_cache_path)
    }

    fn rkllm_release_prompt_cache(&self, handle: LLMHandle) -> (r: i32)
        ensures
            call_ensures(T::rkllm_release_prompt_cache, (&**self, handle), r),
    {
        (**self).rkllm_release_prompt_cache(handle)
    }

    fn rkllm_destroy(&self, handle: LLMHandle) -> (r: i32)
        ensures
            call_ensures(T::rkllm_destroy, (&**self, handle), r),
    {
        (**self).rkllm_destroy(handle)
    }

    open spec fn may_run(
        &self,
        handle: LLMHandle,
        inputs: Seq<RKLLMInput<'_>>,
        params: RKLLMInferParam<'_>,
        reports: Seq<Report>,
        code: i32,
    ) -> bool {
        (**self).may_run(handle, inputs, params, reports, code)
    }

    fn rkllm_run<C: ResultCallback>(
        &self,
        handle: LLMHandle,
        rkllm_input: &[RKLLMInput<'_>],
        rkllm_infer_params: &RKLLMInferParam<'_>,
        userdata: &mut C,
    ) -> (code: i32)
    {
        let code: i32 = (**self).rkllm_run(handle, rkllm_input, rkllm_infer_params, userdata);
        proof {
            let reports = choose|reports: Seq<Report>|
                {
                    &&& userdata.reported() == old(userdata).reported() + reports
                    &&& #[trigger] (**self).may_run(
                        handle,
                        rkllm_input@,
                        *rkllm_infer_params,
                        reports,
                        code,
                    )
                };
            assert(self.may_run(handle, rkllm_input@, *rkllm_infer_params, reports, code));
        }
        code
    }

    fn rkllm_abort(&self, handle: LLMHandle) -> (r: i32)
        ensures
            call_ensures(T::rkllm_abort, (&**self, handle), r),
    {
        (**self).rkllm_abort(handle)
    }

    fn rkllm_is_running(&self, handle: LLMHandle) -> (r: i32)
        ensures
            call_ensures(T::rkllm_is_running, (&**self, handle), r),
    {
        (**self).rkllm_is_running(handle)
    }

    fn rkllm_clear_kv_cache(
        &self,
        handle: LLMHandle,
        keep_system_prompt: i32,
        start_pos: Option<&[i32]>,
        end_pos: Option<&[i32]>,
    ) -> (r: i32)
        ensures
            call_ensures(
                T::rkllm_clear_kv_cache,
                (&**self, handle, keep_system_prompt, start_pos, end_pos),
                r,
            ),
    {
        (**self).rkllm_clear_kv_cache(handle, keep_system_prompt, start_pos, end_pos)
    }

    fn rkllm_get_kv_cache_size(&self, handle: LLMHandle, cache_sizes: &mut [i32]) -> (code: i32)
        ensures
            exists|s: &mut [i32]|
                s@ == old(cache_sizes)@ && final(s)@ == final(cache_sizes)@
                    && #[trigger] call_ensures(
                    T::rkllm_get_kv_cache_size,
                    (&**self, handle, s),
                    code,
                ),
    {
        (**self).rkllm_get_kv_cache_size(handle, cache_sizes)
    }

    fn rkllm_set_chat_template(
        &self,
        handle: LLMHandle,
        system_prompt: Option<&CString>,
        prompt_prefix: Option<&CString>,
        prompt_postfix: Option<&CString>,
    ) -> (r: i32)
        ensures
            call_ensures(
                T::rkllm_set_chat_template,
                (&**self, handle, system_prompt, prompt_prefix, prompt_postfix),
                r,
            ),
    {
        (**self).rkllm_set_chat_template(handle, system_prompt, prompt_prefix, prompt_postfix)
    }

    fn rkllm_set_function_tools(
        &self,
        handle: LLMHandle,
        system_prompt: Option<&CString>,
        tools: Option<&CString>,
        tool_response_str: Option<&CString>,
    ) -> (r: i32)
        ensures
            call_ensures(
                T::rkllm_set_function_tools,
                (&**self, handle, system_prompt, tools, tool_response_str),
                r,
            ),
    {
        (**self).rkllm_set_function_tools(handle, system_prompt, tools, tool_response_str)
    }
}

/// A run through a reference, a box or a shared pointer to bindings may go exactly as
/// a run of those bindings may.
pub proof fn pointers_run_as_what_they_point_at<T: RkllmApi>(
    api: &T,
    boxed: Box<T>,
    shared: Arc<T>,
    handle: LLMHandle,
    inputs: Seq<RKLLMInput<'_>>,
    params: RKLLMInferParam<'_>,
    reports: Seq<Report>,
    code: i32,
)
    ensures
        (&api).may_run(handle, inputs, params, reports, code) <==> api.may_run(
            handle,
            inputs,
            params,
            reports,
            code,
        ),
        boxed.may_run(handle, inputs, params, reports, code) <==> (*boxed).may_run(
            handle,
            inputs,
            params,
            reports,
            code,
        ),
        shared.may_run(handle, inputs, params, reports, code) <==> (*shared).may_run(
            handle,
            inputs,
            params,
            reports,
            code,
        ),
{
}

} // verus!
