//! The model handle, and the ways to run it.
use std::sync::Arc;

use vstd::prelude::*;

use crate::api::RkllmApi;
use crate::bindings::{
    LLMHandle, RKLLMCallback, RKLLMInferParam, RKLLMInput, RKLLMLoraAdapter, RKLLMParam,
};
use crate::callback::{CallbackState, Ended, PerBatch, PerOutput, Reply, RunCallback};
use crate::cstring::CString;
use crate::error::Error;
use crate::float::F32;
use crate::hooks::Hooks;
use crate::infer::InferParams;
use crate::input::Input;
use crate::output::{Control, Output};
use crate::param::Param;

verus! {

/// Calls `Arc::clone`, which makes another pointer to the same value.
#[verifier::external_body]
fn share<T>(shared: &Arc<T>) -> (r: Arc<T>)
    ensures
        r == *shared,
{
    Arc::clone(shared)
}

/// What `rkllm_init` comes to, given its status, the handle it wrote, and the
/// batch size it left in the parameters: the batch size of the session, or why
/// there is no session.
pub open spec fn opened(code: i32, handle: LLMHandle, n_batch: u8) -> Result<usize, Error> {
    match crate::error::checked("rkllm_init", code) {
        Err(e) => Err(e),
        Ok(()) => if handle == LLMHandle::null_handle() {
            Err(Error::NullHandle)
        } else if n_batch == 0 {
            Ok(1)
        } else {
            Ok(n_batch as usize)
        },
    }
}

/// What `rkllm_init` comes to, given its status, the handle it wrote, and the
/// batch size it left in the parameters.
pub fn check_opened(code: i32, handle: LLMHandle, n_batch: u8) -> (r: Result<usize, Error>)
    ensures
        r == opened(code, handle, n_batch),
        r matches Ok(n_batch) ==> n_batch >= 1 && handle != LLMHandle::null_handle(),
{
    Error::check("rkllm_init", code)?;
    if handle.is_null() {
        return Err(Error::NullHandle);
    }
    if n_batch == 0 {
        Ok(1)
    } else {
        Ok(n_batch as usize)
    }
}

/// A loaded model, and the runtime handle that owns it.
///
/// The type parameter is which set of bindings to dispatch through. Whoever is
/// done with a session ends it with [`RkllmSession::destroy`]. One that merely goes
/// out of scope leaves its model loaded.
///
/// # Threads
///
/// Only one call may be inside the runtime at a time, and nothing here enforces
/// that. Whoever shares a session between threads makes its runs, and the calls
/// that load, clear, read or configure something, wait for one another.
///
/// [`RkllmSession::abort`] and [`RkllmSession::is_running`] are the exception,
/// since their whole purpose is to be called from another thread while a run is
/// blocked inside the runtime. They are also all that a callback may call on the
/// session whose run it belongs to.
pub struct RkllmSession<A: RkllmApi> {
    api: A,
    handle: LLMHandle,
    n_batch: usize,
    /// Shared with the runtime, which `rkllm_init` told where to find it.
    hooks: Arc<Hooks>,
}

/// The callbacks registered for `hooks`: each one exactly when it is supplied,
/// so a model with its own tokenizer or embedding layer goes on using it.
pub open spec fn registered(hooks: Hooks, callback: RKLLMCallback) -> bool {
    &&& callback.tokenizer_userdata is Some <==> hooks.tokenizer is Some
    &&& callback.tokenizer_userdata matches Some(userdata) ==> *userdata == hooks
    &&& callback.embed_userdata is Some <==> hooks.embedding is Some
    &&& callback.embed_userdata matches Some(userdata) ==> *userdata == hooks
}

/// The messages that a slice of inputs holds.
pub open spec fn messages(inputs: Seq<Input>) -> Seq<crate::input::Message> {
    inputs.map_values(|input: Input| input@)
}

/// Whether `raw` tells the runtime `messages`, in the same order.
pub open spec fn all_passed_as(
    messages: Seq<crate::input::Message>,
    raw: Seq<RKLLMInput<'_>>,
) -> bool {
    &&& raw.len() == messages.len()
    &&& forall|i: int| 0 <= i < raw.len() ==> messages[i].passed_as(#[trigger] raw[i])
}

/// The outcome of a run, unless its callback panicked.
pub open spec fn unless(panicked: bool, outcome: Result<(), Error>) -> Option<Result<(), Error>> {
    if panicked {
        None
    } else {
        Some(outcome)
    }
}

/// The outcome of a run, unless its callback panicked. Where there was no run, no
/// callback did.
fn unless_panicked(ended: Option<Ended>, outcome: Result<(), Error>) -> (r: Option<
    Result<(), Error>,
>)
    ensures
        r == unless(ended is Some && ended->0.has_panicked(), outcome),
{
    match ended {
        Some(ended) => if ended.panicked() {
            None
        } else {
            Some(outcome)
        },
        None => Some(outcome),
    }
}

impl<A: RkllmApi> RkllmSession<A> {
    /// The bindings this session dispatches through.
    pub closed spec fn bindings(self) -> A {
        self.api
    }

    /// The runtime's name for the model.
    pub closed spec fn model(self) -> LLMHandle {
        self.handle
    }

    /// How many inputs this session runs per forward pass.
    pub closed spec fn batch_size(self) -> usize {
        self.n_batch
    }

    /// The callbacks the model may require.
    pub closed spec fn supplied(self) -> Hooks {
        *self.hooks
    }

    #[verifier::type_invariant]
    spec fn is_open(self) -> bool {
        self.n_batch >= 1 && self.handle != LLMHandle::null_handle()
    }

    /// Loads a model through `api`, and returns the session that owns it.
    pub fn new(api: A, param: &Param) -> (r: Result<RkllmSession<A>, Error>)
        ensures
            call_ensures(RkllmSession::<A>::with_api, (api, param), r),
    {
        RkllmSession::with_api(api, param)
    }

    /// Loads a model through `api`, and returns the session that owns it.
    ///
    /// Loads it as [`RkllmSession::with_api_and_hooks`] does, with no callbacks.
    pub fn with_api(api: A, param: &Param) -> (r: Result<RkllmSession<A>, Error>)
        ensures
            exists|none: Hooks|
                none.tokenizer is None && none.embedding is None && #[trigger] call_ensures(
                    RkllmSession::<A>::with_api_and_hooks,
                    (api, param, none),
                    r,
                ),
    {
        RkllmSession::with_api_and_hooks(api, param, Hooks::default())
    }

    /// Loads a model through `api`, and returns the session that owns it, with
    /// callbacks the model may require.
    pub fn with_api_and_hooks(api: A, param: &Param, hooks: Hooks) -> (r: Result<
        RkllmSession<A>,
        Error,
    >)
        ensures
            exists|
                defaults: RKLLMParam<'_>,
                handle: &mut LLMHandle,
                raw: &mut RKLLMParam<'_>,
                callback: &RKLLMCallback,
                code: i32,
            |
                {
                    &&& #[trigger] call_ensures(A::rkllm_createDefaultParam, (&api,), defaults)
                    &&& *handle == LLMHandle::null_handle()
                    &&& param@.lays_over(defaults, *raw)
                    &&& registered(hooks, *callback)
                    &&& #[trigger] call_ensures(A::rkllm_init, (&api, handle, raw, callback), code)
                    &&& match opened(code, *final(handle), final(raw).extend_param.n_batch) {
                        Err(e) => r == Err::<RkllmSession<A>, Error>(e),
                        Ok(n_batch) => {
                            &&& r is Ok
                            &&& r->Ok_0.bindings() == api
                            &&& r->Ok_0.model() == *final(handle)
                            &&& r->Ok_0.batch_size() == n_batch
                            &&& r->Ok_0.supplied() == hooks
                        },
                    }
                },
    {
        // Start from this runtime's own defaults, then lay the caller's
        // settings over the top.
        let mut raw_param = api.rkllm_createDefaultParam();
        param.apply_to(&mut raw_param);

        let hooks = Arc::new(hooks);
        let callback = RKLLMCallback {
            tokenizer_userdata: if hooks.tokenizer.is_some() {
                Some(share(&hooks))
            } else {
                None
            },
            embed_userdata: if hooks.embedding.is_some() {
                Some(share(&hooks))
            } else {
                None
            },
        };

        let mut handle = LLMHandle::null();
        let code: i32 = api.rkllm_init(&mut handle, &mut raw_param, &callback);
        // The batch size is read back rather than from the `Param`, so an unset
        // one picks up whatever default this build of the runtime uses. Every
        // later call is sized against this, so it must match what the runtime
        // will read.
        match check_opened(code, handle, raw_param.extend_param.n_batch) {
            Ok(n_batch) => Ok(RkllmSession { api, handle, n_batch, hooks }),
            Err(e) => Err(e),
        }
    }

    /// Whether these are what the runtime is handed for a run of `inputs` with
    /// `settings`, reporting to `receiver`: every input in order, the settings,
    /// and a state in which nothing has happened yet.
    pub open spec fn hands_over<C: RunCallback>(
        self,
        inputs: Seq<crate::input::Message>,
        settings: crate::infer::RunSettings,
        receiver: C,
        raw_inputs: Seq<RKLLMInput<'_>>,
        raw_params: RKLLMInferParam<'_>,
        state: CallbackState<C>,
    ) -> bool {
        &&& all_passed_as(inputs, raw_inputs)
        &&& settings.passed_as(raw_params)
        &&& state.is_fresh(receiver, self.batch_size())
    }

    /// Runs every input of a batch. Returns what the run came to, if there was one,
    /// and the outcome.
    fn run_batch<C: RunCallback>(
        &self,
        inputs: &[Input],
        params: &InferParams,
        callback: C,
    ) -> (r: (Option<Ended>, Result<(), Error>))
        requires
            callback.ready(),
        ensures
            r.0 is None <==> inputs@.len() != self.batch_size(),
            inputs@.len() != self.batch_size() ==> r.1 == Err::<(), Error>(
                Error::BatchSizeMismatch {
                    expected: self.batch_size(),
                    given: inputs@.len() as usize,
                },
            ),
            inputs@.len() == self.batch_size() ==> exists|
                raw_inputs: &[RKLLMInput<'_>],
                raw_params: &RKLLMInferParam<'_>,
                state: &mut CallbackState<C>,
                code: i32,
            |
                {
                    &&& self.hands_over(
                        messages(inputs@),
                        params@,
                        callback,
                        raw_inputs@,
                        *raw_params,
                        *state,
                    )
                    &&& #[trigger] call_ensures(
                        A::rkllm_run::<CallbackState<C>>,
                        (&self.bindings(), self.model(), raw_inputs, raw_params, state),
                        code,
                    )
                    &&& final(state).is_outcome(callback, self.batch_size())
                    &&& self.bindings().may_run(
                        self.model(),
                        raw_inputs@,
                        *raw_params,
                        final(state).calls(),
                        code,
                    )
                    &&& r.0 is Some
                    &&& r.0->0.has_panicked() == final(state).has_panicked()
                    &&& r.0->0.calls() == final(state).calls()
                    &&& r.0->0.heard() == final(state).heard()
                    &&& r.1 == crate::error::checked("rkllm_run", code)
                },
    {
        if inputs.len() != self.n_batch {
            return (
                None,
                Err(Error::BatchSizeMismatch { expected: self.n_batch, given: inputs.len() }),
            );
        }
        // The runtime reads `n_batch` contiguous inputs, so they have to be laid
        // out as one array rather than handed over one at a time.
        let mut raw_inputs: Vec<RKLLMInput<'_>> = Vec::new();
        let mut i: usize = 0;
        while i < inputs.len()
            invariant
                i <= inputs.len(),
                raw_inputs@.len() == i,
                forall|j: int| 0 <= j < i ==> inputs@[j]@.passed_as(#[trigger] raw_inputs@[j]),
            decreases inputs.len() - i,
        {
            raw_inputs.push(inputs[i].as_raw());
            i += 1;
        }
        self.run_raw(raw_inputs.as_slice(), params, callback)
    }

    /// The one path into `rkllm_run`, shared by every run method.
    fn run_raw<C: RunCallback>(
        &self,
        raw_inputs: &[RKLLMInput<'_>],
        params: &InferParams,
        callback: C,
    ) -> (r: (Option<Ended>, Result<(), Error>))
        requires
            callback.ready(),
            raw_inputs@.len() == self.batch_size(),
        ensures
            exists|raw_params: &RKLLMInferParam<'_>, state: &mut CallbackState<C>, code: i32|
                {
                    &&& params@.passed_as(*raw_params)
                    &&& state.is_fresh(callback, self.batch_size())
                    &&& #[trigger] call_ensures(
                        A::rkllm_run::<CallbackState<C>>,
                        (&self.bindings(), self.model(), raw_inputs, raw_params, state),
                        code,
                    )
                    &&& final(state).is_outcome(callback, self.batch_size())
                    &&& self.bindings().may_run(
                        self.model(),
                        raw_inputs@,
                        *raw_params,
                        final(state).calls(),
                        code,
                    )
                    &&& r.0 is Some
                    &&& r.0->0.has_panicked() == final(state).has_panicked()
                    &&& r.0->0.calls() == final(state).calls()
                    &&& r.0->0.heard() == final(state).heard()
                    &&& r.1 == crate::error::checked("rkllm_run", code)
                },
    {
        proof {
            use_type_invariant(self);
        }
        let scratch = params.scratch();
        let raw_params = scratch.as_raw();
        let mut state = CallbackState::new(callback, self.n_batch);
        let code: i32 = self.api.rkllm_run(self.handle, raw_inputs, &raw_params, &mut state);
        assert(self.bindings() == self.api && self.model() == self.handle);
        proof {
            let reports = choose|reports: Seq<crate::callback::Report>|
                {
                    &&& state.calls() == Seq::<crate::callback::Report>::empty() + reports
                    &&& #[trigger] self.api.may_run(
                        self.handle,
                        raw_inputs@,
                        raw_params,
                        reports,
                        code,
                    )
                };
            assert(state.calls() =~= reports);
        }
        (Some(state.end()), Error::check("rkllm_run", code))
    }

    /// Runs one input, calling `callback` for every chunk the runtime produces.
    ///
    /// This blocks until the run finishes, fails, or the callback returns
    /// [`Control::Pause`]. The callback fires on this thread. Of this session it
    /// must call nothing but [`RkllmSession::abort`] and
    /// [`RkllmSession::is_running`], since the runtime is still inside the run.
    ///
    /// Each [`Output`] borrows buffers the runtime owns and reuses, so it
    /// cannot escape the callback. Call [`Output::to_chunk`] to keep a copy.
    ///
    /// A callback that may panic belongs with
    /// [`RkllmSession::run_llm_guarded`].
    ///
    /// Fails with [`Error::NotSingleBatch`] on a session built for a larger
    /// batch, where [`RkllmSession::run_llm_batch`] is the call to use.
    pub fn run_llm<F: FnMut(Output<'_>) -> Control>(
        &self,
        input: &mut Input,
        params: &InferParams,
        callback: F,
    ) -> (r: Result<(), Error>)
        requires
            forall|output: Output<'_>| call_requires(callback, (output,)),
        ensures
            *final(input) == *old(input),
            self.batch_size() != 1 ==> r == Err::<(), Error>(
                Error::NotSingleBatch { n_batch: self.batch_size() },
            ),
            r matches Err(Error::NotSingleBatch { .. }) ==> self.batch_size() != 1,
            !(r matches Err(Error::BatchSizeMismatch { .. })),
            self.batch_size() == 1 ==> exists|
                raw_inputs: &[RKLLMInput<'_>],
                raw_params: &RKLLMInferParam<'_>,
                state: &mut CallbackState<PerOutput<F>>,
                code: i32,
            |
                {
                    &&& self.hands_over(
                        seq![old(input)@],
                        params@,
                        PerOutput { closure: callback },
                        raw_inputs@,
                        *raw_params,
                        *state,
                    )
                    &&& #[trigger] call_ensures(
                        A::rkllm_run::<CallbackState<PerOutput<F>>>,
                        (&self.bindings(), self.model(), raw_inputs, raw_params, state),
                        code,
                    )
                    &&& final(state).is_outcome(
                        PerOutput { closure: callback },
                        self.batch_size(),
                    )
                    &&& self.bindings().may_run(
                        self.model(),
                        raw_inputs@,
                        *raw_params,
                        final(state).calls(),
                        code,
                    )
                    &&& r == crate::error::checked("rkllm_run", code)
                },
    {
        if self.n_batch != 1 {
            return Err(Error::NotSingleBatch { n_batch: self.n_batch });
        }
        let (_, outcome) = self.run_one(input, params, PerOutput { closure: callback });
        outcome
    }

    /// Runs one input as [`RkllmSession::run_llm`] does, for a callback that
    /// catches its own panics and answers `None` after one.
    ///
    /// The run is stopped at the first such answer, and the callback is not
    /// called again. Returns `None` once the runtime has returned, so the caller
    /// can resume the panic. What a callback must not call is said at
    /// [`RkllmSession::run_llm`].
    pub fn run_llm_guarded<F: FnMut(Output<'_>) -> Option<Control>>(
        &self,
        input: &mut Input,
        params: &InferParams,
        callback: F,
    ) -> (r: Option<Result<(), Error>>)
        requires
            forall|output: Output<'_>| call_requires(callback, (output,)),
        ensures
            *final(input) == *old(input),
            self.batch_size() != 1 ==> r == Some(
                Err::<(), Error>(Error::NotSingleBatch { n_batch: self.batch_size() }),
            ),
            self.batch_size() == 1 ==> exists|
                raw_inputs: &[RKLLMInput<'_>],
                raw_params: &RKLLMInferParam<'_>,
                state: &mut CallbackState<PerOutput<F>>,
                code: i32,
            |
                {
                    &&& self.hands_over(
                        seq![old(input)@],
                        params@,
                        PerOutput { closure: callback },
                        raw_inputs@,
                        *raw_params,
                        *state,
                    )
                    &&& #[trigger] call_ensures(
                        A::rkllm_run::<CallbackState<PerOutput<F>>>,
                        (&self.bindings(), self.model(), raw_inputs, raw_params, state),
                        code,
                    )
                    &&& final(state).is_outcome(
                        PerOutput { closure: callback },
                        self.batch_size(),
                    )
                    &&& self.bindings().may_run(
                        self.model(),
                        raw_inputs@,
                        *raw_params,
                        final(state).calls(),
                        code,
                    )
                    &&& r == unless(final(state).has_panicked(), crate::error::checked("rkllm_run", code))
                    &&& r is None ==> final(state).was_stopped()
                },
    {
        if self.n_batch != 1 {
            return Some(Err(Error::NotSingleBatch { n_batch: self.n_batch }));
        }
        let (ended, outcome) = self.run_one(input, params, PerOutput { closure: callback });
        unless_panicked(ended, outcome)
    }

    /// Runs the one input that a batch of one holds.
    fn run_one<C: RunCallback>(&self, input: &Input, params: &InferParams, callback: C) -> (r: (
        Option<Ended>,
        Result<(), Error>,
    ))
        requires
            callback.ready(),
            self.batch_size() == 1,
        ensures
            exists|
                raw_inputs: &[RKLLMInput<'_>],
                raw_params: &RKLLMInferParam<'_>,
                state: &mut CallbackState<C>,
                code: i32,
            |
                {
                    &&& self.hands_over(
                        seq![input@],
                        params@,
                        callback,
                        raw_inputs@,
                        *raw_params,
                        *state,
                    )
                    &&& #[trigger] call_ensures(
                        A::rkllm_run::<CallbackState<C>>,
                        (&self.bindings(), self.model(), raw_inputs, raw_params, state),
                        code,
                    )
                    &&& final(state).is_outcome(callback, self.batch_size())
                    &&& self.bindings().may_run(
                        self.model(),
                        raw_inputs@,
                        *raw_params,
                        final(state).calls(),
                        code,
                    )
                    &&& r.0 is Some
                    &&& r.0->0.has_panicked() == final(state).has_panicked()
                    &&& r.0->0.calls() == final(state).calls()
                    &&& r.0->0.heard() == final(state).heard()
                    &&& r.1 == crate::error::checked("rkllm_run", code)
                },
    {
        let raw_inputs = vec![input.as_raw()];
        self.run_raw(raw_inputs.as_slice(), params, callback)
    }

    /// Runs `inputs` side by side, one generation per entry.
    ///
    /// The slice must hold exactly [`RkllmSession::n_batch`] inputs, since that
    /// is how many the runtime reads. The callback receives one [`Output`] per
    /// entry, in the same order, and returns a single [`Control`] governing the
    /// whole run, because the C API takes one decision for all of them.
    ///
    /// What a callback must not call is said at [`RkllmSession::run_llm`].
    ///
    /// A batch entry that has stopped generating reports
    /// [`Output::is_finished`]. The run ends once every entry has.
    ///
    /// # The slice is shorter in the final states
    ///
    /// Under [`CallState::Finish`](crate::CallState::Finish) and
    /// [`CallState::Error`](crate::CallState::Error) the callback gets a single
    /// output rather than one per entry. Those states carry run-wide
    /// information, the perf statistics among it. Reading further would mean
    /// trusting that the array is still `n_batch` long, which nothing documents.
    pub fn run_llm_batch<F: FnMut(&[Output<'_>]) -> Control>(
        &self,
        inputs: &mut [Input],
        params: &InferParams,
        callback: F,
    ) -> (r: Result<(), Error>)
        requires
            forall|outputs: &[Output<'_>]| call_requires(callback, (outputs,)),
        ensures
            final(inputs)@ == old(inputs)@,
            old(inputs)@.len() != self.batch_size() ==> r == Err::<(), Error>(
                Error::BatchSizeMismatch {
                    expected: self.batch_size(),
                    given: old(inputs)@.len() as usize,
                },
            ),
            old(inputs)@.len() == self.batch_size() ==> exists|
                raw_inputs: &[RKLLMInput<'_>],
                raw_params: &RKLLMInferParam<'_>,
                state: &mut CallbackState<PerBatch<F>>,
                code: i32,
            |
                {
                    &&& self.hands_over(
                        messages(old(inputs)@),
                        params@,
                        PerBatch { closure: callback },
                        raw_inputs@,
                        *raw_params,
                        *state,
                    )
                    &&& #[trigger] call_ensures(
                        A::rkllm_run::<CallbackState<PerBatch<F>>>,
                        (&self.bindings(), self.model(), raw_inputs, raw_params, state),
                        code,
                    )
                    &&& final(state).is_outcome(
                        PerBatch { closure: callback },
                        self.batch_size(),
                    )
                    &&& self.bindings().may_run(
                        self.model(),
                        raw_inputs@,
                        *raw_params,
                        final(state).calls(),
                        code,
                    )
                    &&& r == crate::error::checked("rkllm_run", code)
                },
    {
        let (_, outcome) = self.run_batch(inputs, params, PerBatch { closure: callback });
        outcome
    }

    /// Runs `inputs` as [`RkllmSession::run_llm_batch`] does, for a callback
    /// that catches its own panics and answers `None` after one.
    ///
    /// The run is stopped at the first such answer, and the callback is not
    /// called again. Returns `None` once the runtime has returned, so the caller
    /// can resume the panic. What a callback must not call is said at
    /// [`RkllmSession::run_llm`].
    pub fn run_llm_batch_guarded<F: FnMut(&[Output<'_>]) -> Option<Control>>(
        &self,
        inputs: &mut [Input],
        params: &InferParams,
        callback: F,
    ) -> (r: Option<Result<(), Error>>)
        requires
            forall|outputs: &[Output<'_>]| call_requires(callback, (outputs,)),
        ensures
            final(inputs)@ == old(inputs)@,
            old(inputs)@.len() != self.batch_size() ==> r == Some(
                Err::<(), Error>(
                    Error::BatchSizeMismatch {
                        expected: self.batch_size(),
                        given: old(inputs)@.len() as usize,
                    },
                ),
            ),
            old(inputs)@.len() == self.batch_size() ==> exists|
                raw_inputs: &[RKLLMInput<'_>],
                raw_params: &RKLLMInferParam<'_>,
                state: &mut CallbackState<PerBatch<F>>,
                code: i32,
            |
                {
                    &&& self.hands_over(
                        messages(old(inputs)@),
                        params@,
                        PerBatch { closure: callback },
                        raw_inputs@,
                        *raw_params,
                        *state,
                    )
                    &&& #[trigger] call_ensures(
                        A::rkllm_run::<CallbackState<PerBatch<F>>>,
                        (&self.bindings(), self.model(), raw_inputs, raw_params, state),
                        code,
                    )
                    &&& final(state).is_outcome(
                        PerBatch { closure: callback },
                        self.batch_size(),
                    )
                    &&& self.bindings().may_run(
                        self.model(),
                        raw_inputs@,
                        *raw_params,
                        final(state).calls(),
                        code,
                    )
                    &&& r == unless(final(state).has_panicked(), crate::error::checked("rkllm_run", code))
                    &&& r is None ==> final(state).was_stopped()
                },
    {
        let (ended, outcome) = self.run_batch(inputs, params, PerBatch { closure: callback });
        unless_panicked(ended, outcome)
    }

    /// Stops the run currently in flight, if there is one.
    ///
    /// Safe to call from another thread while [`RkllmSession::run_llm`] blocks,
    /// which is the point of it.
    pub fn abort(&self) -> (r: Result<(), Error>)
        ensures
            exists|code: i32|
                #[trigger] call_ensures(A::rkllm_abort, (&self.bindings(), self.model()), code) && r
                    == crate::error::checked("rkllm_abort", code),
    {
        let code: i32 = self.api.rkllm_abort(self.handle);
        assert(call_ensures(A::rkllm_abort, (&self.bindings(), self.model()), code));
        Error::check("rkllm_abort", code)
    }

    /// Whether a run is in flight.
    pub fn is_running(&self) -> (r: bool)
        ensures
            exists|code: i32|
                #[trigger] call_ensures(A::rkllm_is_running, (&self.bindings(), self.model()), code)
                    && r == (code == 1),
    {
        let code: i32 = self.api.rkllm_is_running(self.handle);
        assert(call_ensures(A::rkllm_is_running, (&self.bindings(), self.model()), code));
        code == 1
    }

    /// Loads a LoRA adapter, which later runs can select by name.
    pub fn load_lora(&self, path: Vec<u8>, name: Vec<u8>, scale: F32) -> (r: Result<(), Error>)
        ensures
            !crate::cstring::nul_free(path@) ==> r is Err && crate::error::refused_nul(
                r->Err_0,
                "lora_adapter_path",
                path@,
            ),
            crate::cstring::nul_free(path@) && !crate::cstring::nul_free(name@) ==> r is Err
                && crate::error::refused_nul(r->Err_0, "lora_adapter_name", name@),
            crate::cstring::nul_free(path@) && crate::cstring::nul_free(name@) ==> exists|
                adapter: &RKLLMLoraAdapter<'_>,
                code: i32,
            |
                {
                    &&& adapter.lora_adapter_path@ == path@
                    &&& adapter.lora_adapter_name@ == name@
                    &&& adapter.scale == scale
                    &&& #[trigger] call_ensures(
                        A::rkllm_load_lora,
                        (&self.bindings(), self.model(), adapter),
                        code,
                    )
                    &&& r == crate::error::checked("rkllm_load_lora", code)
                },
    {
        let path = match CString::new(path) {
            Ok(path) => path,
            Err(e) => return Err(Error::nul("lora_adapter_path", &e)),
        };
        let name = match CString::new(name) {
            Ok(name) => name,
            Err(e) => return Err(Error::nul("lora_adapter_name", &e)),
        };
        let adapter = RKLLMLoraAdapter {
            lora_adapter_path: &path,
            lora_adapter_name: &name,
            scale,
        };
        let code: i32 = self.api.rkllm_load_lora(self.handle, &adapter);
        assert(call_ensures(
            A::rkllm_load_lora,
            (&self.bindings(), self.model(), &adapter),
            code,
        ));
        Error::check("rkllm_load_lora", code)
    }

    /// Loads a prompt cache from disk.
    pub fn load_prompt_cache(&self, path: Vec<u8>) -> (r: Result<(), Error>)
        ensures
            !crate::cstring::nul_free(path@) ==> r is Err && crate::error::refused_nul(
                r->Err_0,
                "prompt_cache_path",
                path@,
            ),
            crate::cstring::nul_free(path@) ==> exists|given: &CString, code: i32|
                {
                    &&& given@ == path@
                    &&& #[trigger] call_ensures(
                        A::rkllm_load_prompt_cache,
                        (&self.bindings(), self.model(), given),
                        code,
                    )
                    &&& r == crate::error::checked("rkllm_load_prompt_cache", code)
                },
    {
        let path = match CString::new(path) {
            Ok(path) => path,
            Err(e) => return Err(Error::nul("prompt_cache_path", &e)),
        };
        let code: i32 = self.api.rkllm_load_prompt_cache(self.handle, &path);
        assert(call_ensures(
            A::rkllm_load_prompt_cache,
            (&self.bindings(), self.model(), &path),
            code,
        ));
        Error::check("rkllm_load_prompt_cache", code)
    }

    /// Drops the loaded prompt cache.
    pub fn release_prompt_cache(&self) -> (r: Result<(), Error>)
        ensures
            exists|code: i32|
                #[trigger] call_ensures(A::rkllm_release_prompt_cache, (&self.bindings(), self.model()), code) && r
                    == crate::error::checked("rkllm_release_prompt_cache", code),
    {
        let code: i32 = self.api.rkllm_release_prompt_cache(self.handle);
        assert(call_ensures(A::rkllm_release_prompt_cache, (&self.bindings(), self.model()), code));
        Error::check("rkllm_release_prompt_cache", code)
    }

    /// Clears the whole key-value cache, optionally keeping the system prompt.
    ///
    /// Null position arrays mean all of it.
    pub fn clear_kv_cache(&self, keep_system_prompt: bool) -> (r: Result<(), Error>)
        ensures
            exists|keep: i32, code: i32|
                {
                    &&& keep == crate::param::flag(keep_system_prompt)
                    &&& #[trigger] call_ensures(
                        A::rkllm_clear_kv_cache,
                        (&self.bindings(), self.model(), keep, None, None),
                        code,
                    )
                    &&& r == crate::error::checked("rkllm_clear_kv_cache", code)
                },
    {
        let keep: i32 = if keep_system_prompt {
            1
        } else {
            0
        };
        let code: i32 = self.api.rkllm_clear_kv_cache(self.handle, keep, None, None);
        assert(call_ensures(
            A::rkllm_clear_kv_cache,
            (&self.bindings(), self.model(), keep, None, None),
            code,
        ));
        Error::check("rkllm_clear_kv_cache", code)
    }

    /// Clears one half-open range of the key-value cache per batch entry.
    ///
    /// The slice must hold exactly [`RkllmSession::n_batch`] ranges, since that
    /// is how many the runtime reads.
    ///
    /// # The runtime ignores this unless the run is paused
    ///
    /// A range only takes effect when the run was configured with
    /// [`InferParams::keep_history`] set to `false` and is currently suspended,
    /// which means the callback returned [`Control::Pause`]. Outside that, the
    /// call succeeds and changes nothing.
    ///
    /// Use [`RkllmSession::clear_kv_cache`] to clear the whole cache instead.
    pub fn clear_kv_cache_ranges(&self, ranges: &[(i32, i32)]) -> (r: Result<(), Error>)
        ensures
            ranges@.len() != self.batch_size() ==> r == Err::<(), Error>(
                Error::BatchSizeMismatch {
                    expected: self.batch_size(),
                    given: ranges@.len() as usize,
                },
            ),
            ranges@.len() == self.batch_size() ==> exists|start: &[i32], end: &[i32], code: i32|
                {
                    &&& start@ == ranges@.map_values(|range: (i32, i32)| range.0)
                    &&& end@ == ranges@.map_values(|range: (i32, i32)| range.1)
                    &&& #[trigger] call_ensures(
                        A::rkllm_clear_kv_cache,
                        (&self.bindings(), self.model(), 0i32, Some(start), Some(end)),
                        code,
                    )
                    &&& r == crate::error::checked("rkllm_clear_kv_cache", code)
                },
    {
        if ranges.len() != self.n_batch {
            return Err(Error::BatchSizeMismatch { expected: self.n_batch, given: ranges.len() });
        }
        // Split into the two parallel arrays the C API wants.
        let mut start: Vec<i32> = Vec::new();
        let mut end: Vec<i32> = Vec::new();
        let mut i: usize = 0;
        while i < ranges.len()
            invariant
                i <= ranges.len(),
                start@ == ranges@.take(i as int).map_values(|range: (i32, i32)| range.0),
                end@ == ranges@.take(i as int).map_values(|range: (i32, i32)| range.1),
            decreases ranges.len() - i,
        {
            assert(ranges@.take(i + 1) =~= ranges@.take(i as int).push(ranges@[i as int]));
            start.push(ranges[i].0);
            end.push(ranges[i].1);
            i += 1;
        }
        assert(ranges@.take(i as int) =~= ranges@);
        let start: &[i32] = start.as_slice();
        let end: &[i32] = end.as_slice();

        let code: i32 = self.api.rkllm_clear_kv_cache(self.handle, 0, Some(start), Some(end));
        assert(call_ensures(
            A::rkllm_clear_kv_cache,
            (&self.bindings(), self.model(), 0i32, Some(start), Some(end)),
            code,
        ));
        Error::check("rkllm_clear_kv_cache", code)
    }

    /// Reads how many positions the key-value cache holds, per batch entry.
    ///
    /// The returned vector has [`RkllmSession::n_batch`] entries.
    pub fn kv_cache_size(&self) -> (r: Result<Vec<i32>, Error>)
        ensures
            r matches Ok(sizes) ==> sizes@.len() == self.batch_size(),
            exists|sizes: &mut [i32], code: i32|
                {
                    &&& sizes@ == Seq::new(self.batch_size() as nat, |i: int| 0i32)
                    &&& #[trigger] call_ensures(
                        A::rkllm_get_kv_cache_size,
                        (&self.bindings(), self.model(), sizes),
                        code,
                    )
                    &&& match crate::error::checked("rkllm_get_kv_cache_size", code) {
                        Ok(()) => r is Ok && r->Ok_0@ == final(sizes)@,
                        Err(e) => r == Err::<Vec<i32>, Error>(e),
                    }
                },
    {
        // Sized here rather than by the caller: a length shorter than the
        // runtime's batch size would have it write out of bounds.
        let mut sizes: Vec<i32> = vec![0; self.n_batch];
        assert(sizes@ =~= Seq::new(self.batch_size() as nat, |i: int| 0i32));
        let code: i32 = self.api.rkllm_get_kv_cache_size(self.handle, sizes.as_mut_slice());
        assert(self.bindings() == self.api && self.model() == self.handle);
        match Error::check("rkllm_get_kv_cache_size", code) {
            Ok(()) => Ok(sizes),
            Err(e) => Err(e),
        }
    }

    /// Sets the chat template framing each turn.
    pub fn set_chat_template(&self, system_prompt: Vec<u8>, prompt_prefix: Vec<u8>, prompt_postfix: Vec<u8>) -> (r: Result<
        (),
        Error,
    >)
        ensures
            !crate::cstring::nul_free(system_prompt@) ==> r is Err && crate::error::refused_nul(
                r->Err_0,
                "system_prompt",
                system_prompt@,
            ),
            crate::cstring::nul_free(system_prompt@) && !crate::cstring::nul_free(prompt_prefix@) ==> r is Err
                && crate::error::refused_nul(r->Err_0, "prompt_prefix", prompt_prefix@),
            crate::cstring::nul_free(system_prompt@) && crate::cstring::nul_free(prompt_prefix@)
                && !crate::cstring::nul_free(prompt_postfix@) ==> r is Err && crate::error::refused_nul(
                r->Err_0,
                "prompt_postfix",
                prompt_postfix@,
            ),
            crate::cstring::nul_free(system_prompt@) && crate::cstring::nul_free(prompt_prefix@)
                && crate::cstring::nul_free(prompt_postfix@) ==> exists|
                first: &CString,
                second: &CString,
                third: &CString,
                code: i32,
            |
                {
                    &&& first@ == system_prompt@
                    &&& second@ == prompt_prefix@
                    &&& third@ == prompt_postfix@
                    &&& #[trigger] call_ensures(
                        A::rkllm_set_chat_template,
                        (&self.bindings(), self.model(), Some(first), Some(second), Some(third)),
                        code,
                    )
                    &&& r == crate::error::checked("rkllm_set_chat_template", code)
                },
    {
        let first = match CString::new(system_prompt) {
            Ok(text) => text,
            Err(e) => return Err(Error::nul("system_prompt", &e)),
        };
        let second = match CString::new(prompt_prefix) {
            Ok(text) => text,
            Err(e) => return Err(Error::nul("prompt_prefix", &e)),
        };
        let third = match CString::new(prompt_postfix) {
            Ok(text) => text,
            Err(e) => return Err(Error::nul("prompt_postfix", &e)),
        };
        let code: i32 = self.api.rkllm_set_chat_template(
            self.handle,
            Some(&first),
            Some(&second),
            Some(&third),
        );
        assert(call_ensures(
            A::rkllm_set_chat_template,
            (&self.bindings(), self.model(), Some(&first), Some(&second), Some(&third)),
            code,
        ));
        Error::check("rkllm_set_chat_template", code)
    }

    /// Configures function calling, with the tools given as a JSON string.
    pub fn set_function_tools(&self, system_prompt: Vec<u8>, tools: Vec<u8>, tool_response_str: Vec<u8>) -> (r: Result<
        (),
        Error,
    >)
        ensures
            !crate::cstring::nul_free(system_prompt@) ==> r is Err && crate::error::refused_nul(
                r->Err_0,
                "system_prompt",
                system_prompt@,
            ),
            crate::cstring::nul_free(system_prompt@) && !crate::cstring::nul_free(tools@) ==> r is Err
                && crate::error::refused_nul(r->Err_0, "tools", tools@),
            crate::cstring::nul_free(system_prompt@) && crate::cstring::nul_free(tools@)
                && !crate::cstring::nul_free(tool_response_str@) ==> r is Err && crate::error::refused_nul(
                r->Err_0,
                "tool_response_str",
                tool_response_str@,
            ),
            crate::cstring::nul_free(system_prompt@) && crate::cstring::nul_free(tools@)
                && crate::cstring::nul_free(tool_response_str@) ==> exists|
                first: &CString,
                second: &CString,
                third: &CString,
                code: i32,
            |
                {
                    &&& first@ == system_prompt@
                    &&& second@ == tools@
                    &&& third@ == tool_response_str@
                    &&& #[trigger] call_ensures(
                        A::rkllm_set_function_tools,
                        (&self.bindings(), self.model(), Some(first), Some(second), Some(third)),
                        code,
                    )
                    &&& r == crate::error::checked("rkllm_set_function_tools", code)
                },
    {
        let first = match CString::new(system_prompt) {
            Ok(text) => text,
            Err(e) => return Err(Error::nul("system_prompt", &e)),
        };
        let second = match CString::new(tools) {
            Ok(text) => text,
            Err(e) => return Err(Error::nul("tools", &e)),
        };
        let third = match CString::new(tool_response_str) {
            Ok(text) => text,
            Err(e) => return Err(Error::nul("tool_response_str", &e)),
        };
        let code: i32 = self.api.rkllm_set_function_tools(
            self.handle,
            Some(&first),
            Some(&second),
            Some(&third),
        );
        assert(call_ensures(
            A::rkllm_set_function_tools,
            (&self.bindings(), self.model(), Some(&first), Some(&second), Some(&third)),
            code,
        ));
        Error::check("rkllm_set_function_tools", code)
    }

    /// How many inputs this session runs per forward pass.
    ///
    /// Every run and cache call works in terms of this many entries.
    pub fn n_batch(&self) -> (r: usize)
        ensures
            r == self.batch_size(),
            r >= 1,
    {
        proof {
            use_type_invariant(self);
        }
        self.n_batch
    }

    /// The bindings this session dispatches through.
    pub fn api(&self) -> (r: &A)
        ensures
            *r == self.bindings(),
    {
        &self.api
    }

    /// The raw handle, for reaching past this wrapper into the bindings.
    ///
    /// It names a model until the session is destroyed. Calling into the runtime
    /// with it while a run is in flight is only sound for the operations the C
    /// API documents as safe to interleave.
    pub fn handle(&self) -> (r: LLMHandle)
        ensures
            r == self.model(),
            r != LLMHandle::null_handle(),
    {
        proof {
            use_type_invariant(self);
        }
        self.handle
    }

    /// Ends the session and destroys the model. What the runtime says to that
    /// makes no difference.
    pub fn destroy(self) -> (r: A)
        ensures
            r == self.bindings(),
            exists|code: i32|
                #[trigger] call_ensures(
                    A::rkllm_destroy,
                    (&self.bindings(), self.model()),
                    code,
                ),
    {
        let code: i32 = self.api.rkllm_destroy(self.handle);
        assert(call_ensures(A::rkllm_destroy, (&self.bindings(), self.model()), code));
        self.api
    }
}

/// A session is only opened on a handle that names a model, and always runs at
/// least one input.
pub proof fn an_opened_session_runs_something(code: i32, handle: LLMHandle, n_batch: u8)
    ensures
        opened(code, handle, n_batch) is Ok <==> code == 0 && handle != LLMHandle::null_handle(),
        opened(code, handle, n_batch) matches Ok(n) ==> n >= 1 && (n_batch >= 1 ==> n == n_batch),
{
}

/// The runtime is handed as many inputs as it reads: one for each entry of the
/// batch.
pub proof fn a_run_fills_the_batch<A: RkllmApi, C: RunCallback>(
    session: RkllmSession<A>,
    inputs: Seq<Input>,
    settings: crate::infer::RunSettings,
    receiver: C,
    raw_inputs: Seq<RKLLMInput<'_>>,
    raw_params: RKLLMInferParam<'_>,
    state: CallbackState<C>,
)
    requires
        inputs.len() == session.batch_size(),
        session.hands_over(
            messages(inputs),
            settings,
            receiver,
            raw_inputs,
            raw_params,
            state,
        ),
    ensures
        raw_inputs.len() == session.batch_size(),
        state.entries() == raw_inputs.len(),
{
}

/// Whether `batch` answers every callback's outputs as `single` answers the first
/// of them.
pub open spec fn answers_the_first<
    F: FnMut(Output<'_>) -> Control,
    G: FnMut(&[Output<'_>]) -> Control,
>(single: F, batch: G) -> bool {
    forall|outputs: &[Output<'_>], control: Control|
        #![trigger call_ensures(batch, (outputs,), control)]
        #![trigger call_ensures(single, (outputs@[0],), control)]
        outputs@.len() > 0 ==> (call_ensures(batch, (outputs,), control) <==> call_ensures(
            single,
            (outputs@[0],),
            control,
        ))
}

/// A call is answered alike by a closure for one output and by one for a batch
/// of one.
proof fn a_call_is_answered_alike<
    F: FnMut(Output<'_>) -> Control,
    G: FnMut(&[Output<'_>]) -> Control,
>(single: F, batch: G, report: crate::callback::Report, panicked: bool)
    requires
        answers_the_first(single, batch),
    ensures
        crate::callback::is_reply(PerOutput { closure: single }, 1, report, panicked)
            <==> crate::callback::is_reply(PerBatch { closure: batch }, 1, report, panicked),
{
    let one = PerOutput { closure: single };
    let all = PerBatch { closure: batch };
    assert forall|outputs: &[Output<'_>], decision: Option<Control>|
        #![trigger one.replies(outputs, decision)]
        #![trigger all.replies(outputs, decision)]
        outputs@.len() > 0 implies one.replies(outputs, decision) == all.replies(
        outputs,
        decision,
    ) by {
        if one.replies(outputs, decision) {
            let reply = choose|reply: Control|
                #[trigger] call_ensures(single, (outputs@[0],), reply) && reply.decision()
                    == decision;
            assert(call_ensures(batch, (outputs,), reply));
            assert(call_ensures(all.closure, (outputs,), reply));
        }
        if all.replies(outputs, decision) {
            let reply = choose|reply: Control|
                #[trigger] call_ensures(batch, (outputs,), reply) && reply.decision() == decision;
            assert(call_ensures(single, (outputs@[0],), reply));
            assert(call_ensures(one.closure, (outputs@[0],), reply));
        }
    }
}

/// A run of one input is a batch run on a slice of one: it hands the runtime the
/// same inputs and settings, and where the runtime calls back alike it is answered
/// alike, so that a run of the one may go exactly as a run of the other. The status
/// is then the outcome of both.
pub proof fn a_single_run_is_a_batch_of_one<
    A: RkllmApi,
    F: FnMut(Output<'_>) -> Control,
    G: FnMut(&[Output<'_>]) -> Control,
>(
    session: RkllmSession<A>,
    input: Input,
    settings: crate::infer::RunSettings,
    single: F,
    batch: G,
    raw_inputs: Seq<RKLLMInput<'_>>,
    raw_params: RKLLMInferParam<'_>,
    one: CallbackState<PerOutput<F>>,
    all: CallbackState<PerBatch<G>>,
    calls: Seq<crate::callback::Report>,
    deliveries: int,
    panicked: bool,
)
    requires
        session.batch_size() == 1,
        answers_the_first(single, batch),
        one.is_fresh(PerOutput { closure: single }, 1),
        all.is_fresh(PerBatch { closure: batch }, 1),
    ensures
        session.hands_over(
            seq![input@],
            settings,
            PerOutput { closure: single },
            raw_inputs,
            raw_params,
            one,
        ) <==> session.hands_over(
            messages(seq![input]),
            settings,
            PerBatch { closure: batch },
            raw_inputs,
            raw_params,
            all,
        ),
        crate::callback::may_have_gone(
            PerOutput { closure: single },
            1,
            calls,
            deliveries,
            panicked,
        ) <==> crate::callback::may_have_gone(
            PerBatch { closure: batch },
            1,
            calls,
            deliveries,
            panicked,
        ),
{
    assert(messages(seq![input]) =~= seq![input@]);
    assert forall|i: int| 0 <= i < deliveries implies crate::callback::is_reply(
        PerOutput { closure: single },
        1,
        #[trigger] calls[i],
        panicked && i == deliveries - 1,
    ) == crate::callback::is_reply(
        PerBatch { closure: batch },
        1,
        calls[i],
        panicked && i == deliveries - 1,
    ) by {
        a_call_is_answered_alike(single, batch, calls[i], panicked && i == deliveries - 1);
    }
}

} // verus!
