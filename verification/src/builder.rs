//! Building a session that needs callbacks.
use std::sync::Arc;

use vstd::prelude::*;

use crate::api::RkllmApi;
use crate::error::Error;
use crate::hooks::{EmbeddingHook, Hooks, TokenizerHook};
use crate::param::Param;
use crate::session::RkllmSession;

verus! {

/// Builds a session for a model that requires callbacks of its caller.
///
/// Most models need none of this, and [`RkllmSession::new`] is the shorter way
/// in. Reach for a builder when the model was exported without its tokenizer or
/// its embedding layer, which the runtime reports at load time by refusing to
/// initialize.
///
/// Both callbacks are registered when the model loads rather than per run, so
/// the session keeps them for as long as it lives. They must be `Send` and
/// `Sync`, since nothing documents which thread the runtime calls them from.
pub struct SessionBuilder<'a> {
    param: &'a Param,
    hooks: Hooks,
}

impl<'a> SessionBuilder<'a> {
    /// The configuration of the model.
    pub closed spec fn configuration(self) -> &'a Param {
        self.param
    }

    /// The callbacks supplied so far.
    pub closed spec fn supplied(self) -> Hooks {
        self.hooks
    }

    /// Starts a session for the model `param` points at.
    pub fn new(param: &'a Param) -> (r: SessionBuilder<'a>)
        ensures
            r.configuration() == param,
            r.supplied().tokenizer is None,
            r.supplied().embedding is None,
    {
        SessionBuilder { param, hooks: Hooks::default() }
    }

    /// Supplies the tokenizer, for a model exported without one.
    ///
    /// It is handed the text and a buffer holding at most as many token ids as
    /// the runtime will accept. It returns how many it wrote, or `None` to
    /// report failure. Writing is bounded by the slice, so a tokenizer cannot
    /// overrun the runtime's buffer.
    pub fn tokenizer(self, tokenizer: Arc<dyn TokenizerHook>) -> (r: SessionBuilder<'a>)
        ensures
            r.configuration() == self.configuration(),
            r.supplied().tokenizer == Some(tokenizer),
            r.supplied().embedding == self.supplied().embedding,
    {
        let tokenizer = Some(tokenizer);
        SessionBuilder {
            param: self.param,
            hooks: Hooks { tokenizer, embedding: self.hooks.embedding },
        }
    }

    /// Supplies the embedding layer, for a model exported without one.
    ///
    /// It is handed the token ids and a buffer of exactly
    /// `num_tokens * embedding_dim` numbers, which it must fill. It returns
    /// `false` to report failure.
    pub fn embedding(self, embedding: Arc<dyn EmbeddingHook>) -> (r: SessionBuilder<'a>)
        ensures
            r.configuration() == self.configuration(),
            r.supplied().tokenizer == self.supplied().tokenizer,
            r.supplied().embedding == Some(embedding),
    {
        let embedding = Some(embedding);
        SessionBuilder {
            param: self.param,
            hooks: Hooks { tokenizer: self.hooks.tokenizer, embedding },
        }
    }

    /// Whether any callback has been supplied.
    pub fn is_plain(&self) -> (r: bool)
        ensures
            r == (self.supplied().tokenizer is Some || self.supplied().embedding is Some),
    {
        !self.hooks.is_empty()
    }

    /// Loads the model through `api`, with the callbacks supplied.
    ///
    /// Loads it as [`RkllmSession::with_api_and_hooks`] does.
    pub fn with_api<A: RkllmApi>(self, api: A) -> (r: Result<RkllmSession<A>, Error>)
        ensures
            call_ensures(
                RkllmSession::<A>::with_api_and_hooks,
                (api, self.configuration(), self.supplied()),
                r,
            ),
    {
        RkllmSession::with_api_and_hooks(api, self.param, self.hooks)
    }
}

/// A builder keeps the model it was started for and every callback it was supplied,
/// and says whether it was supplied any.
pub proof fn a_builder_keeps_what_it_was_given<'a>(param: &'a Param, builder: SessionBuilder<'a>)
    ensures
        forall|r: SessionBuilder<'a>| #[trigger]
            call_ensures(SessionBuilder::new, (param,), r) ==> {
                &&& r.configuration() == param
                &&& r.supplied().tokenizer is None
                &&& r.supplied().embedding is None
            },
        forall|r: bool| #[trigger]
            call_ensures(SessionBuilder::is_plain, (&builder,), r) ==> {
                r <==> builder.supplied().tokenizer is Some || builder.supplied().embedding is Some
            },
{
}

} // verus!
