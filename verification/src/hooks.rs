//! Callbacks a model can require of its caller.
//!
//! Most `.rkllm` files carry their own tokenizer and embedding layer. A model
//! exported without one asks the caller to supply it, and refuses to load
//! otherwise:
//!
//! ```text
//! E rkllm: Tokenizer is unavailable: model has no internal tokenizer and no
//!          external tokenizer_callback provided.
//! E rkllm: Model has no embedding layer and no embed callback provided.
//! ```
//!
//! Both are registered at `rkllm_init`, not per run, so they are supplied
//! through [`SessionBuilder`](crate::SessionBuilder) and owned by the session
//! for as long as it lives.
use std::sync::Arc;

use vstd::prelude::*;
use vstd::string::StringSliceAdditionalSpecFns;

use crate::float::F32;
use crate::utf8::text_of;

verus! {

/// Turns text into token ids.
pub trait TokenizerHook: Send + Sync {
    /// Writes the ids of `text` to the front of `out`, which is the largest
    /// number of tokens the runtime will accept. Returns how many were written,
    /// or `None` to report failure.
    ///
    /// It must not unwind: nothing in this library catches a panic, so
    /// an implementation that may panic catches that itself and returns `None`.
    fn tokenize(&self, text: &str, out: &mut [i32]) -> Option<usize>;
}

/// Turns token ids into their embeddings.
pub trait EmbeddingHook: Send + Sync {
    /// Fills `out`, which is exactly `num_tokens * embedding_dim` long. Returns
    /// `false` to report failure.
    ///
    /// It must not unwind: nothing in this library catches a panic, so
    /// an implementation that may panic catches that itself and returns `false`.
    fn embed(&self, tokens: &[i32], out: &mut [F32]) -> bool;
}

/// What a session hands the runtime for the callbacks it registers.
///
/// Shared between the session and the runtime, so it stays in place for as long
/// as either may call it.
pub struct Hooks<
    T: TokenizerHook + ?Sized = dyn TokenizerHook,
    E: EmbeddingHook + ?Sized = dyn EmbeddingHook,
> {
    /// The tokenizer, if the caller supplies one.
    pub tokenizer: Option<Arc<T>>,
    /// The embedding layer, if the caller supplies one.
    pub embedding: Option<Arc<E>>,
}

impl<T: TokenizerHook + ?Sized, E: EmbeddingHook + ?Sized> Hooks<T, E> {
    /// Whether neither callback is supplied.
    pub fn is_empty(&self) -> (r: bool)
        ensures
            r == (self.tokenizer is None && self.embedding is None),
    {
        self.tokenizer.is_none() && self.embedding.is_none()
    }
}

impl<T: TokenizerHook + ?Sized, E: EmbeddingHook + ?Sized> Default for Hooks<T, E> {
    /// No callbacks.
    fn default() -> (r: Hooks<T, E>)
        ensures
            r.tokenizer is None,
            r.embedding is None,
    {
        Hooks { tokenizer: None, embedding: None }
    }
}

/// What both callbacks return when they could not do what was asked.
pub const FAILED: i32 = -1;

/// How many bytes one number of an embedding takes up.
pub const NUMBER_SIZE: usize = 4;

/// What the tokenizer callback returns for a claim of `written` tokens in a
/// buffer of `max`: the count, unless there is none or it exceeds the buffer.
pub open spec fn token_count(written: Option<usize>, max: int) -> int {
    match written {
        Some(written) => if written <= max && written <= i32::MAX {
            written as int
        } else {
            FAILED as int
        },
        None => FAILED as int,
    }
}

/// Turns what a tokenizer claims into what the runtime is told.
///
/// A tokenizer cannot overrun the slice it is handed, but it can still claim to
/// have written more than it did.
pub fn tokenizer_code(written: Option<usize>, max: usize) -> (r: i32)
    ensures
        r == token_count(written, max as int),
{
    match written {
        Some(written) => if written <= max && written <= i32::MAX as usize {
            written as i32
        } else {
            FAILED
        },
        None => FAILED,
    }
}

/// Whether the tokenizer is asked at all: it is there, so are both buffers,
/// both lengths make sense, and the text is UTF-8.
pub open spec fn tokenizer_is_asked<T: TokenizerHook + ?Sized, E: EmbeddingHook + ?Sized>(
    hooks: Option<&Hooks<T, E>>,
    text: Option<&[u8]>,
    text_len: i32,
    has_tokens: bool,
    n_tokens_max: i32,
) -> bool {
    &&& hooks is Some && hooks->0.tokenizer is Some
    &&& text is Some && text_len >= 0 && vstd::utf8::valid_utf8(text->0@)
    &&& has_tokens && n_tokens_max >= 0
}

/// The tokenizer callback.
///
/// `text` and `tokens` are what the runtime's two pointers lead to, with the
/// lengths it passed alongside. Returns the token count, or a negative value on
/// failure.
pub fn tokenizer_trampoline<T: TokenizerHook + ?Sized, E: EmbeddingHook + ?Sized>(
    hooks: Option<&Hooks<T, E>>,
    text: Option<&[u8]>,
    text_len: i32,
    tokens: Option<&mut [i32]>,
    n_tokens_max: i32,
) -> (r: i32)
    requires
        text is Some && text_len >= 0 ==> text->0@.len() == text_len,
        tokens is Some && n_tokens_max >= 0 ==> tokens->0@.len() == n_tokens_max,
    ensures
        !tokenizer_is_asked(hooks, text, text_len, tokens is Some, n_tokens_max) ==> {
            &&& r == FAILED
            &&& tokens matches Some(tokens) ==> final(tokens)@ == tokens@
        },
        tokenizer_is_asked(hooks, text, text_len, tokens is Some, n_tokens_max) ==> exists|
            said: &str,
            out: &mut [i32],
            written: Option<usize>,
        |
            {
                &&& said.spec_bytes() == text->0@
                &&& out@ == tokens->0@
                &&& final(out)@ == final(tokens->0)@
                &&& #[trigger] call_ensures(
                    T::tokenize,
                    (&*hooks->0.tokenizer->0, said, out),
                    written,
                )
                &&& r == token_count(written, n_tokens_max as int)
            },
        r == FAILED || 0 <= r <= n_tokens_max,
{
    if text_len < 0 || n_tokens_max < 0 {
        return FAILED;
    }
    match (hooks, text, tokens) {
        (Some(hooks), Some(text), Some(tokens)) => {
            match (&hooks.tokenizer, text_of(text)) {
                (Some(tokenizer), Some(text)) => {
                    let written: Option<usize> = tokenizer.tokenize(text, tokens);
                    tokenizer_code(written, n_tokens_max as usize)
                },
                _ => FAILED,
            }
        },
        _ => FAILED,
    }
}

/// How many numbers a buffer of `len` bytes at `address` has room for. It has
/// none to speak of when it is null, lies askew, or ends part way through one.
pub open spec fn numbers_at(address: usize, len: u64) -> Option<usize> {
    if address != 0 && address % NUMBER_SIZE == 0 && len <= usize::MAX && len % (NUMBER_SIZE as u64)
        == 0 {
        Some((len / (NUMBER_SIZE as u64)) as usize)
    } else {
        None
    }
}

/// How many numbers a buffer of `len` bytes at `address` has room for.
///
/// The runtime hands the buffer over as bytes. Reading numbers out of it at an
/// address they cannot have is refused, and so is a length that does not divide.
pub fn embedding_room(address: usize, len: u64) -> (r: Option<usize>)
    ensures
        r == numbers_at(address, len),
{
    if address != 0 && address % NUMBER_SIZE == 0 && len <= usize::MAX as u64 && len % (
    NUMBER_SIZE as u64) == 0 {
        Some((len / (NUMBER_SIZE as u64)) as usize)
    } else {
        None
    }
}

/// Whether the embedding layer is asked at all: it is there, so are both
/// buffers, and both lengths make sense.
pub open spec fn embedding_is_asked<T: TokenizerHook + ?Sized, E: EmbeddingHook + ?Sized>(
    hooks: Option<&Hooks<T, E>>,
    tokens: Option<&[i32]>,
    num_tokens: u64,
    address: usize,
    len: u64,
) -> bool {
    &&& hooks is Some && hooks->0.embedding is Some
    &&& tokens is Some && num_tokens <= usize::MAX
    &&& numbers_at(address, len) is Some
}

/// The embedding callback.
///
/// `tokens` is what the runtime's token pointer leads to. `address` and `len`
/// describe the buffer to fill, and `out` is that buffer, read as numbers, as
/// [`embedding_room`] measures it. Returns 0 on success and a negative value on
/// failure.
pub fn embedding_trampoline<T: TokenizerHook + ?Sized, E: EmbeddingHook + ?Sized>(
    hooks: Option<&Hooks<T, E>>,
    tokens: Option<&[i32]>,
    num_tokens: u64,
    address: usize,
    len: u64,
    out: &mut [F32],
) -> (r: i32)
    requires
        tokens is Some ==> tokens->0@.len() == num_tokens,
        numbers_at(address, len) matches Some(room) ==> old(out)@.len() == room,
    ensures
        !embedding_is_asked(hooks, tokens, num_tokens, address, len) ==> r == FAILED && final(out)@
            == old(out)@,
        embedding_is_asked(hooks, tokens, num_tokens, address, len) ==> exists|
            ids: &[i32],
            filled: &mut [F32],
            done: bool,
        |
            {
                &&& ids@ == tokens->0@
                &&& filled@ == old(out)@
                &&& final(filled)@ == final(out)@
                &&& #[trigger] call_ensures(
                    E::embed,
                    (&*hooks->0.embedding->0, ids, filled),
                    done,
                )
                &&& r == (if done {
                    0
                } else {
                    FAILED
                })
            },
{
    if embedding_room(address, len).is_none() || num_tokens > usize::MAX as u64 {
        return FAILED;
    }
    match (hooks, tokens) {
        (Some(hooks), Some(tokens)) => match &hooks.embedding {
            Some(embedding) => {
                if embedding.embed(tokens, out) {
                    0
                } else {
                    FAILED
                }
            },
            None => FAILED,
        },
        _ => FAILED,
    }
}

/// A tokenizer is believed exactly when it claims no more than it was offered, and
/// then to the token. Anything else is a failure.
pub proof fn a_tokenizer_is_believed_within_its_buffer(written: Option<usize>, max: int)
    requires
        0 <= max <= i32::MAX,
    ensures
        written is None ==> token_count(written, max) == -1,
        written matches Some(n) ==> token_count(written, max) == (if n <= max {
            n as int
        } else {
            -1
        }),
{
}

/// A tokenizer that was supplied is asked about every text that is UTF-8, whatever
/// it says, and with whatever room there is. One that was not is never asked.
pub proof fn a_supplied_tokenizer_is_asked<T: TokenizerHook + ?Sized, E: EmbeddingHook + ?Sized>(
    hooks: Option<&Hooks<T, E>>,
    text: Option<&[u8]>,
    text_len: i32,
    has_tokens: bool,
    n_tokens_max: i32,
)
    ensures
        hooks is Some && text is Some && has_tokens && text_len >= 0 && n_tokens_max >= 0 ==> (
        tokenizer_is_asked(hooks, text, text_len, has_tokens, n_tokens_max)
            <==> hooks->0.tokenizer is Some && vstd::utf8::valid_utf8(text->0@)),
        hooks is None || text is None || !has_tokens || text_len < 0 || n_tokens_max < 0
            ==> !tokenizer_is_asked(hooks, text, text_len, has_tokens, n_tokens_max),
{
}

/// An embedding layer that was supplied is asked whenever its buffers are there and
/// the one to fill can hold numbers. One that was not is never asked.
pub proof fn a_supplied_embedding_is_asked<T: TokenizerHook + ?Sized, E: EmbeddingHook + ?Sized>(
    hooks: Option<&Hooks<T, E>>,
    tokens: Option<&[i32]>,
    num_tokens: u64,
    address: usize,
    len: u64,
)
    ensures
        embedding_is_asked(hooks, tokens, num_tokens, address, len) <==> {
            &&& hooks is Some && hooks->0.embedding is Some
            &&& tokens is Some && num_tokens <= usize::MAX
            &&& address != 0 && address % 4 == 0
            &&& len <= usize::MAX && len % 4 == 0
        },
{
}

/// A buffer has room for as many numbers as its bytes make up, where it lies at an
/// address that numbers can have and ends with a whole one.
pub proof fn numbers_take_four_bytes_each(address: usize, len: u64)
    ensures
        numbers_at(address, len) is Some <==> address != 0 && address % 4 == 0 && len % 4 == 0
            && len <= usize::MAX,
        numbers_at(address, len) matches Some(room) ==> 4 * room == len,
{
}

} // verus!
