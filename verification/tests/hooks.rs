//! Calls the hook trampolines the way the runtime would.

use std::sync::Arc;

use rkllm::hooks::{
    embedding_room, embedding_trampoline, tokenizer_trampoline, EmbeddingHook, Hooks,
    TokenizerHook,
};
use rkllm::F32;

/// A tokenizer made of a closure.
struct Tokenizer<F>(F);

impl<F: Fn(&str, &mut [i32]) -> Option<usize> + Send + Sync> TokenizerHook for Tokenizer<F> {
    fn tokenize(&self, text: &str, out: &mut [i32]) -> Option<usize> {
        (self.0)(text, out)
    }
}

/// An embedding layer made of a closure.
struct Embedding<F>(F);

impl<F: Fn(&[i32], &mut [F32]) -> bool + Send + Sync> EmbeddingHook for Embedding<F> {
    fn embed(&self, tokens: &[i32], out: &mut [F32]) -> bool {
        (self.0)(tokens, out)
    }
}

fn with_tokenizer<F>(tokenizer: F) -> Hooks
where
    F: Fn(&str, &mut [i32]) -> Option<usize> + Send + Sync + 'static,
{
    Hooks { tokenizer: Some(Arc::new(Tokenizer(tokenizer))), embedding: None }
}

fn with_embedding<F>(embedding: F) -> Hooks
where
    F: Fn(&[i32], &mut [F32]) -> bool + Send + Sync + 'static,
{
    Hooks { tokenizer: None, embedding: Some(Arc::new(Embedding(embedding))) }
}

fn number(value: f32) -> F32 {
    F32::from_bits(value.to_bits())
}

fn tokenize(hooks: &Hooks, text: &str, buffer: &mut [i32]) -> i32 {
    let max = buffer.len() as i32;
    tokenizer_trampoline(
        Some(hooks),
        Some(text.as_bytes()),
        text.len() as i32,
        Some(buffer),
        max,
    )
}

/// Somewhere a buffer of numbers could be.
const ADDRESS: usize = 0x1000;

fn embed(hooks: &Hooks, tokens: &[i32], buffer: &mut [F32]) -> i32 {
    let len = (buffer.len() * 4) as u64;
    embedding_trampoline(Some(hooks), Some(tokens), tokens.len() as u64, ADDRESS, len, buffer)
}

#[test]
fn the_tokenizer_sees_the_text_and_reports_what_it_wrote() {
    let hooks = with_tokenizer(|text: &str, out: &mut [i32]| {
        assert_eq!(text, "hello");
        for (slot, byte) in out.iter_mut().zip(text.bytes()) {
            *slot = i32::from(byte);
        }
        Some(text.len())
    });

    let mut buffer = [0; 16];
    assert_eq!(tokenize(&hooks, "hello", &mut buffer), 5);
    assert_eq!(&buffer[..5], &[104, 101, 108, 108, 111]);
}

#[test]
fn the_tokenizer_buffer_is_bounded_by_what_the_runtime_offered() {
    let hooks = with_tokenizer(|_: &str, out: &mut [i32]| {
        // The slice is the bound, so this cannot overrun whatever the runtime
        // passed, however much the closure writes.
        assert_eq!(out.len(), 4);
        out.fill(7);
        Some(out.len())
    });

    let mut buffer = [0; 4];
    assert_eq!(tokenize(&hooks, "anything", &mut buffer), 4);
    assert_eq!(buffer, [7; 4]);
}

#[test]
fn a_tokenizer_claiming_too_many_tokens_is_refused() {
    let hooks = with_tokenizer(|_: &str, out: &mut [i32]| Some(out.len() + 1));

    let mut buffer = [0; 4];
    assert_eq!(
        tokenize(&hooks, "x", &mut buffer),
        -1,
        "the runtime would otherwise read tokens that were never written"
    );
}

#[test]
fn a_tokenizer_reporting_failure_is_passed_through() {
    let hooks = with_tokenizer(|_: &str, _: &mut [i32]| None);
    assert_eq!(tokenize(&hooks, "x", &mut [0; 4]), -1);
}

#[test]
fn text_that_is_not_utf8_is_refused() {
    let hooks = with_tokenizer(|_: &str, _: &mut [i32]| Some(0));

    let invalid = [0xffu8, 0xfe];
    let mut buffer = [0i32; 4];
    let code = tokenizer_trampoline(Some(&hooks), Some(&invalid), 2, Some(&mut buffer), 4);
    assert_eq!(code, -1, "building a &str from those bytes would be unsound");
}

#[test]
fn the_embedding_sees_the_tokens_and_fills_the_buffer() {
    let hooks = with_embedding(|tokens: &[i32], out: &mut [F32]| {
        assert_eq!(tokens, [11, 22, 33]);
        // Three tokens of width two, which is what the lengths imply.
        assert_eq!(out.len(), 6);
        for (slot, value) in out.iter_mut().zip(1u8..) {
            *slot = number(f32::from(value));
        }
        true
    });

    let mut buffer = [number(0.0); 6];
    assert_eq!(embed(&hooks, &[11, 22, 33], &mut buffer), 0);
    let read: Vec<f32> = buffer.iter().map(|v| f32::from_bits(v.to_bits())).collect();
    assert_eq!(read, [1.0, 2.0, 3.0, 4.0, 5.0, 6.0]);
}

#[test]
fn an_embedding_reporting_failure_is_passed_through() {
    let hooks = with_embedding(|_: &[i32], _: &mut [F32]| false);
    assert_eq!(embed(&hooks, &[1], &mut [number(0.0); 2]), -1);
}

#[test]
fn a_misaligned_embedding_buffer_is_refused() {
    let hooks = with_embedding(|_: &[i32], _: &mut [F32]| true);

    // One byte past where a number can be.
    let mut out: [F32; 0] = [];
    let code =
        embedding_trampoline(Some(&hooks), Some(&[1]), 1, ADDRESS + 1, 8, &mut out);
    assert_eq!(code, -1, "a misaligned f32 slice would be undefined behaviour");
}

#[test]
fn a_hook_that_was_never_supplied_reports_failure() {
    let hooks: Hooks = Hooks::default();
    assert!(hooks.is_empty());
    assert_eq!(tokenize(&hooks, "x", &mut [0; 4]), -1);
    assert_eq!(embed(&hooks, &[1], &mut [number(0.0); 2]), -1);
}

#[test]
fn missing_buffers_and_negative_lengths_are_refused() {
    let hooks = with_tokenizer(|_: &str, _: &mut [i32]| Some(0));
    let mut buffer = [0i32; 1];
    assert_eq!(tokenizer_trampoline(Some(&hooks), Some(b"x"), 1, Some(&mut buffer), 1), 0);
    assert_eq!(tokenizer_trampoline(Some(&hooks), None, 1, Some(&mut buffer), 1), -1);
    assert_eq!(tokenizer_trampoline(Some(&hooks), Some(b"x"), 1, None, 1), -1);
    assert_eq!(tokenizer_trampoline(Some(&hooks), Some(b"x"), -1, Some(&mut buffer), 1), -1);
    assert_eq!(tokenizer_trampoline(Some(&hooks), Some(b"x"), 1, Some(&mut buffer), -1), -1);

    let none: Option<&Hooks> = None;
    assert_eq!(tokenizer_trampoline(none, Some(b"x"), 1, Some(&mut buffer), 1), -1);
    assert_eq!(embedding_trampoline(none, Some(&[1]), 1, ADDRESS, 0, &mut []), -1);
    let hooks = with_embedding(|_: &[i32], _: &mut [F32]| true);
    assert_eq!(embedding_trampoline(Some(&hooks), Some(&[1]), 1, ADDRESS, 0, &mut []), 0);
    assert_eq!(embedding_trampoline(Some(&hooks), None, 1, ADDRESS, 0, &mut []), -1);
    assert_eq!(embedding_trampoline(Some(&hooks), Some(&[1]), 1, 0, 0, &mut []), -1);
}

#[test]
fn a_buffer_has_room_for_whole_numbers_only() {
    assert_eq!(embedding_room(ADDRESS, 24), Some(6));
    assert_eq!(embedding_room(ADDRESS, 0), Some(0));
    assert_eq!(embedding_room(ADDRESS, 23), None);
    assert_eq!(embedding_room(ADDRESS + 2, 24), None);
    assert_eq!(embedding_room(0, 24), None);
}
