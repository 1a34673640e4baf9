//! Safe sessions over `librkllmrt`, the Rockchip RKLLM runtime.
//!
//! An [`RkllmSession`] owns one loaded model. It is created from a [`Param`]
//! through a set of bindings, an [`RkllmApi`]. It can be shared between threads
//! that take turns.
//!
//! [`RkllmSession::run_llm`] takes a closure and blocks, calling the closure with
//! each chunk of output as the runtime produces it. [`stream`] holds the decisions
//! of a driver that runs the same thing on a thread of its own and hands the
//! chunks on.
//!
//! The runtime itself is outside. What a session passes to it, and what it makes
//! of each answer, is stated through `call_ensures` of the binding's method: some
//! call with these arguments returned, and the result follows from what it
//! returned. No status, handle or number that comes back is assumed to be anything
//! in particular. Two things are assumed of every set of bindings: that a run does
//! nothing to its callback but call it, and that a buffer of cache sizes keeps its
//! length. Bindings may say of their own runs what they report and return, in
//! [`RkllmApi`]'s `may_run`.
//!
//! A closure that a run reports to is only called in [`closure`], which keeps a log
//! of the calls. [`laws`] says of whole runs, and of the other calls of a session,
//! what they come to.
//!
//! Pointers into C are gone: [`bindings`] holds the values behind them. Numbers
//! that the runtime takes in single precision are carried as their bit patterns,
//! in [`F32`].
use vstd::prelude::*;

pub mod api;
pub mod bindings;
pub mod builder;
pub mod callback;
pub mod closure;
pub mod cstring;
pub mod decimal;
pub mod error;
pub mod find;
pub mod float;
pub mod hooks;
pub mod infer;
pub mod input;
pub mod laws;
pub mod output;
pub mod param;
pub mod session;
pub mod stream;
pub mod utf8;

pub use crate::api::{Linked, RkllmApi};
pub use crate::builder::SessionBuilder;
pub use crate::cstring::{CString, NulError};
pub use crate::error::Error;
pub use crate::float::F32;
pub use crate::infer::{InferParams, Mode, Sampling};
pub use crate::input::{ImageInput, Input};
pub use crate::output::{CallState, Chunk, Control, Output, PerfStat};
pub use crate::param::Param;
pub use crate::session::RkllmSession;

verus! {

} // verus!
