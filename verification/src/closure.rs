//! A caller's closure, and the calls made of it.
use vstd::prelude::*;

use crate::bindings::RKLLMResult;
use crate::callback::Reply;
use crate::output::{CallState, Control, Output};

verus! {

/// What one output shows: where the run is, and what was reported.
pub ghost struct Shown {
    /// Where the run is in its lifecycle.
    pub state: CallState,
    /// What the runtime reported, if it reported anything.
    pub entry: Option<RKLLMResult>,
}

/// One call of a closure, and its answer.
pub ghost struct Heard {
    /// What the closure was shown.
    pub shown: Seq<Shown>,
    /// The decision it took, or `None` where it panicked instead.
    pub decision: Option<Control>,
}

/// What a closure can be called with.
pub trait Shows {
    /// What it shows the closure.
    spec fn shows(self) -> Seq<Shown>;
}

impl<'a> Shows for Output<'a> {
    open spec fn shows(self) -> Seq<Shown> {
        seq![Shown { state: self.call_state(), entry: self.entry() }]
    }
}

impl<'a, 'b> Shows for &'a [Output<'b>] {
    open spec fn shows(self) -> Seq<Shown> {
        self@.map_values(
            |output: Output<'b>| Shown { state: output.call_state(), entry: output.entry() },
        )
    }
}

/// A closure that is only called through [`Logged::call`], with every call of it.
pub struct Logged<F> {
    closure: F,
    log: Ghost<Seq<Heard>>,
}

impl<F> Logged<F> {
    /// The closure.
    pub closed spec fn closure(self) -> F {
        self.closure
    }

    /// Every call of the closure so far, in order.
    pub closed spec fn heard(self) -> Seq<Heard> {
        self.log@
    }

    /// A closure that was not called yet.
    pub fn new(closure: F) -> (r: Logged<F>)
        ensures
            r.closure() == closure,
            r.heard() == Seq::<Heard>::empty(),
    {
        Logged { closure, log: Ghost(Seq::empty()) }
    }

    /// Calls the closure once, and logs the call.
    ///
    /// Nothing is known of the type of `arg` that would let it be used twice, so
    /// the closure cannot be called twice with it.
    pub fn call<A: Shows, R: Reply>(&mut self, arg: A) -> (reply: R) where F: FnMut(A) -> R
        requires
            call_requires(old(self).closure(), (arg,)),
        ensures
            call_ensures(old(self).closure(), (arg,), reply),
            final(self).closure() == old(self).closure(),
            final(self).heard() == old(self).heard().push(
                Heard { shown: arg.shows(), decision: reply.decision() },
            ),
    {
        let reply = (self.closure)(arg);
        proof {
            self.log@ = self.log@.push(Heard { shown: arg.shows(), decision: reply.decision() });
        }
        reply
    }
}

} // verus!
