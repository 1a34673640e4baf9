//! From the runtime's result callback to the caller's closure.
use vstd::prelude::*;

use crate::bindings::{LLMCallState, RKLLMResult};
use crate::closure::{Heard, Logged, Shown, Shows};
use crate::output::{CallState, Control, Output};

verus! {

/// One call of the result callback, and the reply to it.
pub ghost struct Report {
    /// The results, where there are any.
    pub results: Option<Seq<RKLLMResult>>,
    /// The state of the run.
    pub state: LLMCallState,
    /// The code that was returned.
    pub code: i32,
}

/// What a slice of results holds, where there is one.
pub open spec fn seen(results: Option<&[RKLLMResult]>) -> Option<Seq<RKLLMResult>> {
    match results {
        Some(results) => Some(results@),
        None => None,
    }
}

impl Report {
    /// The report of `results` and `state` that was answered with `code`.
    pub open spec fn of(
        results: Option<&[RKLLMResult]>,
        state: LLMCallState,
        code: i32,
    ) -> Report {
        Report { results: seen(results), state, code }
    }
}

/// What the runtime calls back during a run.
pub trait ResultCallback {
    /// What a callback was made for.
    type Origin;

    /// What this was made for, which no call changes.
    spec fn origin(&self) -> Self::Origin;

    /// Whether this can be called.
    spec fn callable(&self) -> bool;

    /// Every call so far, in order.
    spec fn reported(&self) -> Seq<Report>;

    /// Reports that the run is in `state`, with `results` where there are any.
    ///
    /// While generating there is one result per batch entry. Returns the code
    /// of the decision that governs the rest of the run.
    fn call(&mut self, results: Option<&[RKLLMResult]>, state: LLMCallState) -> (code: i32)
        requires
            old(self).callable(),
        ensures
            final(self).callable(),
            final(self).origin() == old(self).origin(),
            final(self).reported() == old(self).reported().push(Report::of(results, state, code)),
    ;
}

/// What a closure may answer with.
pub trait Reply {
    /// The decision taken, where one was.
    spec fn decision(self) -> Option<Control>;

    /// The decision taken, or `None` where the closure panicked instead.
    fn into_decision(self) -> (r: Option<Control>)
        ensures
            r == self.decision(),
    ;
}

impl Reply for Control {
    open spec fn decision(self) -> Option<Control> {
        Some(self)
    }

    fn into_decision(self) -> (r: Option<Control>) {
        Some(self)
    }
}

/// The answer of a closure that catches its own panics, and says `None` then.
impl Reply for Option<Control> {
    open spec fn decision(self) -> Option<Control> {
        self
    }

    fn into_decision(self) -> (r: Option<Control>) {
        self
    }
}

/// What a closure becomes once a run reports to it: it is then called in one way
/// only, which keeps a log.
pub trait Listens: Sized {
    /// The closure with its log.
    type Listener;

    /// What a listener was made of, which no call of it changes.
    spec fn of(listener: Self::Listener) -> Self;

    /// Every call of the closure so far, in order.
    spec fn heard(listener: Self::Listener) -> Seq<Heard>;

    /// Starts to listen. Nothing was heard yet.
    fn listen(self) -> (listener: Self::Listener)
        ensures
            Self::of(listener) == self,
            Self::heard(listener) == Seq::<Heard>::empty(),
    ;
}

/// What receives the outputs of a run.
pub trait RunCallback: Listens {
    /// Whether this can be handed outputs.
    spec fn ready(&self) -> bool;

    /// Whether this may answer `outputs` with `decision`.
    spec fn replies(&self, outputs: &[Output<'_>], decision: Option<Control>) -> bool;

    /// Whether the closure is called for a callback's outputs.
    spec fn asks(shown: Seq<Shown>) -> bool;

    /// What the closure is shown of a callback's outputs.
    spec fn part(shown: Seq<Shown>) -> Seq<Shown>;

    /// Hands `outputs` over, and returns the decision taken on them, or `None`
    /// where a panic came in its place. What may be answered stays the same.
    ///
    /// Where there are outputs, the closure is called with them once, and the
    /// decision is the one that this call took. Without any it is called at most
    /// once.
    fn deliver(listener: &mut Self::Listener, outputs: &[Output<'_>]) -> (decision: Option<Control>)
        requires
            Self::of(*old(listener)).ready(),
        ensures
            Self::of(*final(listener)) == Self::of(*old(listener)),
            Self::of(*old(listener)).replies(outputs, decision),
            outputs@.len() > 0 ==> Self::asks(outputs.shows()),
            Self::heard(*final(listener)) == (if Self::asks(outputs.shows()) {
                Self::heard(*old(listener)).push(
                    Heard { shown: Self::part(outputs.shows()), decision },
                )
            } else {
                Self::heard(*old(listener))
            }),
    ;
}

/// Whether two receivers may answer the same outputs alike.
pub open spec fn same_replies<C: RunCallback>(a: C, b: C) -> bool {
    forall|outputs: &[Output<'_>], decision: Option<Control>|
        #![trigger a.replies(outputs, decision)]
        #![trigger b.replies(outputs, decision)]
        a.replies(outputs, decision) == b.replies(outputs, decision)
}

/// A closure that takes every output of a callback at once.
pub struct PerBatch<F> {
    /// The closure.
    pub closure: F,
}

impl<F> Listens for PerBatch<F> {
    type Listener = Logged<F>;

    open spec fn of(listener: Logged<F>) -> PerBatch<F> {
        PerBatch { closure: listener.closure() }
    }

    open spec fn heard(listener: Logged<F>) -> Seq<Heard> {
        listener.heard()
    }

    fn listen(self) -> (listener: Logged<F>) {
        Logged::new(self.closure)
    }
}

impl<R: Reply, F: FnMut(&[Output<'_>]) -> R> RunCallback for PerBatch<F> {
    open spec fn ready(&self) -> bool {
        forall|outputs: &[Output<'_>]| call_requires(self.closure, (outputs,))
    }

    open spec fn replies(&self, outputs: &[Output<'_>], decision: Option<Control>) -> bool {
        exists|reply: R|
            #[trigger] call_ensures(self.closure, (outputs,), reply) && reply.decision()
                == decision
    }

    open spec fn asks(shown: Seq<Shown>) -> bool {
        true
    }

    open spec fn part(shown: Seq<Shown>) -> Seq<Shown> {
        shown
    }

    fn deliver(listener: &mut Logged<F>, outputs: &[Output<'_>]) -> (decision: Option<Control>) {
        assert(call_requires(Self::of(*listener).closure, (outputs,)));
        listener.call(outputs).into_decision()
    }
}

/// A closure that takes one output at a time, for a run of one input.
pub struct PerOutput<F> {
    /// The closure.
    pub closure: F,
}

impl<F> Listens for PerOutput<F> {
    type Listener = Logged<F>;

    open spec fn of(listener: Logged<F>) -> PerOutput<F> {
        PerOutput { closure: listener.closure() }
    }

    open spec fn heard(listener: Logged<F>) -> Seq<Heard> {
        listener.heard()
    }

    fn listen(self) -> (listener: Logged<F>) {
        Logged::new(self.closure)
    }
}

impl<R: Reply, F: FnMut(Output<'_>) -> R> RunCallback for PerOutput<F> {
    open spec fn ready(&self) -> bool {
        forall|output: Output<'_>| call_requires(self.closure, (output,))
    }

    open spec fn replies(&self, outputs: &[Output<'_>], decision: Option<Control>) -> bool {
        if outputs@.len() > 0 {
            exists|reply: R|
                #[trigger] call_ensures(self.closure, (outputs@[0],), reply) && reply.decision()
                    == decision
        } else {
            decision == Some(Control::Continue)
        }
    }

    open spec fn asks(shown: Seq<Shown>) -> bool {
        shown.len() > 0
    }

    open spec fn part(shown: Seq<Shown>) -> Seq<Shown> {
        shown.take(1)
    }

    fn deliver(listener: &mut Logged<F>, outputs: &[Output<'_>]) -> (decision: Option<Control>) {
        if outputs.len() > 0 {
            assert(call_requires(Self::of(*listener).closure, (outputs@[0],)));
            assert(outputs.shows().take(1) =~= outputs@[0].shows());
            listener.call(outputs[0]).into_decision()
        } else {
            Some(Control::Continue)
        }
    }
}

/// What the trampoline finds behind the `userdata` of a run.
pub struct CallbackState<C: Listens> {
    listener: C::Listener,
    n_batch: usize,
    panicked: bool,
    first: Ghost<C>,
    log: Ghost<Seq<Report>>,
    answered: Ghost<int>,
}

/// What a run came to, once its receiver was let go.
pub struct Ended {
    panicked: bool,
    calls: Ghost<Seq<Report>>,
    heard: Ghost<Seq<Heard>>,
}

impl Ended {
    /// Whether a callback panicked.
    pub closed spec fn has_panicked(self) -> bool {
        self.panicked
    }

    /// Every call of the runtime's, in order.
    pub closed spec fn calls(self) -> Seq<Report> {
        self.calls@
    }

    /// Every call of the receiver's closure, in order.
    pub closed spec fn heard(self) -> Seq<Heard> {
        self.heard@
    }

    /// Whether a callback panicked during the run.
    pub fn panicked(&self) -> (r: bool)
        ensures
            r == self.has_panicked(),
    {
        self.panicked
    }
}

/// How many results are read in `state`: one per batch entry while generating,
/// and a single one in the states that report the run as a whole.
pub open spec fn entries_read(n_batch: usize, state: CallState) -> int {
    if state.ends_run() {
        1
    } else {
        n_batch as int
    }
}

/// Whether `outputs` is what `results` come to in `state`.
///
/// There is one output per result that is read, in the same order. Where there
/// is nothing to read, a single empty output still carries the state.
pub open spec fn delivered(
    outputs: Seq<Output<'_>>,
    results: Option<Seq<RKLLMResult>>,
    n_batch: usize,
    state: CallState,
) -> bool {
    let readable = match results {
        Some(results) => vstd::math::min(results.len() as int, entries_read(n_batch, state)),
        None => 0,
    };
    &&& outputs.len() == (if readable > 0 {
        readable
    } else {
        1
    })
    &&& forall|i: int|
        #![trigger outputs[i]]
        0 <= i < outputs.len() ==> {
            &&& outputs[i].call_state() == state
            &&& outputs[i].entry() == (if readable > 0 {
                Some(results->0[i])
            } else {
                None
            })
        }
}

/// What `results` come to in `state`: one output per result that is read, or a
/// single empty one where there is nothing to read.
pub open spec fn come_to(
    results: Option<Seq<RKLLMResult>>,
    n_batch: usize,
    state: CallState,
) -> Seq<Shown> {
    let readable = match results {
        Some(results) => vstd::math::min(results.len() as int, entries_read(n_batch, state)),
        None => 0,
    };
    if readable > 0 {
        Seq::new(readable as nat, |i: int| Shown { state, entry: Some(results->0[i]) })
    } else {
        seq![Shown { state, entry: None }]
    }
}

/// Whether a closure that receives as `receiver` does may have heard `heard` of
/// `report`, in a run of `n_batch` inputs: it was shown what the report comes to,
/// answered as it may, and the runtime was told just that.
pub open spec fn heard_of<C: RunCallback>(
    receiver: C,
    n_batch: usize,
    report: Report,
    heard: Heard,
) -> bool {
    &&& heard.shown == C::part(
        come_to(report.results, n_batch, CallState::meaning(report.state)),
    )
    &&& report.code == governing(heard.decision).code()
    &&& exists|outputs: &[Output<'_>]|
        {
            &&& delivered(outputs@, report.results, n_batch, CallState::meaning(report.state))
            &&& #[trigger] receiver.replies(outputs, heard.decision)
        }
}

/// The decision that a run goes by, given what the callback answered: a panic
/// stops it.
pub open spec fn governing(decision: Option<Control>) -> Control {
    match decision {
        Some(control) => control,
        None => Control::Pause,
    }
}

/// Whether `report` was answered as `receiver` may answer what it comes to, in a
/// run of `n_batch` inputs, and with a panic exactly when `panicked`.
pub open spec fn is_reply<C: RunCallback>(
    receiver: C,
    n_batch: usize,
    report: Report,
    panicked: bool,
) -> bool {
    exists|outputs: &[Output<'_>], decision: Option<Control>|
        {
            &&& delivered(outputs@, report.results, n_batch, CallState::meaning(report.state))
            &&& #[trigger] receiver.replies(outputs, decision)
            &&& report.code == governing(decision).code()
            &&& panicked == (decision is None)
        }
}

/// Whether a run of `n_batch` inputs that reports to `receiver` may have been
/// called and answered like this, with the first `deliveries` calls handed on,
/// and a panic among them exactly when `panicked`.
///
/// Every call is handed on until one panics, which is the last. Those after it
/// are told to stop.
pub open spec fn may_have_gone<C: RunCallback>(
    receiver: C,
    n_batch: usize,
    calls: Seq<Report>,
    deliveries: int,
    panicked: bool,
) -> bool {
    &&& 0 <= deliveries <= calls.len()
    &&& !panicked ==> deliveries == calls.len()
    &&& panicked ==> deliveries > 0
    &&& forall|i: int|
        #![trigger calls[i]]
        0 <= i < deliveries ==> is_reply(
            receiver,
            n_batch,
            calls[i],
            panicked && i == deliveries - 1,
        )
    &&& forall|i: int|
        #![trigger calls[i]]
        deliveries <= i < calls.len() ==> calls[i].code == Control::Pause.code()
}

impl<C: Listens> CallbackState<C> {
    /// What receives the outputs.
    pub closed spec fn receiver(self) -> C {
        C::of(self.listener)
    }

    /// The receiver's closure with its log.
    pub closed spec fn listening(self) -> C::Listener {
        self.listener
    }

    /// Every call of the receiver's closure so far, in order.
    pub open spec fn heard(self) -> Seq<Heard> {
        C::heard(self.listening())
    }

    /// How many results the runtime writes while generating.
    pub closed spec fn entries(self) -> usize {
        self.n_batch
    }

    /// Every call of the runtime's so far, in order.
    pub closed spec fn calls(self) -> Seq<Report> {
        self.log@
    }

    /// What received the outputs when the run began.
    pub closed spec fn started_with(self) -> C {
        self.first@
    }

    /// How many of those calls were handed on to the receiver.
    pub closed spec fn deliveries(self) -> int {
        self.answered@
    }

    /// Whether a callback has panicked.
    pub closed spec fn has_panicked(self) -> bool {
        self.panicked
    }

    /// Whether a callback has panicked during the run.
    pub fn panicked(&self) -> (r: bool)
        ensures
            r == self.has_panicked(),
    {
        self.panicked
    }

    /// Ends the run, and lets go of the receiver. What it came to is kept.
    pub fn end(self) -> (r: Ended)
        ensures
            r.has_panicked() == self.has_panicked(),
            r.calls() == self.calls(),
            r.heard() == self.heard(),
    {
        Ended {
            panicked: self.panicked,
            calls: Ghost(self.calls()),
            heard: Ghost(self.heard()),
        }
    }
}

impl<C: RunCallback> CallbackState<C> {
    /// Whether the receiver can be handed what the runtime reports, and the run
    /// has gone so far as it may go.
    pub open spec fn usable(self) -> bool {
        &&& self.receiver().ready()
        &&& self.entries() > 0
        &&& same_replies(self.started_with(), self.receiver())
        &&& may_have_gone(
            self.started_with(),
            self.entries(),
            self.calls(),
            self.deliveries(),
            self.has_panicked(),
        )
        &&& self.heard().len() == self.deliveries()
        &&& forall|i: int|
            #![trigger self.heard()[i]]
            #![trigger self.calls()[i]]
            0 <= i < self.heard().len() ==> {
                &&& heard_of(
                    self.started_with(),
                    self.entries(),
                    self.calls()[i],
                    self.heard()[i],
                )
                &&& (self.heard()[i].decision is None) == (self.has_panicked() && i
                    == self.heard().len() - 1)
            }
    }

    /// Whether this is what a run of `n_batch` inputs that reports to `receiver`
    /// begins with: nothing was called yet.
    pub open spec fn is_fresh(self, receiver: C, n_batch: usize) -> bool {
        &&& self.receiver() == receiver
        &&& self.started_with() == receiver
        &&& self.entries() == n_batch
        &&& self.calls().len() == 0
        &&& self.heard().len() == 0
        &&& !self.has_panicked()
    }

    /// Whether the last thing that the runtime was told is to stop.
    pub open spec fn was_stopped(self) -> bool {
        self.calls().len() > 0 && self.calls().last().code == Control::Pause.code()
    }

    /// Whether this is what a run of `n_batch` inputs that reports to `receiver`
    /// may end with: every call was answered as that receiver may answer.
    pub open spec fn is_outcome(self, receiver: C, n_batch: usize) -> bool {
        &&& self.started_with() == receiver
        &&& self.entries() == n_batch
        &&& self.usable()
    }

    /// The state that a run of `n_batch` inputs starts from.
    pub fn new(callback: C, n_batch: usize) -> (r: CallbackState<C>)
        requires
            callback.ready(),
            n_batch > 0,
        ensures
            r.is_fresh(callback, n_batch),
            r.usable(),
    {
        CallbackState {
            listener: callback.listen(),
            n_batch,
            panicked: false,
            first: Ghost(callback),
            log: Ghost(Seq::empty()),
            answered: Ghost(0),
        }
    }

    /// The outputs that `results` come to in `state`.
    fn outputs<'r>(&self, results: Option<&'r [RKLLMResult]>, state: CallState) -> (r: Vec<
        Output<'r>,
    >)
        requires
            self.entries() > 0,
        ensures
            delivered(r@, seen(results), self.entries(), state),
    {
        // While generating, the runtime writes one result per batch entry. In
        // the final states it reports the run as a whole, and only the first
        // result is known to be there.
        let len: usize = if state.is_final() {
            1
        } else {
            self.n_batch
        };
        let mut outputs: Vec<Output<'r>> = Vec::new();
        if let Some(results) = results {
            let mut i: usize = 0;
            while i < len && i < results.len()
                invariant
                    len == entries_read(self.n_batch, state),
                    i <= len,
                    i <= results.len(),
                    outputs.len() == i,
                    forall|j: int|
                        #![trigger outputs[j]]
                        0 <= j < i ==> outputs[j].call_state() == state && outputs[j].entry()
                            == Some(results@[j]),
                decreases len - i,
            {
                outputs.push(Output::new(state, Some(&results[i])));
                i += 1;
            }
        }
        // A missing result still has to reach the closure, so it sees the state.
        if outputs.len() == 0 {
            outputs.push(Output::new(state, None));
        }
        outputs
    }
}

/// Whether a call of `run` may be answered with `report` and leave `after`.
///
/// Once a callback has panicked, nothing is delivered any more, and the runtime
/// is told to stop. Otherwise the receiver is handed the outputs, and the code
/// is that of its decision.
pub open spec fn answered<C: RunCallback>(
    run: CallbackState<C>,
    report: Report,
    after: CallbackState<C>,
) -> bool {
    &&& after.started_with() == run.started_with()
    &&& after.entries() == run.entries()
    &&& after.calls() == run.calls().push(report)
    &&& run.has_panicked() ==> {
        &&& report.code == Control::Pause.code()
        &&& after.has_panicked()
        &&& after.receiver() == run.receiver()
        &&& after.deliveries() == run.deliveries()
        &&& after.heard() == run.heard()
    }
    &&& !run.has_panicked() ==> {
        &&& after.heard().len() == run.heard().len() + 1
        &&& after.heard().drop_last() == run.heard()
        &&& heard_of(run.receiver(), run.entries(), report, after.heard().last())
        &&& after.has_panicked() == (after.heard().last().decision is None)
        &&& is_reply(run.receiver(), run.entries(), report, after.has_panicked())
        &&& after.deliveries() == run.deliveries() + 1
    }
}

/// The one result callback registered for every session, which finds the
/// receiver of the current run behind `userdata`.
///
/// The receiver is handed the outputs once. Nothing is delivered where there is
/// no run, nor after the receiver of this one has panicked. In both cases the
/// runtime is told to stop.
pub fn trampoline<C: RunCallback>(
    results: Option<&[RKLLMResult]>,
    userdata: Option<&mut CallbackState<C>>,
    state: LLMCallState,
) -> (r: i32)
    requires
        userdata matches Some(run) ==> run.usable(),
    ensures
        userdata is None ==> r == Control::Pause.code(),
        userdata matches Some(run) ==> {
            &&& final(run).usable()
            &&& answered(*run, Report::of(results, state, r), *final(run))
            &&& !run.has_panicked() ==> exists|
                listener: &mut C::Listener,
                outputs: &[Output<'_>],
                decision: Option<Control>,
            |
                {
                    &&& *listener == run.listening()
                    &&& *final(listener) == final(run).listening()
                    &&& C::of(*listener) == run.receiver()
                    &&& C::of(*final(listener)) == final(run).receiver()
                    &&& delivered(
                        outputs@,
                        seen(results),
                        run.entries(),
                        CallState::meaning(state),
                    )
                    &&& #[trigger] call_ensures(C::deliver, (listener, outputs), decision)
                    &&& r == governing(decision).code()
                    &&& final(run).has_panicked() == (decision is None)
                }
        },
{
    match userdata {
        None => Control::Pause.as_code(),
        Some(run) => {
            let ghost before = *run;
            // A previous callback already panicked, so stop rather than run
            // more code.
            let code: i32 = if run.panicked {
                Control::Pause.as_code()
            } else {
                let outputs = run.outputs(results, CallState::from(state));
                let outputs: &[Output<'_>] = outputs.as_slice();
                assert(outputs.shows() =~= come_to(
                    seen(results),
                    run.n_batch,
                    CallState::meaning(state),
                ));
                match C::deliver(&mut run.listener, outputs) {
                    Some(control) => control.as_code(),
                    None => {
                        run.panicked = true;
                        Control::Pause.as_code()
                    },
                }
            };
            proof {
                let report = Report::of(results, state, code);
                run.log@ = run.log@.push(report);
                if !before.panicked {
                    run.answered@ = run.answered@ + 1;
                    assert(is_reply(before.receiver(), before.n_batch, report, run.panicked));
                    assert(run.heard().drop_last() =~= before.heard());
                    assert(is_reply(before.first@, before.n_batch, report, run.panicked));
                }
                assert(forall|i: int|
                    #![trigger run.log@[i]]
                    0 <= i < before.log@.len() ==> run.log@[i] == before.log@[i]);
            }
            code
        },
    }
}

impl<C: RunCallback> ResultCallback for CallbackState<C> {
    type Origin = (C, usize);

    open spec fn origin(&self) -> (C, usize) {
        (self.started_with(), self.entries())
    }

    open spec fn callable(&self) -> bool {
        self.usable()
    }

    open spec fn reported(&self) -> Seq<Report> {
        self.calls()
    }

    fn call(&mut self, results: Option<&[RKLLMResult]>, state: LLMCallState) -> (r: i32)
        ensures
            answered(*old(self), Report::of(results, state, r), *final(self)),
            !old(self).has_panicked() ==> exists|
                listener: &mut C::Listener,
                outputs: &[Output<'_>],
                decision: Option<Control>,
            |
                {
                    &&& *listener == old(self).listening()
                    &&& *final(listener) == final(self).listening()
                    &&& C::of(*listener) == old(self).receiver()
                    &&& C::of(*final(listener)) == final(self).receiver()
                    &&& delivered(
                        outputs@,
                        seen(results),
                        old(self).entries(),
                        CallState::meaning(state),
                    )
                    &&& #[trigger] call_ensures(C::deliver, (listener, outputs), decision)
                    &&& r == governing(decision).code()
                    &&& final(self).has_panicked() == (decision is None)
                },
    {
        trampoline(results, Some(self), state)
    }
}

/// A callback always delivers something, and never more than one output per
/// batch entry.
pub proof fn something_is_always_delivered(
    outputs: Seq<Output<'_>>,
    results: Option<Seq<RKLLMResult>>,
    n_batch: usize,
    state: CallState,
)
    requires
        n_batch > 0,
        delivered(outputs, results, n_batch, state),
    ensures
        1 <= outputs.len() <= n_batch,
        outputs[0].call_state() == state,
{
}

/// While generating there is one output per batch entry, in the same order.
pub proof fn every_entry_is_delivered_while_generating(
    outputs: Seq<Output<'_>>,
    results: Seq<RKLLMResult>,
    n_batch: usize,
    state: CallState,
    i: int,
)
    requires
        0 <= i < n_batch,
        !state.ends_run(),
        results.len() == n_batch,
        delivered(outputs, Some(results), n_batch, state),
    ensures
        outputs.len() == n_batch,
        outputs[i].entry() == Some(results[i]),
        outputs[i].call_state() == state,
{
}

/// In the states that end a run there is a single output, whatever the batch
/// size.
pub proof fn a_final_state_delivers_one_output(
    outputs: Seq<Output<'_>>,
    results: Option<Seq<RKLLMResult>>,
    n_batch: usize,
    state: CallState,
)
    requires
        n_batch > 0,
        state.ends_run(),
        delivered(outputs, results, n_batch, state),
    ensures
        outputs.len() == 1,
{
}

/// A panic stops the run: the callback it happened in says so, and every later
/// one does, without calling the receiver again.
pub proof fn a_panic_stops_the_run<C: RunCallback>(
    run: CallbackState<C>,
    report: Report,
    after: CallbackState<C>,
)
    requires
        answered(run, report, after),
    ensures
        after.has_panicked() ==> report.code == Control::Pause.code(),
        run.has_panicked() ==> {
            &&& after.has_panicked()
            &&& after.receiver() == run.receiver()
            &&& after.deliveries() == run.deliveries()
        },
{
}

/// Whatever the runtime was told during a run is a decision: one that the receiver
/// may take on what that call came to, or, from a panic on, to stop.
pub proof fn every_code_is_a_decision<C: RunCallback>(run: CallbackState<C>, i: int)
    requires
        run.usable(),
        0 <= i < run.calls().len(),
    ensures
        exists|control: Control| run.calls()[i].code == #[trigger] control.code(),
        !run.has_panicked() ==> is_reply(
            run.started_with(),
            run.entries(),
            run.calls()[i],
            false,
        ),
{
    if i < run.deliveries() {
        let (outputs, decision) = choose|outputs: &[Output<'_>], decision: Option<Control>|
            {
                &&& delivered(
                    outputs@,
                    run.calls()[i].results,
                    run.entries(),
                    CallState::meaning(run.calls()[i].state),
                )
                &&& #[trigger] run.started_with().replies(outputs, decision)
                &&& run.calls()[i].code == governing(decision).code()
                &&& (run.has_panicked() && i == run.deliveries() - 1) == (decision is None)
            };
        assert(run.calls()[i].code == governing(decision).code());
    } else {
        assert(run.calls()[i].code == Control::Pause.code());
    }
}

/// A run in which a callback panicked was told to stop, from that call to the
/// last.
pub proof fn a_run_that_panicked_was_told_to_stop<C: RunCallback>(run: CallbackState<C>)
    requires
        run.usable(),
        run.has_panicked(),
    ensures
        run.was_stopped(),
        forall|i: int|
            run.deliveries() - 1 <= i < run.calls().len() ==> (#[trigger] run.calls()[i]).code
                == Control::Pause.code(),
{
    let last = run.calls().len() - 1;
    assert(run.calls()[last] == run.calls().last());
}

/// Each call of the runtime's leads to one call of the closure, until the closure
/// panics, and to none after that. What the closure heard before stays as it was.
pub proof fn each_report_is_heard_once<C: RunCallback>(
    run: CallbackState<C>,
    report: Report,
    after: CallbackState<C>,
)
    requires
        answered(run, report, after),
    ensures
        after.calls().len() == run.calls().len() + 1,
        after.calls().last() == report,
        run.has_panicked() ==> after.heard() == run.heard(),
        !run.has_panicked() ==> after.heard().len() == run.heard().len() + 1,
        forall|i: int| 0 <= i < run.heard().len() ==> after.heard()[i] == #[trigger] run.heard()[i],
        !run.has_panicked() ==> {
            let decision = after.heard().last().decision;
            &&& decision == Some(Control::Continue) <==> report.code == 0
            &&& decision == Some(Control::ReleaseBuffer) <==> report.code == 2
            &&& decision == Some(Control::Pause) || decision is None <==> report.code == 1
            &&& after.has_panicked() <==> decision is None
        },
        run.has_panicked() ==> report.code == 1 && after.has_panicked(),
{
    if !run.has_panicked() {
        assert forall|i: int| 0 <= i < run.heard().len() implies after.heard()[i]
            == #[trigger] run.heard()[i] by {
            assert(after.heard().drop_last()[i] == after.heard()[i]);
        }
    }
}

/// A closure for one output at a time is shown one output of each call it hears: the
/// first that was reported, or an empty one where nothing was.
pub proof fn the_first_output_is_shown<R: Reply, F: FnMut(Output<'_>) -> R>(
    run: CallbackState<PerOutput<F>>,
    i: int,
)
    requires
        run.usable(),
        0 <= i < run.heard().len(),
    ensures
        i < run.calls().len(),
        run.heard()[i].shown.len() == 1,
        run.heard()[i].shown[0].state == CallState::meaning(run.calls()[i].state),
        run.heard()[i].shown[0].entry == (match run.calls()[i].results {
            Some(results) => if results.len() > 0 {
                Some(results[0])
            } else {
                None
            },
            None => None,
        }),
        exists|output: Output<'_>, reply: R|
            {
                &&& output.call_state() == run.heard()[i].shown[0].state
                &&& output.entry() == run.heard()[i].shown[0].entry
                &&& #[trigger] call_ensures(run.started_with().closure, (output,), reply)
                &&& reply.decision() == run.heard()[i].decision
            },
{
    let report = run.calls()[i];
    let heard = run.heard()[i];
    let state = CallState::meaning(report.state);
    assert(heard_of(run.started_with(), run.entries(), report, heard));
    let outputs = choose|outputs: &[Output<'_>]|
        {
            &&& delivered(outputs@, report.results, run.entries(), state)
            &&& #[trigger] run.started_with().replies(outputs, heard.decision)
        };
    assert(outputs@[0].call_state() == state);
    let reply = choose|reply: R|
        #[trigger] call_ensures(run.started_with().closure, (outputs@[0],), reply)
            && reply.decision() == heard.decision;
    assert(call_ensures(run.started_with().closure, (outputs@[0],), reply));
}

/// A closure for a batch is shown an output for each entry that was reported, in
/// order. In the states that end a run that is the first alone. Where nothing was
/// reported it is shown one that is empty.
pub proof fn every_entry_is_shown<R: Reply, F: FnMut(&[Output<'_>]) -> R>(
    run: CallbackState<PerBatch<F>>,
    i: int,
)
    requires
        run.usable(),
        0 <= i < run.heard().len(),
    ensures
        i < run.calls().len(),
        forall|j: int|
            0 <= j < run.heard()[i].shown.len() ==> (#[trigger] run.heard()[i].shown[j]).state
                == CallState::meaning(run.calls()[i].state),
        run.calls()[i].results is None || run.calls()[i].results->0.len() == 0
            ==> run.heard()[i].shown.len() == 1 && run.heard()[i].shown[0].entry is None,
        run.calls()[i].results matches Some(results) ==> results.len() > 0 ==> {
            let shown = run.heard()[i].shown;
            let over = run.calls()[i].state is RKLLM_RUN_FINISH
                || run.calls()[i].state is RKLLM_RUN_ERROR;
            &&& over ==> shown.len() == 1
            &&& !over && results.len() >= run.entries() ==> shown.len() == run.entries()
            &&& !over && results.len() < run.entries() ==> shown.len() == results.len()
            &&& forall|j: int|
                0 <= j < shown.len() ==> (#[trigger] shown[j]).entry == Some(results[j])
        },
        exists|outputs: &[Output<'_>], reply: R|
            {
                &&& outputs.shows() == run.heard()[i].shown
                &&& #[trigger] call_ensures(run.started_with().closure, (outputs,), reply)
                &&& reply.decision() == run.heard()[i].decision
            },
{
    let report = run.calls()[i];
    let heard = run.heard()[i];
    let state = CallState::meaning(report.state);
    assert(heard_of(run.started_with(), run.entries(), report, heard));
    let outputs = choose|outputs: &[Output<'_>]|
        {
            &&& delivered(outputs@, report.results, run.entries(), state)
            &&& #[trigger] run.started_with().replies(outputs, heard.decision)
        };
    assert(outputs.shows() =~= heard.shown);
    let reply = choose|reply: R|
        #[trigger] call_ensures(run.started_with().closure, (outputs,), reply)
            && reply.decision() == heard.decision;
    assert(call_ensures(run.started_with().closure, (outputs,), reply));
}

/// A report is kept as it was made: the results, the state and the reply.
pub proof fn a_report_is_kept_as_made(
    results: Option<&[RKLLMResult]>,
    state: LLMCallState,
    code: i32,
)
    ensures
        Report::of(results, state, code).results is Some <==> results is Some,
        results matches Some(results) ==> Report::of(Some(results), state, code).results->0
            == results@,
        Report::of(results, state, code).state == state,
        Report::of(results, state, code).code == code,
{
}

} // verus!
