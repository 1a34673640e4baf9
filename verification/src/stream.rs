//! A run turned into a stream of chunks: what to send, what to yield, and when
//! to end.
//!
//! The run happens on a thread of its own, which sends its chunks through a
//! channel. The stream reads the channel until the sender is gone, and then asks
//! the thread's task how the run ended. Reading and asking are done by whoever
//! drives the stream. The decisions in between are made here.
use vstd::prelude::*;

use crate::error::Error;
use crate::output::{Chunk, Control};

verus! {

/// How many chunks the channel holds before the runtime is made to wait.
pub const DEFAULT_BUFFER: usize = 64;

/// The capacity of the channel for a requested `buffer`.
///
/// A capacity of zero is treated as one, since the channel needs room for at
/// least one chunk.
pub fn capacity(buffer: usize) -> (r: usize)
    ensures
        r == vstd::math::max(buffer as int, 1),
{
    if buffer == 0 {
        1
    } else {
        buffer
    }
}

/// How a run goes on once a chunk was sent, or could not be: a stream that was
/// dropped leaves nobody to read the rest.
pub fn after_send(sent: bool) -> (r: Control)
    ensures
        r == (if sent {
            Control::Continue
        } else {
            Control::Pause
        }),
{
    if sent {
        Control::Continue
    } else {
        Control::Pause
    }
}

/// What reading the channel came to.
#[derive(Debug)]
pub enum Received {
    /// A chunk.
    Chunk(Chunk),
    /// Nothing yet.
    Pending,
    /// The sender is gone, and every chunk was read.
    Closed,
}

/// How the task of a run ended, where `J` says why a task gave no answer.
#[derive(Debug)]
pub enum Joined<J> {
    /// The run returned.
    Returned(Result<(), Error>),
    /// The task panicked, or was cancelled.
    Lost(J),
}

/// What asking the task came to.
#[derive(Debug)]
pub enum TaskPoll<J> {
    /// It has not ended yet.
    Pending,
    /// It has ended.
    Ready(Joined<J>),
}

/// Why a stream failed.
#[derive(Debug)]
pub enum StreamError<J> {
    /// The run failed.
    Run(Error),
    /// The task gave no answer.
    Task(J),
}

/// What the stream does next.
#[derive(Debug)]
pub enum Polled<J> {
    /// It has nothing to yield yet.
    Pending,
    /// It yields an item.
    Item(Result<Chunk, StreamError<J>>),
    /// It has ended.
    Done,
}

/// What to do once the channel was read.
#[derive(Debug)]
pub enum Step<J> {
    /// This, and nothing more.
    Answer(Polled<J>),
    /// Ask the task how the run ended.
    AskTask,
}

/// Where a stream is: whether it still has a task to ask.
#[derive(Debug, Clone, Copy, PartialEq, Eq, Structural)]
pub struct StreamState {
    has_task: bool,
}

/// What a stream makes of the end of its task. The run's own result is the last
/// thing to report.
pub open spec fn reported<J>(joined: Joined<J>) -> Polled<J> {
    match joined {
        Joined::Returned(Ok(())) => Polled::Done,
        Joined::Returned(Err(run)) => Polled::Item(Err(StreamError::Run(run))),
        Joined::Lost(join) => Polled::Item(Err(StreamError::Task(join))),
    }
}

/// What a stream that `has_task` to ask or not does next, once the channel came
/// to `received` and the task, where it is asked, to `task`.
pub open spec fn poll<J>(has_task: bool, received: Received, task: TaskPoll<J>) -> Polled<J> {
    match received {
        Received::Chunk(chunk) => Polled::Item(Ok(chunk)),
        Received::Pending => Polled::Pending,
        Received::Closed => if !has_task {
            Polled::Done
        } else {
            match task {
                TaskPoll::Pending => Polled::Pending,
                TaskPoll::Ready(joined) => reported(joined),
            }
        },
    }
}

/// Whether there is still a task to ask after that. It is asked for its answer
/// only once.
pub open spec fn keeps_task<J>(has_task: bool, received: Received, task: TaskPoll<J>) -> bool {
    has_task && !(received is Closed && task is Ready)
}

impl StreamState {
    /// Whether there is a task to ask.
    pub closed spec fn has_task_left(self) -> bool {
        self.has_task
    }

    /// The state of a stream whose run was just started.
    pub fn new() -> (r: StreamState)
        ensures
            r.has_task_left(),
    {
        StreamState { has_task: true }
    }

    /// What to do once the channel came to `received`.
    pub fn after_receive<J>(&self, received: Received) -> (r: Step<J>)
        ensures
            r is AskTask <==> received is Closed && self.has_task_left(),
            received matches Received::Chunk(chunk) ==> r == Step::<J>::Answer(
                Polled::Item(Ok(chunk)),
            ),
            received is Pending ==> r == Step::<J>::Answer(Polled::Pending),
            received is Closed && !self.has_task_left() ==> r == Step::<J>::Answer(Polled::Done),
            r matches Step::Answer(polled) ==> forall|task: TaskPoll<J>| #[trigger]
                poll(self.has_task_left(), received, task) == polled && keeps_task(
                    self.has_task_left(),
                    received,
                    task,
                ) == self.has_task_left(),
    {
        match received {
            Received::Chunk(chunk) => Step::Answer(Polled::Item(Ok(chunk))),
            Received::Pending => Step::Answer(Polled::Pending),
            Received::Closed => if self.has_task {
                Step::AskTask
            } else {
                Step::Answer(Polled::Done)
            },
        }
    }

    /// What to do once the task, asked because the channel is closed, came to
    /// `task`.
    pub fn after_task<J>(&mut self, task: TaskPoll<J>) -> (r: Polled<J>)
        requires
            old(self).has_task_left(),
        ensures
            r == poll(true, Received::Closed, task),
            final(self).has_task_left() == keeps_task(true, Received::Closed, task),
            task is Pending ==> r is Pending && final(self).has_task_left(),
            task is Ready ==> !final(self).has_task_left(),
            task matches TaskPoll::Ready(Joined::Returned(Ok(_))) ==> r is Done,
            task matches TaskPoll::Ready(Joined::Returned(Err(run))) ==> r == Polled::<J>::Item(
                Err(StreamError::Run(run)),
            ),
            task matches TaskPoll::Ready(Joined::Lost(join)) ==> r == Polled::<J>::Item(
                Err(StreamError::Task(join)),
            ),
    {
        match task {
            TaskPoll::Pending => Polled::Pending,
            TaskPoll::Ready(joined) => {
                self.has_task = false;
                match joined {
                    Joined::Returned(Ok(())) => Polled::Done,
                    Joined::Returned(Err(run)) => Polled::Item(Err(StreamError::Run(run))),
                    Joined::Lost(join) => Polled::Item(Err(StreamError::Task(join))),
                }
            },
        }
    }
}

impl Default for StreamState {
    /// The state of a stream whose run was just started.
    fn default() -> (r: StreamState)
        ensures
            r.has_task_left(),
    {
        StreamState::new()
    }
}

/// What one poll of a stream meets: what the channel comes to, and what the task
/// would.
pub ghost struct Encounter<J> {
    /// What the channel comes to.
    pub received: Received,
    /// What the task comes to, where it is asked.
    pub task: TaskPoll<J>,
}

/// Whether a stream still has a task to ask after its first `n` polls.
pub open spec fn task_left<J>(encounters: Seq<Encounter<J>>, n: nat) -> bool
    decreases n,
{
    if n == 0 {
        true
    } else {
        let last = encounters[n - 1];
        keeps_task(task_left(encounters, (n - 1) as nat), last.received, last.task)
    }
}

/// What the poll at `i` does, in a stream polled from its start.
pub open spec fn answer<J>(encounters: Seq<Encounter<J>>, i: int) -> Polled<J> {
    poll(task_left(encounters, i as nat), encounters[i].received, encounters[i].task)
}

/// Whether a channel that is closed stays closed.
pub open spec fn stays_closed<J>(encounters: Seq<Encounter<J>>) -> bool {
    forall|i: int, j: int|
        0 <= i <= j < encounters.len() && (#[trigger] encounters[i]).received is Closed ==> (
        #[trigger] encounters[j]).received is Closed
}

/// Once a task was joined, it stays joined.
proof fn task_stays_joined<J>(encounters: Seq<Encounter<J>>, i: nat, j: nat)
    requires
        i <= j,
        !task_left(encounters, i),
    ensures
        !task_left(encounters, j),
    decreases j,
{
    if i < j {
        task_stays_joined(encounters, i, (j - 1) as nat);
    }
}

/// The stream yields exactly the chunks that arrive, as they arrive: none is
/// lost, none is added, and none overtakes another.
pub proof fn yields_the_chunks_in_order<J>(encounters: Seq<Encounter<J>>, i: int, chunk: Chunk)
    requires
        0 <= i < encounters.len(),
    ensures
        encounters[i].received == Received::Chunk(chunk) <==> answer(encounters, i)
            == Polled::<J>::Item(Ok(chunk)),
{
}

/// A failure arrives after the last chunk, it arrives once, and once the stream
/// has failed or ended it stays ended.
pub proof fn ends_once<J>(encounters: Seq<Encounter<J>>, i: int, j: int)
    requires
        stays_closed(encounters),
        0 <= i < j < encounters.len(),
        answer(encounters, i) is Done || answer(encounters, i) matches Polled::Item(Err(_)),
    ensures
        answer(encounters, j) is Done,
{
    assert(encounters[i].received is Closed);
    assert(encounters[j].received is Closed);
    assert(!task_left(encounters, (i + 1) as nat));
    task_stays_joined(encounters, (i + 1) as nat, j as nat);
}

/// A failure is the one the run or its task reported, and a run that succeeded
/// ends its stream without one.
pub proof fn ends_with_what_the_run_returned<J>(encounters: Seq<Encounter<J>>, i: int)
    requires
        0 <= i < encounters.len(),
        task_left(encounters, i as nat),
        encounters[i].received is Closed,
        encounters[i].task is Ready,
    ensures
        answer(encounters, i) == reported(encounters[i].task->Ready_0),
{
}

/// The stream neither fails nor ends while the sender is still there.
pub proof fn ends_only_when_the_channel_closes<J>(encounters: Seq<Encounter<J>>, i: int)
    requires
        0 <= i < encounters.len(),
        !(encounters[i].received is Closed),
    ensures
        answer(encounters, i) is Pending || answer(encounters, i) matches Polled::Item(Ok(_)),
{
}

/// Once the channel is closed, the stream ends with just what became of the run. A
/// run that failed, whatever its error, is the last item. A task that was lost is
/// the last item too. The stream ends without one exactly when the run succeeded.
pub proof fn every_failure_is_reported<J>(error: Error, lost: J, joined: Joined<J>)
    ensures
        poll(true, Received::Closed, TaskPoll::Ready(Joined::<J>::Returned(Err(error))))
            == Polled::<J>::Item(Err(StreamError::Run(error))),
        poll(true, Received::Closed, TaskPoll::Ready(Joined::Lost(lost))) == Polled::<J>::Item(
            Err(StreamError::Task(lost)),
        ),
        poll(true, Received::Closed, TaskPoll::Ready(joined)) is Done <==> joined is Returned
            && joined->Returned_0 is Ok,
{
}

/// While the task has not ended there is nothing to say, and once it was joined
/// there never is.
pub proof fn a_closed_channel_waits_for_the_task<J>(task: TaskPoll<J>)
    ensures
        poll(true, Received::Closed, TaskPoll::<J>::Pending) is Pending,
        keeps_task(true, Received::Closed, TaskPoll::<J>::Pending),
        poll(false, Received::Closed, task) is Done,
        !keeps_task(false, Received::Closed, task),
        keeps_task(true, Received::Closed, task) <==> task is Pending,
{
}

/// While the sender is there, the task is left alone: what arrives is yielded, and
/// nothing is yielded otherwise.
pub proof fn an_open_channel_is_all_that_counts<J>(has_task: bool, chunk: Chunk, task: TaskPoll<J>)
    ensures
        poll(has_task, Received::Chunk(chunk), task) == Polled::<J>::Item(Ok(chunk)),
        poll(has_task, Received::Pending, task) is Pending,
        keeps_task(has_task, Received::Chunk(chunk), task) == has_task,
        keeps_task(has_task, Received::Pending, task) == has_task,
{
}

/// What `after_task` answers is what became of the run: its error is handed on as
/// it is, and no error comes from a run that had none.
pub proof fn the_answer_is_the_outcome<J>(
    state: StreamState,
    task: TaskPoll<J>,
    r: Polled<J>,
    error: Error,
    lost: J,
)
    requires
        exists|given: &mut StreamState|
            *given == state && #[trigger] call_ensures(
                StreamState::after_task::<J>,
                (given, task),
                r,
            ),
    ensures
        r is Done <==> task is Ready && task->Ready_0 is Returned
            && task->Ready_0->Returned_0 is Ok,
        r is Pending <==> task is Pending,
        r == Polled::<J>::Item(Err(StreamError::Run(error))) <==> task == TaskPoll::<J>::Ready(
            Joined::Returned(Err(error)),
        ),
        r == Polled::<J>::Item(Err(StreamError::Task(lost))) <==> task == TaskPoll::<J>::Ready(
            Joined::Lost(lost),
        ),
{
}

/// The channel holds what was asked for, and never nothing. A chunk that could not
/// be sent stops the run, and one that was sent does not.
pub proof fn sending_decides_the_run(buffer: usize, room: usize, sent: bool, control: Control)
    requires
        call_ensures(capacity, (buffer,), room),
        call_ensures(after_send, (sent,), control),
    ensures
        room >= 1,
        buffer >= 1 ==> room == buffer,
        control is Continue <==> sent,
        control is Pause <==> !sent,
{
}

} // verus!
