//! The worker engine: accepts commands, hands back an opaque job identity at
//! once, dispatches queued jobs to a bounded pool of workers in submission
//! order, and answers polls against the result store. The engine is the only
//! component that moves a job's state, and it moves it monotonically:
//! pending, then running, then exactly one terminal state, never back.
//!
//! The engine itself performs no outside work. A worker loop outside the
//! library asks it for the next job, runs the toolchain process, and hands
//! the outcome back through `finish`.

use crate::types::{Command, CompileResponse};
use vstd::prelude::*;

verus! {

/// The lifecycle state of one job. Exactly the executing worker moves a job
/// out of `Pending` and `Running`; the two `Completed`/`Failed` states are
/// terminal and immutable.
#[derive(Debug)]
pub enum JobState {
    Pending,
    Running,
    Completed(CompileResponse),
    Failed(Vec<u8>),
}

/// The terminal outcome a worker hands back: the job's response, or the text
/// of an engine-level fault that kept the job from producing one.
#[derive(Debug)]
pub enum JobOutcome {
    Completed(CompileResponse),
    Failed(Vec<u8>),
}

/// Whether a job state is terminal.
pub open spec fn is_terminal(s: JobState) -> bool {
    s is Completed || s is Failed
}

/// The state a finished job moves to for a given outcome.
pub open spec fn outcome_state(o: JobOutcome) -> JobState {
    match o {
        JobOutcome::Completed(r) => JobState::Completed(r),
        JobOutcome::Failed(m) => JobState::Failed(m),
    }
}

/// The opaque identity a submission hands back. Clients hold it and poll
/// with it; nothing about it is meant to be parsed.
#[derive(Clone, Copy, Debug, PartialEq, Eq, Structural)]
pub struct JobId {
    n: usize,
}

impl JobId {
    /// The position of this job in the engine's submission order.
    pub closed spec fn idx(self) -> int {
        self.n as int
    }
}

/// How many of the states in `s` are `Running`.
pub open spec fn n_running(s: Seq<JobState>) -> int
    decreases s.len(),
{
    if s.len() == 0 {
        0
    } else {
        n_running(s.drop_last()) + if s.last() is Running {
            1int
        } else {
            0int
        }
    }
}

proof fn lemma_n_running_nonneg(s: Seq<JobState>)
    ensures
        n_running(s) >= 0,
    decreases s.len(),
{
    if s.len() > 0 {
        lemma_n_running_nonneg(s.drop_last());
    }
}

proof fn lemma_n_running_push(s: Seq<JobState>, x: JobState)
    ensures
        n_running(s.push(x)) == n_running(s) + if x is Running {
            1int
        } else {
            0int
        },
{
    assert(s.push(x).drop_last() =~= s);
}

proof fn lemma_n_running_update(s: Seq<JobState>, i: int, x: JobState)
    requires
        0 <= i < s.len(),
    ensures
        n_running(s.update(i, x)) == n_running(s) - (if s[i] is Running {
            1int
        } else {
            0int
        }) + (if x is Running {
            1int
        } else {
            0int
        }),
    decreases s.len(),
{
    let t = s.update(i, x);
    if i == s.len() - 1 {
        assert(t.drop_last() =~= s.drop_last());
    } else {
        assert(t.drop_last() =~= s.drop_last().update(i, x));
        lemma_n_running_update(s.drop_last(), i, x);
    }
}

proof fn lemma_n_running_at_least_one(s: Seq<JobState>, i: int)
    requires
        0 <= i < s.len(),
        s[i] is Running,
    ensures
        n_running(s) >= 1,
    decreases s.len(),
{
    lemma_n_running_nonneg(s.drop_last());
    if i < s.len() - 1 {
        lemma_n_running_at_least_one(s.drop_last(), i);
    }
}

/// The engine: the result store (one state per submitted job, indexed in
/// submission order), the stored commands and submission stamps, the queue
/// position of the first job not yet handed to a worker, the number of jobs
/// running now, and the size of the worker pool.
///
/// The queue needs no structure of its own: jobs are dispatched in
/// first-in-first-out order, so the pending jobs are exactly the positions
/// from `next_dispatch` up.
///
/// Two policy choices, made explicitly: the queue is unbounded, so a
/// submission never blocks and never fails — under sustained overload the
/// queue, not the pool, grows; and records are retained for the engine's
/// whole life, so a terminal state stays observable forever — an owner that
/// must bound memory bounds the engine's life, since evicting single records
/// would break exactly that observability.
pub struct Engine {
    pub states: Vec<JobState>,
    pub commands: Vec<Command>,
    pub submitted_at: Vec<u64>,
    pub next_dispatch: usize,
    pub running: usize,
    pub pool_size: usize,
}

impl Engine {
    /// Well-formedness: the store's columns agree in length, the dispatch
    /// position splits the store into dispatched jobs (no longer pending)
    /// and queued ones (still pending), the running counter counts exactly
    /// the running jobs, and it never exceeds the pool.
    pub open spec fn wf(&self) -> bool {
        &&& self.commands@.len() == self.states@.len()
        &&& self.submitted_at@.len() == self.states@.len()
        &&& self.next_dispatch <= self.states@.len()
        &&& 1 <= self.pool_size
        &&& self.running <= self.pool_size
        &&& self.running == n_running(self.states@)
        &&& forall|i: int|
            self.next_dispatch <= i < self.states@.len() ==> self.states@[i] is Pending
        &&& forall|i: int| 0 <= i < self.next_dispatch ==> !(self.states@[i] is Pending)
    }

    /// A fresh engine over a pool of `pool_size` workers: no jobs, nothing
    /// running.
    pub fn new(pool_size: usize) -> (e: Engine)
        requires
            pool_size >= 1,
        ensures
            e.wf(),
            e.states@.len() == 0,
            e.pool_size == pool_size,
    {
        Engine {
            states: Vec::new(),
            commands: Vec::new(),
            submitted_at: Vec::new(),
            next_dispatch: 0,
            running: 0,
            pool_size,
        }
    }

    /// Accept one command: store it as a pending job stamped `now`, and hand
    /// back its identity at once. The command is not run here — at return
    /// the job is pending, not terminal — and the identity is fresh: one
    /// past every identity handed out before.
    pub fn submit(&mut self, cmd: Command, now: u64) -> (id: JobId)
        requires
            old(self).wf(),
        ensures
            final(self).wf(),
            step(*old(self), *final(self)),
            submit_rel(*old(self), *final(self), cmd, now, id.idx()),
            id.idx() == old(self).states@.len(),
            final(self).states@[id.idx()] is Pending,
            !is_terminal(final(self).states@[id.idx()]),
    {
        let id = JobId { n: self.states.len() };
        let ghost gcmd = cmd;
        self.states.push(JobState::Pending);
        self.commands.push(cmd);
        self.submitted_at.push(now);
        proof {
            lemma_n_running_push(old(self).states@, JobState::Pending);
            assert(submit_rel(*old(self), *self, gcmd, now, id.idx()));
        }
        id
    }

    /// Poll one identity. An identity the engine never handed out answers
    /// `None` — a condition distinct from every job state, in particular
    /// from a job that is merely still pending — and a known identity
    /// answers its current state.
    pub fn query(&self, id: JobId) -> (r: Option<&JobState>)
        ensures
            (r is None) == (id.idx() >= self.states@.len() || id.idx() < 0),
            r matches Some(s) ==> *s == self.states@[id.idx()],
    {
        if id.n < self.states.len() {
            Some(&self.states[id.n])
        } else {
            None
        }
    }

    /// The command a job was submitted with.
    pub fn command_of(&self, id: JobId) -> (c: &Command)
        requires
            0 <= id.idx() < self.commands@.len(),
        ensures
            *c == self.commands@[id.idx()],
    {
        &self.commands[id.n]
    }

    /// The stamp a job was submitted at.
    pub fn submitted_at_of(&self, id: JobId) -> (t: u64)
        requires
            0 <= id.idx() < self.submitted_at@.len(),
        ensures
            t == self.submitted_at@[id.idx()],
    {
        self.submitted_at[id.n]
    }

    /// Hand the next queued job to a worker, if the queue is not empty and a
    /// worker is free. Dispatch is first-in-first-out: the job handed out is
    /// always the oldest still pending, it moves from pending to running,
    /// and no other job moves at all. When nothing is dispatched — queue
    /// empty or pool full — the engine is unchanged.
    pub fn take_next(&mut self) -> (r: Option<JobId>)
        requires
            old(self).wf(),
        ensures
            final(self).wf(),
            step(*old(self), *final(self)),
            (old(self).next_dispatch < old(self).states@.len() && old(self).running < old(
                self,
            ).pool_size) ==> (r matches Some(id) && id.idx() == old(self).next_dispatch
                && dispatch_rel(*old(self), *final(self), id.idx())),
            (old(self).next_dispatch == old(self).states@.len() || old(self).running >= old(
                self,
            ).pool_size) ==> (r is None && *final(self) == *old(self)),
    {
        if self.next_dispatch < self.states.len() && self.running < self.pool_size {
            let i = self.next_dispatch;
            proof {
                lemma_n_running_update(self.states@, i as int, JobState::Running);
            }
            self.states.set(i, JobState::Running);
            self.next_dispatch = i + 1;
            self.running = self.running + 1;
            proof {
                assert(dispatch_rel(*old(self), *self, i as int));
            }
            Some(JobId { n: i })
        } else {
            None
        }
    }

    /// Record the terminal outcome of one running job. Only the worker that
    /// owns the job calls this, exactly once: the job must be running, it
    /// moves to the outcome's terminal state, and no other job moves.
    pub fn finish(&mut self, id: JobId, outcome: JobOutcome)
        requires
            old(self).wf(),
            0 <= id.idx() < old(self).states@.len(),
            old(self).states@[id.idx()] is Running,
        ensures
            final(self).wf(),
            step(*old(self), *final(self)),
            finish_rel(*old(self), *final(self), id.idx(), outcome_state(outcome)),
    {
        proof {
            lemma_n_running_at_least_one(self.states@, id.idx());
            lemma_n_running_update(self.states@, id.idx(), outcome_state(outcome));
        }
        let ghost goutcome = outcome;
        let st = match outcome {
            JobOutcome::Completed(r) => JobState::Completed(r),
            JobOutcome::Failed(m) => JobState::Failed(m),
        };
        self.states.set(id.n, st);
        self.running = self.running - 1;
        proof {
            assert(finish_rel(*old(self), *self, id.idx(), outcome_state(goutcome)));
        }
    }

    /// How many jobs the engine has accepted.
    pub fn job_count(&self) -> (n: usize)
        ensures
            n == self.states@.len(),
    {
        self.states.len()
    }
}

/// The submission transition: one pending job is appended, stamped `now`,
/// under the fresh identity `id`; nothing else moves.
pub open spec fn submit_rel(pre: Engine, post: Engine, cmd: Command, now: u64, id: int) -> bool {
    &&& id == pre.states@.len()
    &&& post.states@ == pre.states@.push(JobState::Pending)
    &&& post.commands@ == pre.commands@.push(cmd)
    &&& post.submitted_at@ == pre.submitted_at@.push(now)
    &&& post.next_dispatch == pre.next_dispatch
    &&& post.running == pre.running
    &&& post.pool_size == pre.pool_size
}

/// The dispatch transition: the oldest queued job `id` moves from pending
/// to running on a free worker; nothing else moves.
pub open spec fn dispatch_rel(pre: Engine, post: Engine, id: int) -> bool {
    &&& id == pre.next_dispatch
    &&& pre.next_dispatch < pre.states@.len()
    &&& pre.running < pre.pool_size
    &&& post.states@ == pre.states@.update(id, JobState::Running)
    &&& post.commands@ == pre.commands@
    &&& post.submitted_at@ == pre.submitted_at@
    &&& post.next_dispatch == pre.next_dispatch + 1
    &&& post.running == pre.running + 1
    &&& post.pool_size == pre.pool_size
}

/// The completion transition: the running job `id` moves to the terminal
/// state `st`; nothing else moves.
pub open spec fn finish_rel(pre: Engine, post: Engine, id: int, st: JobState) -> bool {
    &&& 0 <= id < pre.states@.len()
    &&& pre.states@[id] is Running
    &&& is_terminal(st)
    &&& post.states@ == pre.states@.update(id, st)
    &&& post.commands@ == pre.commands@
    &&& post.submitted_at@ == pre.submitted_at@
    &&& post.next_dispatch == pre.next_dispatch
    &&& post.running == pre.running - 1
    &&& post.pool_size == pre.pool_size
}

/// One step of the engine: it stands still, or takes exactly one of the
/// three transitions. Every exec operation of `Engine` takes one step.
pub open spec fn step(pre: Engine, post: Engine) -> bool {
    ||| post == pre
    ||| exists|cmd: Command, now: u64, id: int| submit_rel(pre, post, cmd, now, id)
    ||| exists|id: int| dispatch_rel(pre, post, id)
    ||| exists|id: int, st: JobState| finish_rel(pre, post, id, st)
}

/// Well-formedness is an invariant: every step of the engine preserves it.
/// In particular, in every reachable engine state at most `pool_size` jobs
/// are running at once.
pub proof fn lemma_step_preserves_wf(pre: Engine, post: Engine)
    requires
        pre.wf(),
        step(pre, post),
    ensures
        post.wf(),
{
    if post == pre {
    } else if exists|cmd: Command, now: u64, id: int| submit_rel(pre, post, cmd, now, id) {
        let (cmd, now, id) = choose|cmd: Command, now: u64, id: int|
            submit_rel(pre, post, cmd, now, id);
        lemma_n_running_push(pre.states@, JobState::Pending);
    } else if exists|id: int| dispatch_rel(pre, post, id) {
        let id = choose|id: int| dispatch_rel(pre, post, id);
        lemma_n_running_update(pre.states@, id, JobState::Running);
    } else {
        let (id, st) = choose|id: int, st: JobState| finish_rel(pre, post, id, st);
        lemma_n_running_update(pre.states@, id, st);
        lemma_n_running_at_least_one(pre.states@, id);
    }
}

/// Terminal states are immutable: once a job is in a terminal state, no step
/// of the engine changes that state. A poll that observed a terminal state
/// therefore observes the identical state on every later poll.
pub proof fn lemma_terminal_stable(pre: Engine, post: Engine, i: int)
    requires
        pre.wf(),
        step(pre, post),
        0 <= i < pre.states@.len(),
        is_terminal(pre.states@[i]),
    ensures
        i < post.states@.len(),
        post.states@[i] == pre.states@[i],
{
    if post == pre {
    } else if exists|cmd: Command, now: u64, id: int| submit_rel(pre, post, cmd, now, id) {
        let (cmd, now, id) = choose|cmd: Command, now: u64, id: int|
            submit_rel(pre, post, cmd, now, id);
    } else if exists|id: int| dispatch_rel(pre, post, id) {
        let id = choose|id: int| dispatch_rel(pre, post, id);
        assert(pre.states@[id] is Pending);
    } else {
        let (id, st) = choose|id: int, st: JobState| finish_rel(pre, post, id, st);
        assert(pre.states@[id] is Running);
    }
}

/// Terminal states are immutable over any run of the engine: along a trace
/// whose consecutive states are engine steps, a job observed terminal stays
/// in that identical state to the end of the trace.
pub proof fn lemma_terminal_stable_trace(trace: Seq<Engine>, i: int)
    requires
        trace.len() >= 1,
        trace[0].wf(),
        forall|k: int| 0 <= k < trace.len() - 1 ==> step(trace[k], #[trigger] trace[k + 1]),
        0 <= i < trace[0].states@.len(),
        is_terminal(trace[0].states@[i]),
    ensures
        i < trace.last().states@.len(),
        trace.last().states@[i] == trace[0].states@[i],
    decreases trace.len(),
{
    if trace.len() > 1 {
        assert(step(trace[0], trace[0int + 1]));
        lemma_step_preserves_wf(trace[0], trace[1]);
        lemma_terminal_stable(trace[0], trace[1], i);
        let rest = trace.skip(1);
        assert(forall|k: int|
            0 <= k < rest.len() - 1 ==> step(rest[k], #[trigger] rest[k + 1])) by {
            assert(forall|k: int| 0 <= k < rest.len() ==> rest[k] == trace[k + 1]);
        }
        lemma_terminal_stable_trace(rest, i);
        assert(rest.last() == trace.last());
    }
}

/// A submission leaves the new job pending — submission returns its identity
/// strictly before the job can reach any terminal state — and the identity
/// is fresh: it names no job that existed before, and every identity handed
/// out before names an unchanged job.
pub proof fn lemma_submit_fresh_and_pending(
    pre: Engine,
    post: Engine,
    cmd: Command,
    now: u64,
    id: int,
)
    requires
        submit_rel(pre, post, cmd, now, id),
    ensures
        id == pre.states@.len(),
        post.states@[id] is Pending,
        !is_terminal(post.states@[id]),
        forall|j: int| 0 <= j < pre.states@.len() ==> post.states@[j] == pre.states@[j],
{
}

/// No job is dispatched twice and none is lost: a dispatch moves exactly one
/// job, the oldest still pending, from pending to running, and a job already
/// handed to a worker is never handed out again because the dispatch
/// position only grows.
pub proof fn lemma_dispatch_once(pre: Engine, post: Engine, id: int)
    requires
        pre.wf(),
        dispatch_rel(pre, post, id),
    ensures
        pre.states@[id] is Pending,
        post.states@[id] is Running,
        forall|j: int| 0 <= j < pre.states@.len() && j != id ==> post.states@[j] == pre.states@[j],
        post.next_dispatch == id + 1,
{
}

/// The pool bound: a well-formed engine never has more jobs running than
/// the pool holds workers, and a dispatch happens exactly when a queued job
/// and a free worker exist.
pub proof fn lemma_running_bounded(e: Engine)
    requires
        e.wf(),
    ensures
        n_running(e.states@) <= e.pool_size,
{
}

/// Where a job state stands in the lifecycle: pending, then running, then
/// terminal.
pub open spec fn lifecycle_rank(s: JobState) -> int {
    match s {
        JobState::Pending => 0,
        JobState::Running => 1,
        JobState::Completed(_) => 2,
        JobState::Failed(_) => 2,
    }
}

/// The lifecycle is monotonic: no step of the engine moves any job backward
/// — a running job never becomes pending again, a terminal one never
/// reopens. Together with `lemma_submit_fresh_and_pending` this orders every
/// job's life: its identity is handed out while it is pending, strictly
/// before it can run or end.
pub proof fn lemma_lifecycle_monotonic(pre: Engine, post: Engine, i: int)
    requires
        pre.wf(),
        step(pre, post),
        0 <= i < pre.states@.len(),
    ensures
        i < post.states@.len(),
        lifecycle_rank(post.states@[i]) >= lifecycle_rank(pre.states@[i]),
{
    if post == pre {
    } else if exists|cmd: Command, now: u64, id: int| submit_rel(pre, post, cmd, now, id) {
        let (cmd, now, id) = choose|cmd: Command, now: u64, id: int|
            submit_rel(pre, post, cmd, now, id);
    } else if exists|id: int| dispatch_rel(pre, post, id) {
        let id = choose|id: int| dispatch_rel(pre, post, id);
        assert(pre.states@[id] is Pending);
    } else {
        let (id, st) = choose|id: int, st: JobState| finish_rel(pre, post, id, st);
    }
}

} // verus!
