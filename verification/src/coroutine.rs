//! Stackful coroutines in user space: a runtime of a fixed number of tasks,
//! each with its own stack, scheduled round-robin.
//!
//! The runtime decides which task runs next and keeps the task states; the
//! context switch itself (saving and restoring the callee-saved registers)
//! is done by the caller with the contexts the runtime holds.

use vstd::prelude::*;

verus! {

/// Size of the stack of each task.
pub const DEFAULT_STACK_SIZE: usize = 4096;

/// Number of tasks of the runtime, the base task included.
pub const MAX_TASKS: usize = 5;

/// State of a task.
#[derive(Clone, Copy, Debug, PartialEq, Eq, Structural)]
pub enum State {
    /// Free: can be given a function to run.
    Available,
    /// The task that is running.
    Running,
    /// Waiting for its turn.
    Ready,
}

/// Registers saved across a switch: `ra`, `sp`, `s0`..`s11`, and the
/// address the task returns to when it is first switched to.
#[derive(Clone, Copy, Debug, PartialEq, Eq, Structural)]
pub struct TaskContext {
    /// ra: return address
    pub x1: u64,
    /// sp
    pub x2: u64,
    /// s0, fp
    pub x8: u64,
    /// s1
    pub x9: u64,
    /// s2
    pub x18: u64,
    /// s3
    pub x19: u64,
    /// s4
    pub x20: u64,
    /// s5
    pub x21: u64,
    /// s6
    pub x22: u64,
    /// s7
    pub x23: u64,
    /// s8
    pub x24: u64,
    /// s9
    pub x25: u64,
    /// s10
    pub x26: u64,
    /// s11
    pub x27: u64,
    /// new return address
    pub nx1: u64,
}

/// The context with every register 0.
pub open spec fn zero_context() -> TaskContext {
    TaskContext {
        x1: 0,
        x2: 0,
        x8: 0,
        x9: 0,
        x18: 0,
        x19: 0,
        x20: 0,
        x21: 0,
        x22: 0,
        x23: 0,
        x24: 0,
        x25: 0,
        x26: 0,
        x27: 0,
        nx1: 0,
    }
}

impl Default for TaskContext {
    fn default() -> (c: Self)
        ensures
            c == zero_context(),
    {
        TaskContext {
            x1: 0,
            x2: 0,
            x8: 0,
            x9: 0,
            x18: 0,
            x19: 0,
            x20: 0,
            x21: 0,
            x22: 0,
            x23: 0,
            x24: 0,
            x25: 0,
            x26: 0,
            x27: 0,
            nx1: 0,
        }
    }
}

/// A task of the runtime.
pub struct Task {
    id: usize,
    stack: Vec<u8>,
    ctx: TaskContext,
    state: State,
}

/// What is known of a task: its id, the bytes of its stack, its saved
/// context and its state.
pub struct TaskView {
    /// Id of the task.
    pub id: usize,
    /// The bytes of its stack.
    pub stack: Seq<u8>,
    /// Its saved context.
    pub ctx: TaskContext,
    /// Its state.
    pub state: State,
}

impl View for Task {
    type V = TaskView;

    closed spec fn view(&self) -> TaskView {
        TaskView { id: self.id, stack: self.stack@, ctx: self.ctx, state: self.state }
    }
}

/// A stack of `DEFAULT_STACK_SIZE` zero bytes.
pub open spec fn zero_stack() -> Seq<u8> {
    Seq::new(DEFAULT_STACK_SIZE as nat, |i: int| 0u8)
}

/// A fresh stack of `DEFAULT_STACK_SIZE` zero bytes.
fn new_stack() -> (s: Vec<u8>)
    ensures
        s@ == zero_stack(),
{
    let s = vec![0u8; DEFAULT_STACK_SIZE];
    proof {
        assert forall|i: int| 0 <= i < s@.len() implies s@[i] == 0u8 by {
            assert(vstd::pervasive::cloned(0u8, s@[i]));
        }
        assert(s@ =~= zero_stack());
    }
    s
}

impl Task {
    /// A free task with a zeroed stack and context.
    fn new(id: usize) -> (t: Self)
        ensures
            t@ == (TaskView {
                id,
                stack: zero_stack(),
                ctx: zero_context(),
                state: State::Available,
            }),
    {
        Task {
            id: id,
            stack: new_stack(),
            ctx: TaskContext::default(),
            state: State::Available,
        }
    }
}

/// The runtime: the tasks and the index of the current one.
pub struct Runtime {
    tasks: Vec<Task>,
    current: usize,
}

impl View for Runtime {
    /// The tasks, by index, and the index of the current task.
    type V = (Seq<TaskView>, usize);

    closed spec fn view(&self) -> (Seq<TaskView>, usize) {
        (self.tasks@.map_values(|t: Task| t@), self.current)
    }
}

/// The states of the tasks, by index.
pub open spec fn states_of(tasks: Seq<TaskView>) -> Seq<State> {
    tasks.map_values(|t: TaskView| t.state)
}

/// Whether the runtime is in a consistent state: `MAX_TASKS` tasks, each
/// with its index as id and a stack of `DEFAULT_STACK_SIZE` bytes, a current
/// index in range, and no task running but the current one.
pub open spec fn runtime_wf(v: (Seq<TaskView>, usize)) -> bool {
    let (tasks, current) = v;
    &&& tasks.len() == MAX_TASKS
    &&& current < tasks.len()
    &&& forall|i: int| 0 <= i < tasks.len() ==> #[trigger] tasks[i].id == i
    &&& forall|i: int| 0 <= i < tasks.len() ==> #[trigger] tasks[i].stack.len() == DEFAULT_STACK_SIZE
    &&& forall|i: int|
        0 <= i < tasks.len() && #[trigger] tasks[i].state == State::Running ==> i == current
}

/// The task a yield from `current` switches to, searching from `current`
/// itself onwards, round-robin, `k` places on: the first ready one, if any.
pub open spec fn next_ready_from(states: Seq<State>, current: int, k: nat) -> Option<int>
    decreases states.len() - k,
{
    if k >= states.len() {
        None
    } else if states[(current + k) % states.len() as int] == State::Ready {
        Some((current + k) % states.len() as int)
    } else {
        next_ready_from(states, current, k + 1)
    }
}

/// The task a yield from `current` switches to: the first ready task found
/// round-robin from `current`.
pub open spec fn next_ready(states: Seq<State>, current: int) -> Option<int> {
    next_ready_from(states, current, 0)
}

/// The search from `k` places on finds nothing exactly when no place from
/// `k` on, round the ring, holds a ready task; what it finds is a ready task.
proof fn lemma_next_ready_from(states: Seq<State>, current: int, k: nat)
    requires
        0 <= current < states.len(),
        k <= states.len(),
    ensures
        next_ready_from(states, current, k) is None <==> forall|j: int|
            k <= j < states.len() ==> #[trigger] states[(current + j) % states.len() as int]
                != State::Ready,
        next_ready_from(states, current, k) matches Some(p) ==> 0 <= p < states.len()
            && states[p] == State::Ready,
    decreases states.len() - k,
{
    let n = states.len() as int;
    if k < states.len() {
        lemma_next_ready_from(states, current, k + 1);
        vstd::arithmetic::div_mod::lemma_mod_pos_bound(current + k, n);
        if states[(current + k) % n] != State::Ready {
            assert forall|j: int| k <= j < n && #[trigger] states[(current + j) % n] == State::Ready
                implies j >= k + 1 by {
            }
        }
    }
}

/// A yield switches whenever some task is ready, and only then: the
/// round-robin search from the current task visits every task, and what it
/// finds is a ready task.
pub proof fn lemma_yield_finds_any_ready(states: Seq<State>, current: int)
    requires
        0 <= current < states.len(),
    ensures
        next_ready(states, current) is None <==> forall|i: int|
            0 <= i < states.len() ==> #[trigger] states[i] != State::Ready,
        next_ready(states, current) matches Some(p) ==> 0 <= p < states.len() && states[p]
            == State::Ready,
{
    let n = states.len() as int;
    lemma_next_ready_from(states, current, 0);
    if next_ready(states, current) is None {
        assert forall|i: int| 0 <= i < n implies #[trigger] states[i] != State::Ready by {
            let j = if i >= current { i - current } else { i - current + n };
            if i >= current {
                vstd::arithmetic::div_mod::lemma_small_mod(i as nat, n as nat);
            } else {
                vstd::arithmetic::div_mod::lemma_mod_add_multiples_vanish(i, n);
                vstd::arithmetic::div_mod::lemma_small_mod(i as nat, n as nat);
            }
            assert((current + j) % n == i);
            assert(states[(current + j) % n] != State::Ready);
        }
    } else {
        let p = next_ready(states, current)->0;
        assert(states[p] == State::Ready);
    }
}

/// The tasks after a switch from `old` to `new`: the old task becomes ready
/// unless it has finished (is available), and the new task runs.
pub open spec fn switched(tasks: Seq<TaskView>, old: int, new: int) -> Seq<TaskView> {
    let t = if tasks[old].state == State::Available {
        tasks
    } else {
        tasks.update(old, TaskView { state: State::Ready, ..tasks[old] })
    };
    t.update(new, TaskView { state: State::Running, ..t[new] })
}

/// The first available task from index `k` on, if any.
pub open spec fn first_available_from(tasks: Seq<TaskView>, k: nat) -> Option<int>
    decreases tasks.len() - k,
{
    if k >= tasks.len() {
        None
    } else if tasks[k as int].state == State::Available {
        Some(k as int)
    } else {
        first_available_from(tasks, k + 1)
    }
}

/// The first available task, if any.
pub open spec fn first_available(tasks: Seq<TaskView>) -> Option<int> {
    first_available_from(tasks, 0)
}

/// Stepping one place round a ring of `n` places.
proof fn lemma_mod_succ(a: int, n: int)
    requires
        n > 0,
        a >= 0,
    ensures
        (a + 1) % n == if a % n + 1 == n { 0 } else { a % n + 1 },
{
    vstd::arithmetic::div_mod::lemma_fundamental_div_mod(a, n);
    vstd::arithmetic::div_mod::lemma_mod_pos_bound(a, n);
    let q = a / n;
    let r = a % n;
    assert(a == q * n + r) by (nonlinear_arith)
        requires
            a == n * (a / n) + a % n,
            q == a / n,
            r == a % n,
    ;
    if r + 1 == n {
        assert(a + 1 == (q + 1) * n + 0) by (nonlinear_arith)
            requires
                a == q * n + r,
                r + 1 == n,
        ;
        vstd::arithmetic::div_mod::lemma_fundamental_div_mod_converse(a + 1, n, q + 1, 0);
    } else {
        vstd::arithmetic::div_mod::lemma_fundamental_div_mod_converse(a + 1, n, q, r + 1);
    }
}

/// The first available task from `k` on is available, and every task
/// between `k` and it is not; there is none exactly when no task from `k`
/// on is available.
proof fn lemma_first_available_from(tasks: Seq<TaskView>, k: nat)
    requires
        k <= tasks.len(),
    ensures
        first_available_from(tasks, k) is None <==> forall|j: int|
            k <= j < tasks.len() ==> #[trigger] tasks[j].state != State::Available,
        first_available_from(tasks, k) matches Some(i) ==> k <= i < tasks.len() && tasks[i].state
            == State::Available && forall|j: int|
            k <= j < i ==> #[trigger] tasks[j].state != State::Available,
    decreases tasks.len() - k,
{
    if k < tasks.len() {
        lemma_first_available_from(tasks, k + 1);
    }
}

/// Spawning takes the lowest-numbered available task: the one it finds is
/// available and every task before it is not, and it finds none exactly
/// when no task is available.
pub proof fn lemma_spawn_takes_first_available(tasks: Seq<TaskView>)
    ensures
        first_available(tasks) is None <==> forall|j: int|
            0 <= j < tasks.len() ==> #[trigger] tasks[j].state != State::Available,
        first_available(tasks) matches Some(i) ==> 0 <= i < tasks.len() && tasks[i].state
            == State::Available && forall|j: int|
            0 <= j < i ==> #[trigger] tasks[j].state != State::Available,
{
    lemma_first_available_from(tasks, 0);
}

/// The stack pointer a task starts with: the end of its stack, aligned down
/// to 8 bytes, less 32 bytes.
pub open spec fn initial_sp(stack_base: u64, stack_len: u64) -> u64 {
    (((stack_base + stack_len) / 8) * 8 - 32) as u64
}

impl Runtime {
    /// A runtime whose base task (0) runs and whose other tasks are free.
    pub fn new() -> (rt: Self)
        ensures
            runtime_wf(rt@),
            rt@.1 == 0,
            rt@.0[0].state == State::Running,
            forall|i: int| 1 <= i < MAX_TASKS ==> #[trigger] rt@.0[i].state == State::Available,
            forall|i: int| 0 <= i < MAX_TASKS ==> #[trigger] rt@.0[i].ctx == zero_context(),
            forall|i: int| 0 <= i < MAX_TASKS ==> #[trigger] rt@.0[i].stack == zero_stack(),
    {
        let base_task = Task {
            id: 0,
            stack: new_stack(),
            ctx: TaskContext::default(),
            state: State::Running,
        };
        let mut tasks: Vec<Task> = Vec::new();
        tasks.push(base_task);
        let mut i: usize = 1;
        while i < MAX_TASKS
            invariant
                1 <= i <= MAX_TASKS,
                tasks@.len() == i,
                tasks@[0]@.state == State::Running,
                forall|j: int| 0 <= j < i ==> #[trigger] tasks@[j]@.id == j,
                forall|j: int| 0 <= j < i ==> #[trigger] tasks@[j]@.stack == zero_stack(),
                forall|j: int| 0 <= j < i ==> #[trigger] tasks@[j]@.ctx == zero_context(),
                forall|j: int| 1 <= j < i ==> #[trigger] tasks@[j]@.state == State::Available,
            decreases MAX_TASKS - i,
        {
            tasks.push(Task::new(i));
            i = i + 1;
        }
        Runtime { tasks, current: 0 }
    }

    /// Index of the current task.
    pub fn current_task(&self) -> (c: usize)
        ensures
            c == self@.1,
    {
        self.current
    }

    /// Number of tasks.
    pub fn num_tasks(&self) -> (n: usize)
        ensures
            n == self@.0.len(),
    {
        self.tasks.len()
    }

    /// State of task `i`.
    pub fn task_state(&self, i: usize) -> (s: State)
        requires
            i < self@.0.len(),
        ensures
            s == self@.0[i as int].state,
    {
        self.tasks[i].state
    }

    /// Id of task `i`.
    pub fn task_id(&self, i: usize) -> (id: usize)
        requires
            i < self@.0.len(),
        ensures
            id == self@.0[i as int].id,
    {
        self.tasks[i].id
    }

    /// The saved context of task `i`.
    pub fn context(&self, i: usize) -> (c: &TaskContext)
        requires
            i < self@.0.len(),
        ensures
            *c == self@.0[i as int].ctx,
    {
        &self.tasks[i].ctx
    }

    /// The saved context of task `i`, to be overwritten by a context switch;
    /// the rest of the runtime is unchanged.
    pub fn context_mut(&mut self, i: usize) -> (c: &mut TaskContext)
        requires
            i < old(self)@.0.len(),
        ensures
            *c == old(self)@.0[i as int].ctx,
            final(self)@.1 == old(self)@.1,
            final(self)@.0 == old(self)@.0.update(
                i as int,
                TaskView { ctx: *final(c), ..old(self)@.0[i as int] },
            ),
    {
        &mut self.tasks[i].ctx
    }

    /// The stack of task `i`.
    pub fn task_stack(&self, i: usize) -> (s: &Vec<u8>)
        requires
            i < self@.0.len(),
        ensures
            s@ == self@.0[i as int].stack,
    {
        &self.tasks[i].stack
    }
}


impl Runtime {
    /// Switch away from the current task: to the first ready task found
    /// round-robin from the current one. The current task becomes ready
    /// unless it has finished, the chosen one runs and becomes current, and
    /// the result is the pair of task indexes whose contexts the caller
    /// switches (save into the first, restore from the second). `None` when
    /// no task is ready; nothing changes then.
    pub fn t_yield(&mut self) -> (r: Option<(usize, usize)>)
        requires
            runtime_wf(old(self)@),
        ensures
            runtime_wf(final(self)@),
            next_ready(states_of(old(self)@.0), old(self)@.1 as int) is None ==> r is None
                && final(self)@ == old(self)@,
            next_ready(states_of(old(self)@.0), old(self)@.1 as int) matches Some(p) ==> r == Some(
                (old(self)@.1, p as usize),
            ) && final(self)@ == (switched(old(self)@.0, old(self)@.1 as int, p), p as usize),
            r is None <==> forall|i: int|
                0 <= i < old(self)@.0.len() ==> #[trigger] old(self)@.0[i].state != State::Ready,
            r matches Some(pr) ==> {
                &&& pr.0 == old(self)@.1
                &&& pr.1 < old(self)@.0.len()
                &&& old(self)@.0[pr.1 as int].state == State::Ready
                &&& final(self)@.1 == pr.1
                &&& final(self)@.0[pr.1 as int].state == State::Running
            },
    {
        let ghost states = states_of(self@.0);
        let ghost cur = self.current as int;
        proof {
            lemma_yield_finds_any_ready(states, cur);
            assert forall|i: int| 0 <= i < self@.0.len() implies #[trigger] states[i]
                == self@.0[i].state by {}
        }
        let n = self.tasks.len();
        let mut pos = self.current;
        let ghost mut k: nat = 0;
        proof {
            assert(states.len() == n);
            assert((cur + 0) % n as int == cur);
        }
        while self.tasks[pos].state != State::Ready
            invariant
                runtime_wf(self@),
                states == states_of(self@.0),
                cur == self@.1,
                n == self@.0.len(),
                0 <= k < n,
                pos < n,
                pos as int == (cur + k) % n as int,
                next_ready(states, cur) == next_ready_from(states, cur, k),
                self@ == old(self)@,
                next_ready(states, cur) is None <==> forall|i: int|
                    0 <= i < states.len() ==> #[trigger] states[i] != State::Ready,
                forall|i: int| 0 <= i < self@.0.len() ==> #[trigger] states[i] == self@.0[i].state,
            decreases n - k,
        {
            proof {
                assert(states[pos as int] == self@.0[pos as int].state);
            }
            pos = pos + 1;
            if pos == n {
                pos = 0;
            }
            proof {
                k = k + 1;
                lemma_mod_succ(cur + k - 1, n as int);
            }
            if pos == self.current {
                proof {
                    assert(k == n);
                    assert(next_ready(states, cur) is None);
                    assert forall|i: int| 0 <= i < old(self)@.0.len() implies #[trigger] old(
                        self,
                    )@.0[i].state != State::Ready by {
                        assert(states[i] == self@.0[i].state);
                    }
                }
                return None;
            }
        }
        proof {
            assert(states[pos as int] == State::Ready);
            assert(next_ready(states, cur) == Some(pos as int));
        }
        let ghost before = self@.0;
        let old_pos = self.current;
        if self.tasks[old_pos].state != State::Available {
            self.tasks[old_pos].state = State::Ready;
        }
        self.tasks[pos].state = State::Running;
        self.current = pos;
        proof {
            assert(self@.0 =~= switched(before, old_pos as int, pos as int));
        }
        Some((old_pos, pos))
    }

    /// Finish the current task: unless it is the base task (0), it becomes
    /// available and the runtime yields (see `t_yield`). For the base task
    /// nothing happens and the result is `None`.
    pub fn t_return(&mut self) -> (r: Option<(usize, usize)>)
        requires
            runtime_wf(old(self)@),
        ensures
            runtime_wf(final(self)@),
            old(self)@.1 == 0 ==> r is None && final(self)@ == old(self)@,
            old(self)@.1 != 0 ==> {
                let cur = old(self)@.1 as int;
                let done = old(self)@.0.update(
                    cur,
                    TaskView { state: State::Available, ..old(self)@.0[cur] },
                );
                &&& next_ready(states_of(done), cur) is None ==> r is None && final(self)@ == (
                    done,
                    old(self)@.1,
                )
                &&& next_ready(states_of(done), cur) matches Some(p) ==> r == Some(
                    (old(self)@.1, p as usize),
                ) && final(self)@ == (switched(done, cur, p), p as usize)
            },
            old(self)@.1 != 0 ==> (r is None <==> forall|i: int|
                0 <= i < old(self)@.0.len() && i != old(self)@.1 ==> #[trigger] old(self)@.0[i].state
                    != State::Ready),
    {
        if self.current != 0 {
            let ghost before = self@.0;
            let cur = self.current;
            self.tasks[cur].state = State::Available;
            proof {
                assert(self@.0 =~= before.update(
                    cur as int,
                    TaskView { state: State::Available, ..before[cur as int] },
                ));
            }
            let r = self.t_yield();
            proof {
                assert forall|i: int| 0 <= i < before.len() && i != cur implies #[trigger] before[i].state
                    == old(self)@.0[i].state by {}
                if r is None {
                    assert forall|i: int| 0 <= i < before.len() && i != cur implies #[trigger] before[i].state
                        != State::Ready by {
                        assert(self@.0[i].state != State::Ready);
                    }
                } else {
                    let pr = r->0;
                    let p = pr.1 as int;
                    assert(before.update(
                        cur as int,
                        TaskView { state: State::Available, ..before[cur as int] },
                    )[p].state == State::Ready);
                    assert(p != cur);
                    assert(before[p].state == State::Ready);
                }
            }
            r
        } else {
            None
        }
    }

    /// The first available task, if any.
    pub fn available_task(&self) -> (r: Option<usize>)
        requires
            runtime_wf(self@),
        ensures
            r matches Some(i) ==> first_available(self@.0) == Some(i as int) && i < self@.0.len()
                && self@.0[i as int].state == State::Available,
            r is None ==> first_available(self@.0) is None,
    {
        let mut i: usize = 0;
        while i < self.tasks.len()
            invariant
                runtime_wf(self@),
                0 <= i <= self@.0.len(),
                first_available(self@.0) == first_available_from(self@.0, i as nat),
            decreases self@.0.len() - i,
        {
            proof {
                assert(self@.0[i as int].state == self.tasks@[i as int].state);
            }
            if self.tasks[i].state == State::Available {
                return Some(i);
            }
            i = i + 1;
        }
        None
    }

    /// Give the first available task the function at `f` to run: its stack
    /// pointer starts at the end of its stack (whose address is
    /// `stack_base`), aligned down to 8 bytes, less 32 bytes; it returns
    /// into `guard` once `f` returns; it becomes ready. The result is its id.
    pub fn spawn(&mut self, f: u64, guard: u64, stack_base: u64) -> (id: usize)
        requires
            runtime_wf(old(self)@),
            first_available(old(self)@.0) is Some,
            stack_base + DEFAULT_STACK_SIZE <= u64::MAX,
        ensures
            runtime_wf(final(self)@),
            first_available(old(self)@.0) == Some(id as int),
            final(self)@ == (
                old(self)@.0.update(
                    id as int,
                    TaskView {
                        ctx: TaskContext {
                            x1: guard,
                            x2: initial_sp(stack_base, DEFAULT_STACK_SIZE as u64),
                            nx1: f,
                            ..old(self)@.0[id as int].ctx
                        },
                        state: State::Ready,
                        ..old(self)@.0[id as int]
                    },
                ),
                old(self)@.1,
            ),
    {
        let i = match self.available_task() {
            Some(i) => i,
            None => {
                return 0;
            },
        };
        let ghost before = self@.0;
        let size = self.tasks[i].stack.len();
        proof {
            assert(size == DEFAULT_STACK_SIZE);
        }
        let top: u64 = stack_base + size as u64;
        let aligned: u64 = top & !7u64;
        assert(aligned == (top / 8) * 8) by (bit_vector)
            requires
                aligned == top & !7u64,
        ;
        let sp: u64 = aligned - 32;
        self.tasks[i].ctx.x1 = guard;
        self.tasks[i].ctx.nx1 = f;
        self.tasks[i].ctx.x2 = sp;
        self.tasks[i].state = State::Ready;
        proof {
            assert(self@.0 =~= before.update(
                i as int,
                TaskView {
                    ctx: TaskContext {
                        x1: guard,
                        x2: initial_sp(stack_base, DEFAULT_STACK_SIZE as u64),
                        nx1: f,
                        ..before[i as int].ctx
                    },
                    state: State::Ready,
                    ..before[i as int]
                },
            ));
        }
        self.tasks[i].id
    }
}

} // verus!
