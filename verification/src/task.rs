use vstd::prelude::*;

use crate::config::MAX_APP_NUM;
use crate::sync::UPSafeCell;

verus! {

/// Callee-saved register state of a task, as saved and restored by the
/// context-switch routine: return address, stack pointer and `s0`..`s11`.
#[derive(Debug, Clone, Copy)]
pub struct TaskContxt {
    pub ra: usize,
    pub sp: usize,
    pub s: [usize; 12],
}

impl TaskContxt {
    /// The all-zero context.
    pub fn new() -> (cx: TaskContxt)
        ensures
            cx.resumes_at(0, 0),
    {
        TaskContxt { ra: 0, sp: 0, s: [0; 12] }
    }

    /// A context that, once switched to, returns into the trap-restore
    /// routine at address `restore_entry` with stack pointer `sp`.
    pub fn restore(restore_entry: usize, sp: usize) -> (cx: TaskContxt)
        ensures
            cx.resumes_at(restore_entry, sp),
    {
        TaskContxt { ra: restore_entry, sp, s: [0; 12] }
    }
}

/// Life-cycle state of a task.
#[derive(Debug, Clone, Copy, PartialEq, Eq, Structural)]
pub enum TaskStatus {
    UnInit,
    Ready,
    Runing,
    Exited,
}

/// Per-task bookkeeping: its state and its saved context.
#[derive(Debug, Clone, Copy)]
pub struct TaskControlBlock {
    pub task_status: TaskStatus,
    pub task_cx: TaskContxt,
}

/// A pair of task slots between which the hart switches: the registers are
/// saved into the context of `from` and loaded from that of `to`.
#[derive(Debug, Clone, Copy, PartialEq, Eq, Structural)]
pub struct Switch {
    pub from: usize,
    pub to: usize,
}

struct TaskManagerInner {
    tasks: [TaskControlBlock; MAX_APP_NUM],
    current: usize,
}

/// The round-robin scheduler over the statically loaded applications.
pub struct TaskManager {
    num_app: usize,
    inner: UPSafeCell<TaskManagerInner>,
}

/// Whether slot `id` of `tasks` holds a task that is ready to run.
pub open spec fn is_ready(tasks: Seq<TaskControlBlock>, id: int) -> bool {
    tasks[id].task_status == TaskStatus::Ready
}

/// The slot `k` places after `cur` in cyclic order over `n` slots.
pub open spec fn rr_slot(cur: int, k: int, n: int) -> int {
    (cur + k) % n
}

/// The first ready slot among `(cur + k) % n`, `(cur + k + 1) % n`, ...,
/// `(cur + n) % n`, if any.
pub open spec fn ready_from(tasks: Seq<TaskControlBlock>, cur: int, n: int, k: int) -> Option<int>
    decreases n + 1 - k,
{
    if n <= 0 || k > n || k < 1 {
        None
    } else if is_ready(tasks, rr_slot(cur, k, n)) {
        Some(rr_slot(cur, k, n))
    } else {
        ready_from(tasks, cur, n, k + 1)
    }
}

/// The slot that round-robin scheduling picks after `cur` among the first
/// `n` slots: the first ready one in the order `cur + 1, cur + 2, ...`,
/// wrapping around and ending with `cur` itself.
pub open spec fn next_ready(tasks: Seq<TaskControlBlock>, cur: int, n: int) -> Option<int> {
    ready_from(tasks, cur, n, 1)
}

/// At most one task is running, and a running task is the current one.
pub open spec fn single_runner(tasks: Seq<TaskControlBlock>, cur: int) -> bool {
    forall|i: int| 0 <= i < tasks.len() && tasks[i].task_status == TaskStatus::Runing ==> i == cur
}

/// No task is running.
pub open spec fn no_runner(tasks: Seq<TaskControlBlock>) -> bool {
    forall|i: int| 0 <= i < tasks.len() ==> #[trigger] tasks[i].task_status != TaskStatus::Runing
}

/// `tasks` with slot `id` set to `status` and its context kept.
pub open spec fn with_status(tasks: Seq<TaskControlBlock>, id: int, status: TaskStatus) -> Seq<
    TaskControlBlock,
> {
    tasks.update(id, TaskControlBlock { task_status: status, task_cx: tasks[id].task_cx })
}

impl TaskManager {
    /// Number of applications being scheduled.
    pub closed spec fn app_count(&self) -> usize {
        self.num_app
    }

    /// Slot of the task that currently owns the hart.
    pub closed spec fn current_task(&self) -> usize {
        self.inner.value().current
    }

    /// The task control blocks, one per slot.
    pub closed spec fn tasks(&self) -> Seq<TaskControlBlock> {
        self.inner.value().tasks@
    }

    /// The scheduler's well-formedness: one control block per slot, at most
    /// `MAX_APP_NUM` applications, and the current slot is one of the slots,
    /// one of the applications' whenever there is any.
    pub open spec fn wf(&self) -> bool {
        &&& self.tasks().len() == MAX_APP_NUM
        &&& self.app_count() <= MAX_APP_NUM
        &&& self.current_task() < MAX_APP_NUM
        &&& (self.app_count() > 0 ==> self.current_task() < self.app_count())
    }

    /// The scheduling invariant: at most one task runs and it is the
    /// current one, and the slots past the applications, other than the
    /// current one, are uninitialised.
    pub open spec fn sched_inv(&self) -> bool {
        &&& single_runner(self.tasks(), self.current_task() as int)
        &&& forall|i: int|
            self.app_count() <= i < MAX_APP_NUM && i != self.current_task()
                ==> #[trigger] self.tasks()[i].task_status == TaskStatus::UnInit
    }

    /// The slot that the next scheduling decision picks.
    pub open spec fn scheduled_next(&self) -> Option<int> {
        next_ready(self.tasks(), self.current_task() as int, self.app_count() as int)
    }

    /// A scheduler for `num_app` applications: their slots are ready and
    /// resume through `restore_entry` with a zero stack pointer; the other
    /// slots are uninitialised with a zero context; slot 0 is current.
    pub fn new(num_app: usize, restore_entry: usize) -> (tm: TaskManager)
        requires
            num_app <= MAX_APP_NUM,
        ensures
            tm.wf(),
            tm.app_count() == num_app,
            tm.current_task() == 0,
            tm.tasks().len() == MAX_APP_NUM,
            tm.sched_inv(),
            no_runner(tm.tasks()),
            forall|i: int|
                0 <= i < num_app ==> {
                    &&& #[trigger] tm.tasks()[i].task_status == TaskStatus::Ready
                    &&& tm.tasks()[i].task_cx.resumes_at(restore_entry, 0)
                },
            forall|i: int|
                num_app <= i < MAX_APP_NUM ==> {
                    &&& #[trigger] tm.tasks()[i].task_status == TaskStatus::UnInit
                    &&& tm.tasks()[i].task_cx.resumes_at(0, 0)
                },
    {
        let blank = TaskControlBlock { task_cx: TaskContxt::new(), task_status: TaskStatus::UnInit };
        let mut tasks: [TaskControlBlock; MAX_APP_NUM] = [blank; 16];
        let mut i: usize = 0;
        while i < num_app
            invariant
                i <= num_app <= MAX_APP_NUM,
                tasks@.len() == MAX_APP_NUM,
                forall|j: int|
                    0 <= j < i ==> {
                        &&& #[trigger] tasks@[j].task_status == TaskStatus::Ready
                        &&& tasks@[j].task_cx.resumes_at(restore_entry, 0)
                    },
                forall|j: int| i <= j < MAX_APP_NUM ==> #[trigger] tasks@[j] == blank,
                blank.task_status == TaskStatus::UnInit,
                blank.task_cx.resumes_at(0, 0),
            decreases num_app - i,
        {
            let cx = TaskContxt::restore(restore_entry, 0);
            tasks[i] = TaskControlBlock { task_cx: cx, task_status: TaskStatus::Ready };
            i = i + 1;
        }
        TaskManager { num_app, inner: UPSafeCell::new(TaskManagerInner { tasks, current: 0 }) }
    }
}

impl TaskManager {
    /// Starts the first application: slot 0 becomes running, and its
    /// context is the one to switch to, which the returned slot names.
    pub fn run_first_task(&mut self) -> (first: usize)
        requires
            old(self).wf(),
        ensures
            first == 0,
            final(self).wf(),
            final(self).app_count() == old(self).app_count(),
            final(self).current_task() == old(self).current_task(),
            final(self).tasks() == with_status(old(self).tasks(), 0, TaskStatus::Runing),
            final(self).tasks()[0].task_status == TaskStatus::Runing,
            final(self).tasks()[0].task_cx == old(self).tasks()[0].task_cx,
            forall|i: int|
                0 <= i < MAX_APP_NUM && i != 0 ==> #[trigger] final(self).tasks()[i] == old(
                    self,
                ).tasks()[i],
            old(self).sched_inv() && old(self).current_task() == 0 ==> final(self).sched_inv(),
    {
        let inner = self.inner.access();
        let mut task0 = inner.tasks[0];
        task0.task_status = TaskStatus::Runing;
        inner.tasks[0] = task0;
        0
    }

    /// Changes the status of the current task from running to ready.
    pub fn mark_current_supended(&mut self)
        requires
            old(self).wf(),
        ensures
            final(self).wf(),
            final(self).app_count() == old(self).app_count(),
            final(self).current_task() == old(self).current_task(),
            final(self).tasks() == with_status(
                old(self).tasks(),
                old(self).current_task() as int,
                TaskStatus::Ready,
            ),
            final(self).tasks()[old(self).current_task() as int].task_status == TaskStatus::Ready,
            final(self).tasks()[old(self).current_task() as int].task_cx == old(
                self,
            ).tasks()[old(self).current_task() as int].task_cx,
            forall|i: int|
                0 <= i < MAX_APP_NUM && i != old(self).current_task() as int ==> #[trigger] final(self).tasks()[i] == old(
                    self,
                ).tasks()[i],
            old(self).sched_inv() ==> final(self).sched_inv() && no_runner(final(self).tasks()),
    {
        let inner = self.inner.access();
        let current = inner.current;
        let mut tcb = inner.tasks[current];
        tcb.task_status = TaskStatus::Ready;
        inner.tasks[current] = tcb;
    }

    /// Changes the status of the current task from running to exited.
    pub fn mark_current_exited(&mut self)
        requires
            old(self).wf(),
        ensures
            final(self).wf(),
            final(self).app_count() == old(self).app_count(),
            final(self).current_task() == old(self).current_task(),
            final(self).tasks() == with_status(
                old(self).tasks(),
                old(self).current_task() as int,
                TaskStatus::Exited,
            ),
            final(self).tasks()[old(self).current_task() as int].task_status == TaskStatus::Exited,
            final(self).tasks()[old(self).current_task() as int].task_cx == old(
                self,
            ).tasks()[old(self).current_task() as int].task_cx,
            forall|i: int|
                0 <= i < MAX_APP_NUM && i != old(self).current_task() as int ==> #[trigger] final(self).tasks()[i] == old(
                    self,
                ).tasks()[i],
            old(self).sched_inv() ==> final(self).sched_inv() && no_runner(final(self).tasks()),
    {
        let inner = self.inner.access();
        let current = inner.current;
        let mut tcb = inner.tasks[current];
        tcb.task_status = TaskStatus::Exited;
        inner.tasks[current] = tcb;
    }

    /// Finds the task to run next: the first ready one after the current
    /// task in round-robin order, the current task itself coming last.
    pub fn find_next_task(&self) -> (next: Option<usize>)
        requires
            self.wf(),
        ensures
            match next {
                Some(id) => self.scheduled_next() == Some(id as int),
                None => self.scheduled_next() is None,
            },
            self.app_count() > 0 && self.tasks()[(self.current_task() + 1) % (
            self.app_count() as int)].task_status == TaskStatus::Ready ==> next == Some(
                ((self.current_task() + 1) % (self.app_count() as int)) as usize,
            ),
            next matches Some(id) ==> exists|k: int|
                #![trigger self.tasks()[(self.current_task() + k) % (self.app_count() as int)]]
                1 <= k <= self.app_count() && id == (self.current_task() + k) % (
                self.app_count() as int) && forall|j: int|
                    #![trigger self.tasks()[(self.current_task() + j) % (self.app_count() as int)]]
                    1 <= j < k ==> self.tasks()[(self.current_task() + j) % (
                    self.app_count() as int)].task_status != TaskStatus::Ready,
            next is None ==> forall|i: int|
                0 <= i < self.app_count() ==> #[trigger] self.tasks()[i].task_status
                    != TaskStatus::Ready,
    {
        let n = self.num_app;
        let inner = self.inner.get();
        let current = inner.current;
        let mut k: usize = 1;
        while k <= n
            invariant
                1 <= k <= n + 1,
                n == self.app_count() <= MAX_APP_NUM,
                current == self.current_task() < MAX_APP_NUM,
                inner.tasks@ == self.tasks(),
                self.wf(),
                self.scheduled_next() == ready_from(
                    self.tasks(),
                    current as int,
                    n as int,
                    k as int,
                ),
            decreases n + 1 - k,
        {
            let id = (current + k) % n;
            if inner.tasks[id].task_status == TaskStatus::Ready {
                proof {
                    lemma_round_robin_order(self.tasks(), current as int, n as int);
                }
                return Some(id);
            }
            k = k + 1;
        }
        proof {
            if n > 0 {
                lemma_round_robin_order(self.tasks(), current as int, n as int);
            }
        }
        None
    }

    /// Switches to the task that round-robin scheduling picks, if any:
    /// it becomes running and current, and the switch leads from the old
    /// current slot to it. With no ready task nothing changes.
    pub fn run_next_task(&mut self) -> (switch: Option<Switch>)
        requires
            old(self).wf(),
        ensures
            final(self).wf(),
            final(self).app_count() == old(self).app_count(),
            match old(self).scheduled_next() {
                Some(id) => {
                    &&& switch == Some(Switch { from: old(self).current_task(), to: id as usize })
                    &&& final(self).current_task() == id
                    &&& final(self).tasks() == with_status(old(self).tasks(), id, TaskStatus::Runing)
                },
                None => {
                    &&& switch is None
                    &&& final(self).current_task() == old(self).current_task()
                    &&& final(self).tasks() == old(self).tasks()
                },
            },
            switch matches Some(sw) ==> sw.to < old(self).app_count()
                && old(self).tasks()[sw.to as int].task_status == TaskStatus::Ready
                && sw.from == old(self).current_task() && final(self).current_task() == sw.to
                && final(self).tasks()[sw.to as int].task_status == TaskStatus::Runing
                && final(self).tasks()[sw.to as int].task_cx == old(
                self,
            ).tasks()[sw.to as int].task_cx
                && forall|i: int|
                0 <= i < MAX_APP_NUM && i != sw.to ==> #[trigger] final(self).tasks()[i] == old(
                    self,
                ).tasks()[i],
            old(self).sched_inv() && no_runner(old(self).tasks()) ==> final(self).sched_inv(),
    {
        proof {
            lemma_next_ready_in_range(self.tasks(), self.current_task() as int, self.num_app as int);
        }
        match self.find_next_task() {
            Some(id) => {
                let inner = self.inner.access();
                let current = inner.current;
                let mut tcb = inner.tasks[id];
                tcb.task_status = TaskStatus::Runing;
                inner.tasks[id] = tcb;
                inner.current = id;
                Some(Switch { from: current, to: id })
            },
            None => None,
        }
    }

    /// The saved context of slot `id`, for the context-switch routine to
    /// save registers into or load them from.
    pub fn task_cx_mut(&mut self, id: usize) -> (cx: &mut TaskContxt)
        requires
            old(self).wf(),
            id < MAX_APP_NUM,
        ensures
            *cx == old(self).tasks()[id as int].task_cx,
            final(self).wf(),
            final(self).app_count() == old(self).app_count(),
            final(self).current_task() == old(self).current_task(),
            final(self).tasks() == old(self).tasks().update(
                id as int,
                TaskControlBlock {
                    task_status: old(self).tasks()[id as int].task_status,
                    task_cx: *final(cx),
                },
            ),
    {
        let inner = self.inner.access();
        &mut inner.tasks[id].task_cx
    }
}

/// The effect of taking the hart from the current task after marking it
/// with `status`: the marked task table, then the round-robin pick on it.
pub open spec fn reschedule_spec(
    old_tm: TaskManager,
    new_tm: TaskManager,
    status: TaskStatus,
    switch: Option<Switch>,
) -> bool {
    let cur = old_tm.current_task() as int;
    let marked = with_status(old_tm.tasks(), cur, status);
    &&& new_tm.wf()
    &&& new_tm.app_count() == old_tm.app_count()
    &&& match next_ready(marked, cur, old_tm.app_count() as int) {
        Some(id) => {
            &&& switch == Some(Switch { from: cur as usize, to: id as usize })
            &&& new_tm.current_task() == id
            &&& new_tm.tasks() == with_status(marked, id, TaskStatus::Runing)
        },
        None => {
            &&& switch is None
            &&& new_tm.current_task() == old_tm.current_task()
            &&& new_tm.tasks() == marked
        },
    }
}

/// What giving up the hart leaves, slot by slot: with at least one
/// application a switch happens; the task switched to runs and is current,
/// and unless it is the one that gave up the hart, it was ready and the
/// one that gave it up is ready again. Without a switch the task that gave
/// up the hart is ready and still current.
pub open spec fn yield_effect(old_tm: TaskManager, new_tm: TaskManager, switch: Option<Switch>) -> bool {
    let cur = old_tm.current_task() as int;
    &&& old_tm.app_count() > 0 ==> switch is Some
    &&& switch matches Some(sw) ==> {
        &&& sw.from == cur
        &&& sw.to < old_tm.app_count()
        &&& new_tm.current_task() == sw.to
        &&& new_tm.tasks()[sw.to as int].task_status == TaskStatus::Runing
        &&& sw.to != cur ==> {
            &&& old_tm.tasks()[sw.to as int].task_status == TaskStatus::Ready
            &&& new_tm.tasks()[cur].task_status == TaskStatus::Ready
        }
    }
    &&& switch is None ==> {
        &&& new_tm.current_task() == cur
        &&& new_tm.tasks()[cur].task_status == TaskStatus::Ready
    }
}

/// What an exit leaves, slot by slot: the exiting task is exited; a task
/// switched to is another one that was ready, and it runs and is current.
/// Without a switch the exited task stays current.
pub open spec fn exit_effect(old_tm: TaskManager, new_tm: TaskManager, switch: Option<Switch>) -> bool {
    let cur = old_tm.current_task() as int;
    &&& new_tm.tasks()[cur].task_status == TaskStatus::Exited
    &&& switch matches Some(sw) ==> {
        &&& sw.from == cur
        &&& sw.to < old_tm.app_count()
        &&& sw.to != cur
        &&& old_tm.tasks()[sw.to as int].task_status == TaskStatus::Ready
        &&& new_tm.current_task() == sw.to
        &&& new_tm.tasks()[sw.to as int].task_status == TaskStatus::Runing
    }
    &&& switch is None ==> new_tm.current_task() == cur
}

/// Suspends the current task and switches to the next one that
/// round-robin scheduling picks.
///
/// With at least one application a task is always found, the suspended
/// one itself if no other is ready; any other task picked was ready. Tasks that have exited, other than the
/// current one, stay exited, and at most one task runs afterwards if at
/// most one (the current one) ran before.
pub fn suspend_and_run_next(tm: &mut TaskManager) -> (switch: Option<Switch>)
    requires
        old(tm).wf(),
    ensures
        reschedule_spec(*old(tm), *final(tm), TaskStatus::Ready, switch),
        yield_effect(*old(tm), *final(tm), switch),
        forall|i: int|
            0 <= i < MAX_APP_NUM && i != old(tm).current_task() && old(tm).tasks()[i].task_status
                == TaskStatus::Exited ==> #[trigger] final(tm).tasks()[i].task_status
                == TaskStatus::Exited,
        single_runner(old(tm).tasks(), old(tm).current_task() as int) ==> single_runner(
            final(tm).tasks(),
            final(tm).current_task() as int,
        ),
        old(tm).sched_inv() ==> final(tm).sched_inv(),
{
    tm.mark_current_supended();
    let ghost marked = tm.tasks();
    proof {
        if tm.app_count() > 0 {
            lemma_round_robin(marked, tm.current_task() as int, tm.app_count() as int);
            assert(is_ready(marked, tm.current_task() as int));
        }
        lemma_next_ready_in_range(marked, tm.current_task() as int, tm.app_count() as int);
    }
    tm.run_next_task()
}

/// Marks the current task as exited and switches to the next one that
/// round-robin scheduling picks, if any task is still ready; the task
/// picked is another one, and it was ready.
///
/// Tasks that have exited stay exited, the current one included, and at
/// most one task runs afterwards if at most one (the current one) ran
/// before.
pub fn exited_and_run_next(tm: &mut TaskManager) -> (switch: Option<Switch>)
    requires
        old(tm).wf(),
    ensures
        reschedule_spec(*old(tm), *final(tm), TaskStatus::Exited, switch),
        exit_effect(*old(tm), *final(tm), switch),
        forall|i: int|
            0 <= i < MAX_APP_NUM && old(tm).tasks()[i].task_status == TaskStatus::Exited
                ==> #[trigger] final(tm).tasks()[i].task_status == TaskStatus::Exited,
        single_runner(old(tm).tasks(), old(tm).current_task() as int) ==> single_runner(
            final(tm).tasks(),
            final(tm).current_task() as int,
        ),
        old(tm).sched_inv() ==> final(tm).sched_inv(),
{
    tm.mark_current_exited();
    let ghost marked = tm.tasks();
    proof {
        lemma_next_ready_in_range(marked, tm.current_task() as int, tm.app_count() as int);
    }
    tm.run_next_task()
}

/// Starts the first application: slot 0 becomes running, and the
/// returned slot is the one whose context to switch to.
pub fn run_first(tm: &mut TaskManager) -> (first: usize)
    requires
        old(tm).wf(),
    ensures
        first == 0,
        final(tm).wf(),
        final(tm).app_count() == old(tm).app_count(),
        final(tm).current_task() == old(tm).current_task(),
        final(tm).tasks() == with_status(old(tm).tasks(), 0, TaskStatus::Runing),
        old(tm).current_task() == 0 && single_runner(old(tm).tasks(), 0) ==> single_runner(
            final(tm).tasks(),
            final(tm).current_task() as int,
        ),
        old(tm).sched_inv() && old(tm).current_task() == 0 ==> final(tm).sched_inv(),
{
    tm.run_first_task()
}

impl TaskManager {
    /// Number of applications being scheduled.
    pub fn app_num(&self) -> (n: usize)
        ensures
            n == self.app_count(),
    {
        self.num_app
    }

    /// Slot of the task that currently owns the hart.
    pub fn current_id(&self) -> (id: usize)
        ensures
            id == self.current_task(),
    {
        self.inner.get().current
    }

    /// Status of the task in slot `id`.
    pub fn task_status(&self, id: usize) -> (status: TaskStatus)
        requires
            id < MAX_APP_NUM,
        ensures
            status == self.tasks()[id as int].task_status,
    {
        self.inner.get().tasks[id].task_status
    }
}

/// The slot that `next_ready` picks, if any, is one of the first `n` slots
/// and is ready.
pub proof fn lemma_next_ready_in_range(tasks: Seq<TaskControlBlock>, cur: int, n: int)
    ensures
        next_ready(tasks, cur, n) matches Some(id) ==> 0 <= id < n && is_ready(tasks, id),
{
    lemma_ready_from_in_range(tasks, cur, n, 1);
}

proof fn lemma_ready_from_in_range(tasks: Seq<TaskControlBlock>, cur: int, n: int, k: int)
    ensures
        ready_from(tasks, cur, n, k) matches Some(id) ==> 0 <= id < n && is_ready(tasks, id),
    decreases n + 1 - k,
{
    if n <= 0 || k > n || k < 1 {
    } else if is_ready(tasks, (cur + k) % n) {
    } else {
        lemma_ready_from_in_range(tasks, cur, n, k + 1);
    }
}

/// Round-robin scheduling, stated over the first `n` slots with the
/// current slot `cur` among them: the scheduler finds no task exactly when
/// none of the `n` tasks is ready; a task it finds is ready, and it is the
/// first ready one in the order `cur + 1, cur + 2, ...` taken modulo `n`,
/// so no ready task is passed over.
pub proof fn lemma_round_robin(tasks: Seq<TaskControlBlock>, cur: int, n: int)
    requires
        0 <= cur < n <= tasks.len(),
    ensures
        next_ready(tasks, cur, n) is None <==> forall|i: int| 0 <= i < n ==> !is_ready(tasks, i),
        next_ready(tasks, cur, n) matches Some(id) ==> {
            &&& 0 <= id < n
            &&& is_ready(tasks, id)
            &&& exists|k: int|
                1 <= k <= n && #[trigger] rr_slot(cur, k, n) == id && forall|j: int|
                    1 <= j < k ==> !is_ready(tasks, #[trigger] rr_slot(cur, j, n))
        },
{
    lemma_ready_from_scan(tasks, cur, n, 1);
    lemma_next_ready_in_range(tasks, cur, n);
    if next_ready(tasks, cur, n) is None {
        assert forall|i: int| 0 <= i < n implies !is_ready(tasks, i) by {
            let k = if i > cur { i - cur } else { n - cur + i };
            assert(1 <= k <= n);
            if i > cur {
                vstd::arithmetic::div_mod::lemma_small_mod(i as nat, n as nat);
            } else {
                vstd::arithmetic::div_mod::lemma_mod_add_multiples_vanish(i, n);
                vstd::arithmetic::div_mod::lemma_small_mod(i as nat, n as nat);
            }
            assert(rr_slot(cur, k, n) == i);
        }
    } else {
        let id = next_ready(tasks, cur, n)->0;
        assert(!(forall|i: int| 0 <= i < n ==> !is_ready(tasks, i))) by {
            assert(0 <= id < n && is_ready(tasks, id));
        }
    }
}

/// Round-robin order, stated on the slot numbers themselves: with the
/// current slot `cur` among the first `n`, the slot picked is `(cur + k) % n`
/// for the least `k` in `1..=n` whose slot is ready. In particular the slot
/// right after `cur` is picked whenever it is ready, and nothing is picked
/// exactly when none of the `n` slots is ready.
pub proof fn lemma_round_robin_order(tasks: Seq<TaskControlBlock>, cur: int, n: int)
    requires
        0 <= cur < n <= tasks.len(),
    ensures
        tasks[(cur + 1) % n].task_status == TaskStatus::Ready ==> next_ready(tasks, cur, n)
            == Some((cur + 1) % n),
        next_ready(tasks, cur, n) matches Some(id) ==> exists|k: int|
            #![trigger tasks[(cur + k) % n]]
            1 <= k <= n && id == (cur + k) % n && forall|j: int|
                #![trigger tasks[(cur + j) % n]]
                1 <= j < k ==> tasks[(cur + j) % n].task_status != TaskStatus::Ready,
        next_ready(tasks, cur, n) is None <==> forall|i: int|
            0 <= i < n ==> #[trigger] tasks[i].task_status != TaskStatus::Ready,
{
    lemma_round_robin(tasks, cur, n);
    if next_ready(tasks, cur, n) is None {
        assert forall|i: int| 0 <= i < n implies #[trigger] tasks[i].task_status
            != TaskStatus::Ready by {
            assert(!is_ready(tasks, i));
        }
    }
    if let Some(id) = next_ready(tasks, cur, n) {
        assert(tasks[id].task_status == TaskStatus::Ready);
        let k = choose|k: int|
            1 <= k <= n && #[trigger] rr_slot(cur, k, n) == id && forall|j: int|
                1 <= j < k ==> !is_ready(tasks, #[trigger] rr_slot(cur, j, n));
        assert(id == (cur + k) % n);
        assert(tasks[(cur + k) % n].task_status == TaskStatus::Ready);
        assert forall|j: int| 1 <= j < k implies #[trigger] tasks[(cur + j) % n].task_status
            != TaskStatus::Ready by {
            assert(!is_ready(tasks, rr_slot(cur, j, n)));
        }
    }
}

/// What scanning from offset `k` gives: a slot found at some offset in
/// `k..=n` after which nothing earlier was ready, or nothing ready at all.
proof fn lemma_ready_from_scan(tasks: Seq<TaskControlBlock>, cur: int, n: int, k: int)
    requires
        0 <= cur < n,
        1 <= k,
    ensures
        ready_from(tasks, cur, n, k) is None ==> forall|j: int|
            k <= j <= n ==> !is_ready(tasks, #[trigger] rr_slot(cur, j, n)),
        ready_from(tasks, cur, n, k) matches Some(id) ==> exists|m: int|
            k <= m <= n && #[trigger] rr_slot(cur, m, n) == id && forall|j: int|
                k <= j < m ==> !is_ready(tasks, #[trigger] rr_slot(cur, j, n)),
    decreases n + 1 - k,
{
    if k > n {
    } else if is_ready(tasks, (cur + k) % n) {
        let id = (cur + k) % n;
        assert(k <= k <= n && rr_slot(cur, k, n) == id);
    } else {
        lemma_ready_from_scan(tasks, cur, n, k + 1);
        if let Some(id) = ready_from(tasks, cur, n, k + 1) {
            let m = choose|m: int|
                k + 1 <= m <= n && #[trigger] rr_slot(cur, m, n) == id && forall|j: int|
                    k + 1 <= j < m ==> !is_ready(tasks, #[trigger] rr_slot(cur, j, n));
            assert(forall|j: int| k <= j < m ==> !is_ready(tasks, #[trigger] rr_slot(cur, j, n)));
        }
    }
}

impl TaskContxt {
    /// Whether this context returns to `ra` on stack `sp` with all the
    /// saved `s` registers zero.
    pub open spec fn resumes_at(&self, ra: usize, sp: usize) -> bool {
        &&& self.ra == ra
        &&& self.sp == sp
        &&& forall|i: int| 0 <= i < 12 ==> #[trigger] self.s@[i] == 0
    }
}

} // verus!
