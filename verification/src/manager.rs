use std::collections::VecDeque;
use vstd::prelude::*;
use crate::task::{Task, TaskKind, Policy, CompletedTask, TOTAL_TASKS};
use crate::schedule::{dispatch_outcome, dispatch_ready_tasks, choice_in_range};
use crate::dispatch_laws::{all_of_kind, law_optimized_dispatch_keeps_order, law_fifo_dispatch_keeps_order, tasks_of_kind};

verus! {

broadcast use vstd::std_specs::vecdeque::group_vec_dequeue_axioms;

/// The manager's state between two rounds of its loop: the ready queues, the
/// idle workers, whether the producer has finished, and the completion
/// statistics.
pub struct Manager {
    pub policy: Policy,
    pub all_queue: VecDeque<Task>,
    pub io_queue: VecDeque<Task>,
    pub cpu_queue: VecDeque<Task>,
    pub available_workers: VecDeque<usize>,
    pub generator_done: bool,
    pub completed_tasks: usize,
    pub cpu_completed: usize,
    pub io_completed: usize,
    pub total_wait_ms: u128,
    pub total_turnaround_ms: u128,
    pub max_wait_ms: u128,
}

/// Every task of `queue` is of `kind`, on a whole `VecDeque`.
pub open spec fn queue_holds_only(queue: &VecDeque<Task>, kind: TaskKind) -> bool {
    all_of_kind(queue@, kind)
}

impl Manager {
    /// The manager's invariant: FIFO keeps every task in the single queue,
    /// the optimized policy keeps IO tasks and CPU tasks apart, and every
    /// completion counts as exactly one of IO or CPU.
    pub open spec fn wf(&self) -> bool {
        &&& self.policy == Policy::Fifo ==> {
            &&& self.io_queue@.len() == 0
            &&& self.cpu_queue@.len() == 0
        }
        &&& self.policy == Policy::Optimized ==> {
            &&& self.all_queue@.len() == 0
            &&& queue_holds_only(&self.io_queue, TaskKind::IO)
            &&& queue_holds_only(&self.cpu_queue, TaskKind::CPU)
        }
        &&& self.completed_tasks == self.cpu_completed + self.io_completed
    }

    pub fn new(policy: Policy) -> (m: Self)
        ensures
            m.wf(),
            m.policy == policy,
            m.all_queue@.len() == 0,
            m.io_queue@.len() == 0,
            m.cpu_queue@.len() == 0,
            m.available_workers@.len() == 0,
            !m.generator_done,
            m.completed_tasks == 0,
            m.cpu_completed == 0,
            m.io_completed == 0,
            m.total_wait_ms == 0,
            m.total_turnaround_ms == 0,
            m.max_wait_ms == 0,
    {
        Manager {
            policy,
            all_queue: VecDeque::new(),
            io_queue: VecDeque::new(),
            cpu_queue: VecDeque::new(),
            available_workers: VecDeque::new(),
            generator_done: false,
            completed_tasks: 0,
            cpu_completed: 0,
            io_completed: 0,
            total_wait_ms: 0,
            total_turnaround_ms: 0,
            max_wait_ms: 0,
        }
    }

    /// A worker reported that it is idle; it joins the back of the idle line.
    pub fn add_available_worker(&mut self, worker_id: usize)
        requires
            old(self).wf(),
        ensures
            final(self).wf(),
            final(self).available_workers@ == old(self).available_workers@.push(worker_id),
            final(self).all_queue@ == old(self).all_queue@,
            final(self).io_queue@ == old(self).io_queue@,
            final(self).cpu_queue@ == old(self).cpu_queue@,
            final(self).policy == old(self).policy,
            final(self).generator_done == old(self).generator_done,
            final(self).completed_tasks == old(self).completed_tasks,
            final(self).cpu_completed == old(self).cpu_completed,
            final(self).io_completed == old(self).io_completed,
            final(self).total_wait_ms == old(self).total_wait_ms,
            final(self).total_turnaround_ms == old(self).total_turnaround_ms,
            final(self).max_wait_ms == old(self).max_wait_ms,
    {
        self.available_workers.push_back(worker_id);
    }

    /// A new task arrived: FIFO puts it at the back of its single queue, the
    /// optimized policy at the back of the queue of its kind.
    pub fn enqueue(&mut self, task: Task)
        requires
            old(self).wf(),
        ensures
            final(self).wf(),
            old(self).policy == Policy::Fifo ==> {
                &&& final(self).all_queue@ == old(self).all_queue@.push(task)
                &&& final(self).io_queue@ == old(self).io_queue@
                &&& final(self).cpu_queue@ == old(self).cpu_queue@
            },
            old(self).policy == Policy::Optimized && task.kind == TaskKind::IO ==> {
                &&& final(self).all_queue@ == old(self).all_queue@
                &&& final(self).io_queue@ == old(self).io_queue@.push(task)
                &&& final(self).cpu_queue@ == old(self).cpu_queue@
            },
            old(self).policy == Policy::Optimized && task.kind == TaskKind::CPU ==> {
                &&& final(self).all_queue@ == old(self).all_queue@
                &&& final(self).io_queue@ == old(self).io_queue@
                &&& final(self).cpu_queue@ == old(self).cpu_queue@.push(task)
            },
            final(self).available_workers@ == old(self).available_workers@,
            final(self).policy == old(self).policy,
            final(self).generator_done == old(self).generator_done,
            final(self).completed_tasks == old(self).completed_tasks,
            final(self).cpu_completed == old(self).cpu_completed,
            final(self).io_completed == old(self).io_completed,
            final(self).total_wait_ms == old(self).total_wait_ms,
            final(self).total_turnaround_ms == old(self).total_turnaround_ms,
            final(self).max_wait_ms == old(self).max_wait_ms,
    {
        match self.policy {
            Policy::Fifo => self.all_queue.push_back(task),
            Policy::Optimized => match task.kind {
                TaskKind::IO => {
                    self.io_queue.push_back(task);
                    assert(all_of_kind(self.io_queue@, TaskKind::IO)) by {
                        assert forall|i: int| 0 <= i < self.io_queue@.len() implies #[trigger] self.io_queue@[i].kind
                            == TaskKind::IO by {
                            if i < old(self).io_queue@.len() {
                                assert(old(self).io_queue@[i].kind == TaskKind::IO);
                            }
                        }
                    }
                },
                TaskKind::CPU => {
                    self.cpu_queue.push_back(task);
                    assert(all_of_kind(self.cpu_queue@, TaskKind::CPU)) by {
                        assert forall|i: int| 0 <= i < self.cpu_queue@.len() implies #[trigger] self.cpu_queue@[i].kind
                            == TaskKind::CPU by {
                            if i < old(self).cpu_queue@.len() {
                                assert(old(self).cpu_queue@[i].kind == TaskKind::CPU);
                            }
                        }
                    }
                },
            },
        }
    }

    /// The producer has hung up: no more tasks will arrive.
    pub fn mark_generator_done(&mut self)
        requires
            old(self).wf(),
        ensures
            final(self).wf(),
            final(self).generator_done,
            final(self).policy == old(self).policy,
            final(self).all_queue@ == old(self).all_queue@,
            final(self).io_queue@ == old(self).io_queue@,
            final(self).cpu_queue@ == old(self).cpu_queue@,
            final(self).available_workers@ == old(self).available_workers@,
            final(self).completed_tasks == old(self).completed_tasks,
            final(self).cpu_completed == old(self).cpu_completed,
            final(self).io_completed == old(self).io_completed,
            final(self).total_wait_ms == old(self).total_wait_ms,
            final(self).total_turnaround_ms == old(self).total_turnaround_ms,
            final(self).max_wait_ms == old(self).max_wait_ms,
    {
        self.generator_done = true;
    }

    /// Counts a finished task in the statistics.
    pub fn record_completion(&mut self, done: &CompletedTask)
        requires
            old(self).wf(),
            old(self).completed_tasks < usize::MAX,
            old(self).total_wait_ms + done.wait_ms <= u128::MAX,
            old(self).total_turnaround_ms + done.turnaround_ms <= u128::MAX,
        ensures
            final(self).wf(),
            final(self).completed_tasks == old(self).completed_tasks + 1,
            done.kind == TaskKind::CPU ==> final(self).cpu_completed == old(self).cpu_completed + 1
                && final(self).io_completed == old(self).io_completed,
            done.kind == TaskKind::IO ==> final(self).io_completed == old(self).io_completed + 1
                && final(self).cpu_completed == old(self).cpu_completed,
            final(self).total_wait_ms == old(self).total_wait_ms + done.wait_ms,
            final(self).total_turnaround_ms == old(self).total_turnaround_ms + done.turnaround_ms,
            final(self).max_wait_ms == if done.wait_ms > old(self).max_wait_ms {
                done.wait_ms
            } else {
                old(self).max_wait_ms
            },
            final(self).policy == old(self).policy,
            final(self).generator_done == old(self).generator_done,
            final(self).all_queue@ == old(self).all_queue@,
            final(self).io_queue@ == old(self).io_queue@,
            final(self).cpu_queue@ == old(self).cpu_queue@,
            final(self).available_workers@ == old(self).available_workers@,
    {
        self.completed_tasks = self.completed_tasks + 1;
        match done.kind {
            TaskKind::CPU => self.cpu_completed = self.cpu_completed + 1,
            TaskKind::IO => self.io_completed = self.io_completed + 1,
        }
        self.total_wait_ms = self.total_wait_ms + done.wait_ms;
        self.total_turnaround_ms = self.total_turnaround_ms + done.turnaround_ms;
        if done.wait_ms > self.max_wait_ms {
            self.max_wait_ms = done.wait_ms;
        }
    }

    /// Hands ready tasks to idle workers as `dispatch_ready_tasks` does,
    /// reserving their CPU share in `current_cpu`.
    pub fn dispatch(&mut self, current_cpu: &mut u32) -> (sent: Vec<(usize, Task)>)
        requires
            old(self).wf(),
            old(self).available_workers@.len() > 0 ==> choice_in_range(
                old(self).policy,
                old(self).all_queue@,
                old(self).io_queue@,
                old(self).cpu_queue@,
                *old(current_cpu) as int,
            ),
        ensures
            final(self).wf(),
            ({
                let out = dispatch_outcome(
                    old(self).policy,
                    old(self).all_queue@,
                    old(self).io_queue@,
                    old(self).cpu_queue@,
                    old(self).available_workers@,
                    *old(current_cpu) as int,
                );
                &&& sent@ == out.0
                &&& final(self).all_queue@ == out.1
                &&& final(self).io_queue@ == out.2
                &&& final(self).cpu_queue@ == out.3
                &&& final(self).available_workers@ == out.4
                &&& *final(current_cpu) as int == out.5
            }),
            final(self).policy == old(self).policy,
            final(self).generator_done == old(self).generator_done,
            final(self).completed_tasks == old(self).completed_tasks,
            final(self).cpu_completed == old(self).cpu_completed,
            final(self).io_completed == old(self).io_completed,
            final(self).total_wait_ms == old(self).total_wait_ms,
            final(self).total_turnaround_ms == old(self).total_turnaround_ms,
            final(self).max_wait_ms == old(self).max_wait_ms,
    {
        let sent = dispatch_ready_tasks(
            self.policy,
            &mut self.all_queue,
            &mut self.io_queue,
            &mut self.cpu_queue,
            &mut self.available_workers,
            current_cpu,
        );
        proof {
            let o = old(self);
            match o.policy {
                Policy::Fifo => {
                    law_fifo_dispatch_keeps_order(
                        o.all_queue@,
                        o.io_queue@,
                        o.cpu_queue@,
                        o.available_workers@,
                        *old(current_cpu) as int,
                    );
                },
                Policy::Optimized => {
                    law_optimized_dispatch_keeps_order(
                        o.all_queue@,
                        o.io_queue@,
                        o.cpu_queue@,
                        o.available_workers@,
                        *old(current_cpu) as int,
                    );
                    lemma_suffix_keeps_kind(
                        tasks_of_kind(sent@, TaskKind::IO),
                        self.io_queue@,
                        TaskKind::IO,
                    );
                    lemma_suffix_keeps_kind(
                        tasks_of_kind(sent@, TaskKind::CPU),
                        self.cpu_queue@,
                        TaskKind::CPU,
                    );
                },
            }
        }
        sent
    }

    /// The loop is over once the producer has finished and every task has
    /// completed.
    pub fn is_finished(&self) -> (finished: bool)
        ensures
            finished == (self.generator_done && self.completed_tasks == TOTAL_TASKS),
    {
        self.generator_done && self.completed_tasks == TOTAL_TASKS
    }
}

/// The back part of a queue of one kind is of that kind.
pub proof fn lemma_suffix_keeps_kind(front: Seq<Task>, back: Seq<Task>, kind: TaskKind)
    requires
        all_of_kind(front + back, kind),
    ensures
        all_of_kind(back, kind),
{
    assert forall|i: int| 0 <= i < back.len() implies #[trigger] back[i].kind == kind by {
        assert((front + back)[front.len() + i] == back[i]);
    }
}

} // verus!
