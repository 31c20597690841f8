use std::collections::VecDeque;
use vstd::prelude::*;
use crate::task::{Task, TaskKind, Policy, cost_of, CPU_LIMIT, CPU_TASK_COST, IO_TASK_COST};

verus! {

broadcast use vstd::std_specs::vecdeque::group_vec_dequeue_axioms;

/// While the reserved CPU share is at most this, the optimized policy prefers
/// a waiting CPU task, so that CPU-heavy work does not starve.
pub const LOW_CPU_THRESHOLD: u32 = 60;

/// The FIFO policy takes the front task exactly when its share fits under the limit.
pub open spec fn fifo_takes_front(queue: Seq<Task>, cpu: int) -> bool {
    queue.len() > 0 && cpu + cost_of(queue[0].kind) <= CPU_LIMIT
}

/// The queue the optimized policy draws from next, given the queue lengths
/// and the CPU share already reserved.
pub open spec fn optimized_pick(io_len: nat, cpu_len: nat, cpu: int) -> Option<TaskKind> {
    if cpu_len > 0 && cpu + CPU_TASK_COST <= CPU_LIMIT && (cpu <= LOW_CPU_THRESHOLD || io_len
        == 0) {
        Some(TaskKind::CPU)
    } else if io_len > 0 && cpu + IO_TASK_COST <= CPU_LIMIT {
        Some(TaskKind::IO)
    } else if cpu_len > 0 && cpu + CPU_TASK_COST <= CPU_LIMIT {
        Some(TaskKind::CPU)
    } else {
        None
    }
}

/// The inputs on which choosing a task stays within `u32` arithmetic.
pub open spec fn choice_in_range(policy: Policy, all: Seq<Task>, io: Seq<Task>, cq: Seq<Task>, cpu: int) -> bool {
    match policy {
        Policy::Fifo => all.len() > 0 ==> cpu + cost_of(all[0].kind) <= u32::MAX,
        Policy::Optimized => {
            &&& cq.len() > 0 ==> cpu + CPU_TASK_COST <= u32::MAX
            &&& io.len() > 0 ==> cpu + IO_TASK_COST <= u32::MAX
        },
    }
}

/// The task a policy takes next and the three queues (all, io, cpu) it
/// leaves behind, or `None` when it takes nothing.
pub open spec fn next_pick(policy: Policy, all: Seq<Task>, io: Seq<Task>, cq: Seq<Task>, cpu: int) -> Option<
    (Task, Seq<Task>, Seq<Task>, Seq<Task>),
> {
    match policy {
        Policy::Fifo => {
            if fifo_takes_front(all, cpu) {
                Some((all[0], all.drop_first(), io, cq))
            } else {
                None
            }
        },
        Policy::Optimized => {
            match optimized_pick(io.len(), cq.len(), cpu) {
                Some(TaskKind::CPU) => Some((cq[0], all, io, cq.drop_first())),
                Some(TaskKind::IO) => Some((io[0], all, io.drop_first(), cq)),
                None => None,
            }
        },
    }
}

/// What one dispatch round leaves behind: the assignments (worker, task) in
/// the order they were made, the three queues, the idle workers and the
/// reserved CPU share.
pub type DispatchOutcome = (Seq<(usize, Task)>, Seq<Task>, Seq<Task>, Seq<Task>, Seq<usize>, int);

/// One dispatch round: while a worker is idle and the policy picks a task,
/// the front idle worker gets that task and the task's share is reserved.
pub open spec fn dispatch_outcome(
    policy: Policy,
    all: Seq<Task>,
    io: Seq<Task>,
    cq: Seq<Task>,
    workers: Seq<usize>,
    cpu: int,
) -> DispatchOutcome
    decreases workers.len(),
{
    if workers.len() == 0 {
        (Seq::empty(), all, io, cq, workers, cpu)
    } else {
        match next_pick(policy, all, io, cq, cpu) {
            Some((t, all2, io2, cq2)) => {
                let rest = dispatch_outcome(
                    policy,
                    all2,
                    io2,
                    cq2,
                    workers.drop_first(),
                    cpu + cost_of(t.kind),
                );
                (seq![(workers[0], t)] + rest.0, rest.1, rest.2, rest.3, rest.4, rest.5)
            },
            None => (Seq::empty(), all, io, cq, workers, cpu),
        }
    }
}

/// Takes the front task of `queue` when its share fits next to `current_cpu`;
/// otherwise takes nothing, even if a later task would fit.
pub fn choose_fifo_task(queue: &mut VecDeque<Task>, current_cpu: u32) -> (chosen: Option<Task>)
    requires
        old(queue)@.len() > 0 ==> current_cpu + cost_of(old(queue)@[0].kind) <= u32::MAX,
    ensures
        fifo_takes_front(old(queue)@, current_cpu as int) ==> {
            &&& chosen == Some(old(queue)@[0])
            &&& final(queue)@ == old(queue)@.drop_first()
        },
        !fifo_takes_front(old(queue)@, current_cpu as int) ==> {
            &&& chosen.is_none()
            &&& final(queue)@ == old(queue)@
        },
        old(queue)@.len() > 0 && current_cpu + cost_of(old(queue)@[0].kind) <= CPU_LIMIT ==> {
            &&& chosen == Some(old(queue)@[0])
            &&& final(queue)@ == old(queue)@.drop_first()
        },
        chosen.is_none() <==> (old(queue)@.len() == 0 || current_cpu + cost_of(old(queue)@[0].kind)
            > CPU_LIMIT),
{
    if queue.len() > 0 {
        let front_cost: u32 = queue[0].kind.cpu_cost();
        if current_cpu + front_cost <= CPU_LIMIT {
            return queue.pop_front();
        }
    }
    None
}

/// Takes a task from the CPU queue or the IO queue as `optimized_pick` says:
/// a CPU task while the reserved share is low (or no IO task waits), else an
/// IO task that fits, else a CPU task that fits.
pub fn choose_optimized_task(
    io_queue: &mut VecDeque<Task>,
    cpu_queue: &mut VecDeque<Task>,
    current_cpu: u32,
) -> (chosen: Option<Task>)
    requires
        old(cpu_queue)@.len() > 0 ==> current_cpu + CPU_TASK_COST <= u32::MAX,
        old(io_queue)@.len() > 0 ==> current_cpu + IO_TASK_COST <= u32::MAX,
    ensures
        match optimized_pick(old(io_queue)@.len(), old(cpu_queue)@.len(), current_cpu as int) {
            Some(TaskKind::CPU) => {
                &&& chosen == Some(old(cpu_queue)@[0])
                &&& final(cpu_queue)@ == old(cpu_queue)@.drop_first()
                &&& final(io_queue)@ == old(io_queue)@
            },
            Some(TaskKind::IO) => {
                &&& chosen == Some(old(io_queue)@[0])
                &&& final(io_queue)@ == old(io_queue)@.drop_first()
                &&& final(cpu_queue)@ == old(cpu_queue)@
            },
            None => {
                &&& chosen.is_none()
                &&& final(io_queue)@ == old(io_queue)@
                &&& final(cpu_queue)@ == old(cpu_queue)@
            },
        },
        old(cpu_queue)@.len() > 0 && current_cpu <= LOW_CPU_THRESHOLD ==> {
            &&& chosen == Some(old(cpu_queue)@[0])
            &&& final(cpu_queue)@ == old(cpu_queue)@.drop_first()
            &&& final(io_queue)@ == old(io_queue)@
        },
        old(io_queue)@.len() > 0 && current_cpu > LOW_CPU_THRESHOLD && current_cpu + IO_TASK_COST
            <= CPU_LIMIT ==> {
            &&& chosen == Some(old(io_queue)@[0])
            &&& final(io_queue)@ == old(io_queue)@.drop_first()
            &&& final(cpu_queue)@ == old(cpu_queue)@
        },
        old(cpu_queue)@.len() == 0 && old(io_queue)@.len() > 0 && current_cpu + IO_TASK_COST
            <= CPU_LIMIT ==> {
            &&& chosen == Some(old(io_queue)@[0])
            &&& final(io_queue)@ == old(io_queue)@.drop_first()
            &&& final(cpu_queue)@ == old(cpu_queue)@
        },
        old(io_queue)@.len() == 0 && old(cpu_queue)@.len() > 0 && current_cpu + CPU_TASK_COST
            <= CPU_LIMIT ==> {
            &&& chosen == Some(old(cpu_queue)@[0])
            &&& final(cpu_queue)@ == old(cpu_queue)@.drop_first()
            &&& final(io_queue)@ == old(io_queue)@
        },
        chosen.is_none() <==> ((old(io_queue)@.len() == 0 || current_cpu + IO_TASK_COST > CPU_LIMIT)
            && (old(cpu_queue)@.len() == 0 || current_cpu + CPU_TASK_COST > CPU_LIMIT)),
{
    if cpu_queue.len() > 0 && current_cpu + CPU_TASK_COST <= CPU_LIMIT {
        if current_cpu <= LOW_CPU_THRESHOLD || io_queue.len() == 0 {
            return cpu_queue.pop_front();
        }
    }
    if io_queue.len() > 0 && current_cpu + IO_TASK_COST <= CPU_LIMIT {
        return io_queue.pop_front();
    }
    if cpu_queue.len() > 0 && current_cpu + CPU_TASK_COST <= CPU_LIMIT {
        return cpu_queue.pop_front();
    }
    None
}

/// Hands ready tasks to idle workers: while a worker is idle and the policy
/// picks a task, the front idle worker gets it and the task's CPU share is
/// added to `current_cpu`. Returns the assignments, in order.
pub fn dispatch_ready_tasks(
    policy: Policy,
    all_queue: &mut VecDeque<Task>,
    io_queue: &mut VecDeque<Task>,
    cpu_queue: &mut VecDeque<Task>,
    available_workers: &mut VecDeque<usize>,
    current_cpu: &mut u32,
) -> (sent: Vec<(usize, Task)>)
    requires
        old(available_workers)@.len() > 0 ==> choice_in_range(
            policy,
            old(all_queue)@,
            old(io_queue)@,
            old(cpu_queue)@,
            *old(current_cpu) as int,
        ),
    ensures
        ({
            let out = dispatch_outcome(
                policy,
                old(all_queue)@,
                old(io_queue)@,
                old(cpu_queue)@,
                old(available_workers)@,
                *old(current_cpu) as int,
            );
            &&& sent@ == out.0
            &&& final(all_queue)@ == out.1
            &&& final(io_queue)@ == out.2
            &&& final(cpu_queue)@ == out.3
            &&& final(available_workers)@ == out.4
            &&& *final(current_cpu) as int == out.5
        }),
{
    let ghost init = dispatch_outcome(
        policy,
        all_queue@,
        io_queue@,
        cpu_queue@,
        available_workers@,
        *current_cpu as int,
    );
    let mut sent: Vec<(usize, Task)> = Vec::new();
    loop
        invariant
            init == ({
                let out = dispatch_outcome(
                    policy,
                    all_queue@,
                    io_queue@,
                    cpu_queue@,
                    available_workers@,
                    *current_cpu as int,
                );
                (sent@ + out.0, out.1, out.2, out.3, out.4, out.5)
            }),
            available_workers@.len() > 0 ==> choice_in_range(
                policy,
                all_queue@,
                io_queue@,
                cpu_queue@,
                *current_cpu as int,
            ),
            sent@.len() > 0 ==> *current_cpu <= CPU_LIMIT + CPU_TASK_COST,
        ensures
            dispatch_outcome(
                policy,
                all_queue@,
                io_queue@,
                cpu_queue@,
                available_workers@,
                *current_cpu as int,
            ) == (Seq::<(usize, Task)>::empty(), all_queue@, io_queue@, cpu_queue@, available_workers@, *current_cpu as int),
        decreases available_workers@.len(),
    {
        if available_workers.len() == 0 {
            break;
        }
        let ghost before = (all_queue@, io_queue@, cpu_queue@, available_workers@, *current_cpu as int);
        let task_option = match policy {
            Policy::Fifo => choose_fifo_task(all_queue, *current_cpu),
            Policy::Optimized => choose_optimized_task(io_queue, cpu_queue, *current_cpu),
        };
        let task = match task_option {
            Some(task) => task,
            None => {
                break;
            },
        };
        let worker_id: usize = available_workers.pop_front().unwrap();
        let cost: u32 = task.kind.cpu_cost();
        *current_cpu = *current_cpu + cost;
        sent.push((worker_id, task));
        proof {
            assert(available_workers@ == before.3.drop_first());
            let s0 = sent@.drop_last();
            assert(sent@ == s0 + seq![(worker_id, task)]);
        }
    }
    sent
}

} // verus!
