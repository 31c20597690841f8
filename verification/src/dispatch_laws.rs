use vstd::prelude::*;
use crate::task::{Task, TaskKind, Policy, cost_of, released_cpu, CPU_LIMIT, CPU_TASK_COST, IO_TASK_COST};
use crate::schedule::{dispatch_outcome, next_pick, optimized_pick, LOW_CPU_THRESHOLD};

verus! {

/// Sum of the CPU shares of the tasks in `sent`.
pub open spec fn total_cost(sent: Seq<(usize, Task)>) -> int
    decreases sent.len(),
{
    if sent.len() == 0 {
        0
    } else {
        cost_of(sent[0].1.kind) + total_cost(sent.drop_first())
    }
}

/// The tasks of `sent`, in order.
pub open spec fn tasks_of(sent: Seq<(usize, Task)>) -> Seq<Task>
    decreases sent.len(),
{
    if sent.len() == 0 {
        Seq::empty()
    } else {
        seq![sent[0].1] + tasks_of(sent.drop_first())
    }
}

/// The tasks of `kind` in `sent`, in order.
pub open spec fn tasks_of_kind(sent: Seq<(usize, Task)>, kind: TaskKind) -> Seq<Task>
    decreases sent.len(),
{
    if sent.len() == 0 {
        Seq::empty()
    } else if sent[0].1.kind == kind {
        seq![sent[0].1] + tasks_of_kind(sent.drop_first(), kind)
    } else {
        tasks_of_kind(sent.drop_first(), kind)
    }
}

/// Every task of `queue` is of `kind`.
pub open spec fn all_of_kind(queue: Seq<Task>, kind: TaskKind) -> bool {
    forall|i: int| 0 <= i < queue.len() ==> #[trigger] queue[i].kind == kind
}

/// The optimized policy's queues hold only tasks of their own kind.
pub open spec fn queues_sorted(policy: Policy, io: Seq<Task>, cq: Seq<Task>) -> bool {
    policy == Policy::Optimized ==> all_of_kind(io, TaskKind::IO) && all_of_kind(cq, TaskKind::CPU)
}

/// Taking the front task off a queue of one kind leaves a queue of that kind.
pub proof fn lemma_drop_first_keeps_kind(queue: Seq<Task>, kind: TaskKind)
    requires
        queue.len() > 0,
        all_of_kind(queue, kind),
    ensures
        all_of_kind(queue.drop_first(), kind),
{
    assert forall|i: int| 0 <= i < queue.drop_first().len() implies #[trigger] queue.drop_first()[i].kind
        == kind by {
        assert(queue[i + 1].kind == kind);
    }
}

/// Law (accounting): a dispatch round gives the front idle workers, in order, one task each,
/// and adds exactly the shares of the tasks it gave out to the reserved CPU.
pub proof fn law_dispatch_accounting(
    policy: Policy,
    all: Seq<Task>,
    io: Seq<Task>,
    cq: Seq<Task>,
    workers: Seq<usize>,
    cpu: int,
)
    ensures
        ({
            let out = dispatch_outcome(policy, all, io, cq, workers, cpu);
            &&& out.0.len() <= workers.len()
            &&& out.4 == workers.skip(out.0.len() as int)
            &&& forall|i: int| 0 <= i < out.0.len() ==> #[trigger] out.0[i].0 == workers[i]
            &&& out.5 == cpu + total_cost(out.0)
        }),
    decreases workers.len(),
{
    let out = dispatch_outcome(policy, all, io, cq, workers, cpu);
    if workers.len() == 0 {
        assert(workers.skip(0) =~= workers);
    } else {
        match next_pick(policy, all, io, cq, cpu) {
            Some((t, all2, io2, cq2)) => {
                let w2 = workers.drop_first();
                let cpu2 = cpu + cost_of(t.kind);
                law_dispatch_accounting(policy, all2, io2, cq2, w2, cpu2);
                let rest = dispatch_outcome(policy, all2, io2, cq2, w2, cpu2);
                assert(out.0 == seq![(workers[0], t)] + rest.0);
                assert(out.0.drop_first() =~= rest.0);
                assert(w2.skip(rest.0.len() as int) =~= workers.skip(out.0.len() as int));
                assert forall|i: int| 0 <= i < out.0.len() implies #[trigger] out.0[i].0
                    == workers[i] by {
                    if i > 0 {
                        assert(out.0[i] == rest.0[i - 1]);
                    }
                }
            },
            None => {
                assert(workers.skip(0) =~= workers);
            },
        }
    }
}

/// Reserving the shares of two runs of assignments adds up.
pub proof fn lemma_total_cost_append(a: Seq<(usize, Task)>, b: Seq<(usize, Task)>)
    ensures
        total_cost(a + b) == total_cost(a) + total_cost(b),
    decreases a.len(),
{
    if a.len() == 0 {
        assert(a + b =~= b);
    } else {
        lemma_total_cost_append(a.drop_first(), b);
        assert((a + b).drop_first() =~= a.drop_first() + b);
    }
}

/// Law (the CPU limit): a dispatch round that gives out at least one task
/// leaves the reserved share at or under the limit, and a round that starts
/// at or under the limit ends there. For the optimized policy this holds when
/// each of its queues holds only tasks of its own kind.
pub proof fn law_dispatch_within_cpu_limit(
    policy: Policy,
    all: Seq<Task>,
    io: Seq<Task>,
    cq: Seq<Task>,
    workers: Seq<usize>,
    cpu: int,
)
    requires
        queues_sorted(policy, io, cq),
    ensures
        ({
            let out = dispatch_outcome(policy, all, io, cq, workers, cpu);
            &&& out.0.len() > 0 ==> out.5 <= CPU_LIMIT
            &&& cpu <= CPU_LIMIT ==> out.5 <= CPU_LIMIT
        }),
    decreases workers.len(),
{
    if workers.len() > 0 {
        match next_pick(policy, all, io, cq, cpu) {
            Some((t, all2, io2, cq2)) => {
                let w2 = workers.drop_first();
                let cpu2 = cpu + cost_of(t.kind);
                if policy == Policy::Optimized {
                    match optimized_pick(io.len(), cq.len(), cpu) {
                        Some(TaskKind::CPU) => {
                            lemma_drop_first_keeps_kind(cq, TaskKind::CPU);
                            assert(cq[0].kind == TaskKind::CPU);
                        },
                        Some(TaskKind::IO) => {
                            lemma_drop_first_keeps_kind(io, TaskKind::IO);
                            assert(io[0].kind == TaskKind::IO);
                        },
                        None => {},
                    }
                }
                assert(cpu2 <= CPU_LIMIT);
                law_dispatch_within_cpu_limit(policy, all2, io2, cq2, w2, cpu2);
                law_dispatch_accounting(policy, all2, io2, cq2, w2, cpu2);
                let rest = dispatch_outcome(policy, all2, io2, cq2, w2, cpu2);
                if rest.0.len() == 0 {
                    assert(total_cost(rest.0) == 0);
                }
            },
            None => {},
        }
    }
}

/// Law (FIFO order): the FIFO policy gives out a front part of its queue, in
/// queue order, and keeps the rest; it never touches the other two queues.
pub proof fn law_fifo_dispatch_keeps_order(
    all: Seq<Task>,
    io: Seq<Task>,
    cq: Seq<Task>,
    workers: Seq<usize>,
    cpu: int,
)
    ensures
        ({
            let out = dispatch_outcome(Policy::Fifo, all, io, cq, workers, cpu);
            &&& tasks_of(out.0) + out.1 == all
            &&& out.2 == io
            &&& out.3 == cq
        }),
    decreases workers.len(),
{
    let out = dispatch_outcome(Policy::Fifo, all, io, cq, workers, cpu);
    if workers.len() == 0 {
        assert(tasks_of(out.0) + out.1 =~= all);
    } else {
        match next_pick(Policy::Fifo, all, io, cq, cpu) {
            Some((t, all2, io2, cq2)) => {
                let w2 = workers.drop_first();
                let cpu2 = cpu + cost_of(t.kind);
                law_fifo_dispatch_keeps_order(all2, io2, cq2, w2, cpu2);
                let rest = dispatch_outcome(Policy::Fifo, all2, io2, cq2, w2, cpu2);
                assert(out.0.drop_first() =~= rest.0);
                assert(tasks_of(out.0) == seq![t] + tasks_of(rest.0));
                assert(tasks_of(out.0) + out.1 =~= seq![t] + (tasks_of(rest.0) + rest.1));
                assert(all =~= seq![all[0]] + all.drop_first());
            },
            None => {
                assert(tasks_of(out.0) + out.1 =~= all);
            },
        }
    }
}

/// Law (optimized order): the optimized policy never touches the FIFO queue;
/// it gives out a front part of the IO queue and a front part of the CPU
/// queue, each in queue order, and keeps the rest of each. No task is lost
/// or given out twice.
pub proof fn law_optimized_dispatch_keeps_order(
    all: Seq<Task>,
    io: Seq<Task>,
    cq: Seq<Task>,
    workers: Seq<usize>,
    cpu: int,
)
    requires
        queues_sorted(Policy::Optimized, io, cq),
    ensures
        ({
            let out = dispatch_outcome(Policy::Optimized, all, io, cq, workers, cpu);
            &&& out.1 == all
            &&& tasks_of_kind(out.0, TaskKind::IO) + out.2 == io
            &&& tasks_of_kind(out.0, TaskKind::CPU) + out.3 == cq
        }),
    decreases workers.len(),
{
    let out = dispatch_outcome(Policy::Optimized, all, io, cq, workers, cpu);
    if workers.len() == 0 {
        assert(tasks_of_kind(out.0, TaskKind::IO) + out.2 =~= io);
        assert(tasks_of_kind(out.0, TaskKind::CPU) + out.3 =~= cq);
    } else {
        match next_pick(Policy::Optimized, all, io, cq, cpu) {
            Some((t, all2, io2, cq2)) => {
                let w2 = workers.drop_first();
                let cpu2 = cpu + cost_of(t.kind);
                match optimized_pick(io.len(), cq.len(), cpu) {
                    Some(TaskKind::CPU) => lemma_drop_first_keeps_kind(cq, TaskKind::CPU),
                    Some(TaskKind::IO) => lemma_drop_first_keeps_kind(io, TaskKind::IO),
                    None => {},
                }
                law_optimized_dispatch_keeps_order(all2, io2, cq2, w2, cpu2);
                let rest = dispatch_outcome(Policy::Optimized, all2, io2, cq2, w2, cpu2);
                assert(out.0.drop_first() =~= rest.0);
                assert(out.0[0].1 == t);
                match optimized_pick(io.len(), cq.len(), cpu) {
                    Some(TaskKind::CPU) => {
                        assert(cq[0].kind == TaskKind::CPU);
                        assert(tasks_of_kind(out.0, TaskKind::CPU) == seq![t] + tasks_of_kind(
                            rest.0,
                            TaskKind::CPU,
                        ));
                        assert(tasks_of_kind(out.0, TaskKind::IO) == tasks_of_kind(
                            rest.0,
                            TaskKind::IO,
                        ));
                        assert(cq =~= seq![t] + cq2);
                        assert(tasks_of_kind(out.0, TaskKind::CPU) + out.3 =~= seq![t] + (
                        tasks_of_kind(rest.0, TaskKind::CPU) + rest.3));
                    },
                    Some(TaskKind::IO) => {
                        assert(io[0].kind == TaskKind::IO);
                        assert(tasks_of_kind(out.0, TaskKind::IO) == seq![t] + tasks_of_kind(
                            rest.0,
                            TaskKind::IO,
                        ));
                        assert(tasks_of_kind(out.0, TaskKind::CPU) == tasks_of_kind(
                            rest.0,
                            TaskKind::CPU,
                        ));
                        assert(io =~= seq![t] + io2);
                        assert(tasks_of_kind(out.0, TaskKind::IO) + out.2 =~= seq![t] + (
                        tasks_of_kind(rest.0, TaskKind::IO) + rest.2));
                    },
                    None => {},
                }
            },
            None => {
                assert(tasks_of_kind(out.0, TaskKind::IO) + out.2 =~= io);
                assert(tasks_of_kind(out.0, TaskKind::CPU) + out.3 =~= cq);
            },
        }
    }
}

/// A dispatch round ends only when no worker is idle or the policy takes no
/// task at the share it has reached.
pub proof fn lemma_dispatch_stops_when_blocked(
    policy: Policy,
    all: Seq<Task>,
    io: Seq<Task>,
    cq: Seq<Task>,
    workers: Seq<usize>,
    cpu: int,
)
    ensures
        ({
            let out = dispatch_outcome(policy, all, io, cq, workers, cpu);
            out.4.len() == 0 || next_pick(policy, out.1, out.2, out.3, out.5) is None
        }),
    decreases workers.len(),
{
    if workers.len() > 0 {
        match next_pick(policy, all, io, cq, cpu) {
            Some((t, all2, io2, cq2)) => {
                lemma_dispatch_stops_when_blocked(
                    policy,
                    all2,
                    io2,
                    cq2,
                    workers.drop_first(),
                    cpu + cost_of(t.kind),
                );
            },
            None => {},
        }
    }
}

/// Law (work conservation of the optimized policy): it takes nothing only
/// when neither a waiting IO task nor a waiting CPU task fits under the limit.
pub proof fn law_optimized_idles_only_when_nothing_fits(io_len: nat, cpu_len: nat, cpu: int)
    ensures
        optimized_pick(io_len, cpu_len, cpu) is None <==> ((io_len == 0 || cpu + IO_TASK_COST
            > CPU_LIMIT) && (cpu_len == 0 || cpu + CPU_TASK_COST > CPU_LIMIT)),
{
}

/// Law (no idle worker beside a fitting task): after an optimized dispatch
/// round, either every worker is busy or no waiting task of either kind fits
/// under the limit.
pub proof fn law_optimized_dispatch_fills_workers(
    all: Seq<Task>,
    io: Seq<Task>,
    cq: Seq<Task>,
    workers: Seq<usize>,
    cpu: int,
)
    ensures
        ({
            let out = dispatch_outcome(Policy::Optimized, all, io, cq, workers, cpu);
            out.4.len() == 0 || ((out.2.len() == 0 || out.5 + IO_TASK_COST > CPU_LIMIT) && (
            out.3.len() == 0 || out.5 + CPU_TASK_COST > CPU_LIMIT))
        }),
{
    lemma_dispatch_stops_when_blocked(Policy::Optimized, all, io, cq, workers, cpu);
    let out = dispatch_outcome(Policy::Optimized, all, io, cq, workers, cpu);
    law_optimized_idles_only_when_nothing_fits(out.2.len(), out.3.len(), out.5);
}

/// Law (head-of-line blocking): after a FIFO dispatch round, either every
/// worker is busy or the front task does not fit (or the queue is empty).
pub proof fn law_fifo_dispatch_stops_at_front(
    all: Seq<Task>,
    io: Seq<Task>,
    cq: Seq<Task>,
    workers: Seq<usize>,
    cpu: int,
)
    ensures
        ({
            let out = dispatch_outcome(Policy::Fifo, all, io, cq, workers, cpu);
            out.4.len() == 0 || out.1.len() == 0 || out.5 + cost_of(out.1[0].kind) > CPU_LIMIT
        }),
{
    lemma_dispatch_stops_when_blocked(Policy::Fifo, all, io, cq, workers, cpu);
}

/// Law (FIFO takes a fitting front task): when a worker is idle and the
/// front task's share fits next to the reserved share, the first assignment
/// of a FIFO round gives that front task to the front idle worker.
pub proof fn law_fifo_round_starts_with_fitting_front(
    all: Seq<Task>,
    io: Seq<Task>,
    cq: Seq<Task>,
    workers: Seq<usize>,
    cpu: int,
)
    requires
        workers.len() > 0,
        all.len() > 0,
        cpu + cost_of(all[0].kind) <= CPU_LIMIT,
    ensures
        ({
            let out = dispatch_outcome(Policy::Fifo, all, io, cq, workers, cpu);
            &&& out.0.len() > 0
            &&& out.0[0] == (workers[0], all[0])
        }),
{
}

/// Law (the optimized choice, over its inputs): a waiting CPU task is taken
/// while the reserved share is at most `LOW_CPU_THRESHOLD`; above it, a
/// waiting IO task that fits is taken; and a CPU task is taken while an IO
/// task waits only at or below the threshold.
pub proof fn law_optimized_choice(io_len: nat, cpu_len: nat, cpu: int)
    ensures
        cpu_len > 0 && cpu <= LOW_CPU_THRESHOLD ==> optimized_pick(io_len, cpu_len, cpu) == Some(
            TaskKind::CPU,
        ),
        io_len > 0 && cpu > LOW_CPU_THRESHOLD && cpu + IO_TASK_COST <= CPU_LIMIT ==> optimized_pick(
            io_len,
            cpu_len,
            cpu,
        ) == Some(TaskKind::IO),
        io_len > 0 && optimized_pick(io_len, cpu_len, cpu) == Some(TaskKind::CPU) ==> cpu
            <= LOW_CPU_THRESHOLD,
        optimized_pick(io_len, cpu_len, cpu) == Some(TaskKind::CPU) ==> cpu_len > 0 && cpu
            + CPU_TASK_COST <= CPU_LIMIT,
        optimized_pick(io_len, cpu_len, cpu) == Some(TaskKind::IO) ==> io_len > 0 && cpu
            + IO_TASK_COST <= CPU_LIMIT,
{
}

/// Law (CPU work does not starve): when a worker is idle, a CPU task waits
/// and the reserved share is at most `LOW_CPU_THRESHOLD`, the first
/// assignment of an optimized round gives the front CPU task to the front
/// idle worker, whatever the IO queue holds.
pub proof fn law_optimized_round_prefers_cpu_when_low(
    all: Seq<Task>,
    io: Seq<Task>,
    cq: Seq<Task>,
    workers: Seq<usize>,
    cpu: int,
)
    requires
        workers.len() > 0,
        cq.len() > 0,
        cpu <= LOW_CPU_THRESHOLD,
    ensures
        ({
            let out = dispatch_outcome(Policy::Optimized, all, io, cq, workers, cpu);
            &&& out.0.len() > 0
            &&& out.0[0] == (workers[0], cq[0])
        }),
{
}

/// Law (high share is filled with IO): when a worker is idle, an IO task
/// waits, the reserved share is above `LOW_CPU_THRESHOLD` and the IO task
/// fits, the first assignment of an optimized round gives the front IO task
/// to the front idle worker.
pub proof fn law_optimized_round_fills_with_io_when_high(
    all: Seq<Task>,
    io: Seq<Task>,
    cq: Seq<Task>,
    workers: Seq<usize>,
    cpu: int,
)
    requires
        workers.len() > 0,
        io.len() > 0,
        cpu > LOW_CPU_THRESHOLD,
        cpu + IO_TASK_COST <= CPU_LIMIT,
    ensures
        ({
            let out = dispatch_outcome(Policy::Optimized, all, io, cq, workers, cpu);
            &&& out.0.len() > 0
            &&& out.0[0] == (workers[0], io[0])
        }),
{
}

/// Law (reserve and release): giving back the share of a task of `kind`
/// right after reserving it restores the previous reserved share.
pub proof fn law_release_undoes_reserve(cpu: u32, kind: TaskKind)
    requires
        cpu + cost_of(kind) <= u32::MAX,
    ensures
        released_cpu((cpu + cost_of(kind)) as u32, kind) == cpu,
{
}

/// Releasing the share of the assignment at `i` out of `running` takes
/// exactly that task's share off the total.
pub proof fn lemma_total_cost_remove(running: Seq<(usize, Task)>, i: int)
    requires
        0 <= i < running.len(),
    ensures
        total_cost(running) == cost_of(running[i].1.kind) + total_cost(running.remove(i)),
        total_cost(running) >= cost_of(running[i].1.kind),
    decreases running.len(),
{
    lemma_total_cost_nonneg(running.remove(i));
    if i == 0 {
        assert(running.remove(0) =~= running.drop_first());
    } else {
        lemma_total_cost_remove(running.drop_first(), i - 1);
        assert(running.remove(i).drop_first() =~= running.drop_first().remove(i - 1));
        assert(running.remove(i)[0] == running[0]);
    }
}

/// Shares are never negative.
pub proof fn lemma_total_cost_nonneg(sent: Seq<(usize, Task)>)
    ensures
        total_cost(sent) >= 0,
    decreases sent.len(),
{
    if sent.len() > 0 {
        lemma_total_cost_nonneg(sent.drop_first());
    }
}

/// Law (the reserved share tracks the running tasks): when the reserved share
/// equals the total share of the running tasks, a dispatch round keeps it
/// equal to the total of the running tasks plus those just given out, and a
/// finished task releasing its share keeps it equal to the total of the
/// tasks still running.
pub proof fn law_reserved_share_tracks_running_tasks(
    policy: Policy,
    all: Seq<Task>,
    io: Seq<Task>,
    cq: Seq<Task>,
    workers: Seq<usize>,
    running: Seq<(usize, Task)>,
    finished: int,
)
    requires
        0 <= finished < running.len(),
        total_cost(running) <= u32::MAX,
    ensures
        ({
            let out = dispatch_outcome(policy, all, io, cq, workers, total_cost(running));
            out.5 == total_cost(running + out.0)
        }),
        released_cpu(total_cost(running) as u32, running[finished].1.kind) == total_cost(
            running.remove(finished),
        ),
{
    law_dispatch_accounting(policy, all, io, cq, workers, total_cost(running));
    let out = dispatch_outcome(policy, all, io, cq, workers, total_cost(running));
    lemma_total_cost_append(running, out.0);
    lemma_total_cost_remove(running, finished);
}

} // verus!
