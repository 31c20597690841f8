use vstd::prelude::*;

verus! {

/// CPU share, in percent, that a running IO task reserves.
pub const IO_TASK_COST: u32 = 10;

/// CPU share, in percent, that a running CPU task reserves.
pub const CPU_TASK_COST: u32 = 35;

/// The global CPU share that the reserved total may never pass.
pub const CPU_LIMIT: u32 = 100;

/// Size of the worker pool.
pub const WORKER_COUNT: usize = 8;

/// How long each task runs, in milliseconds.
pub const TASK_DURATION_MS: u64 = 200;

/// Pause between two generated tasks, in milliseconds.
pub const ARRIVAL_INTERVAL_MS: u64 = 20;

/// Number of tasks a simulation run generates.
pub const TOTAL_TASKS: usize = 1000;

/// Base seed of the workload generator.
pub const SEED: u64 = 3340;

/// Nanoseconds in a millisecond.
pub const NANOS_PER_MILLI: u128 = 1_000_000;

#[derive(Clone, Copy, Debug, PartialEq, Eq, Structural)]
pub enum TaskKind {
    IO,
    CPU,
}

/// The CPU share that a task of `kind` reserves while it runs.
pub open spec fn cost_of(kind: TaskKind) -> u32 {
    match kind {
        TaskKind::IO => IO_TASK_COST,
        TaskKind::CPU => CPU_TASK_COST,
    }
}

impl TaskKind {
    pub fn cpu_cost(&self) -> (cost: u32)
        ensures
            cost == cost_of(*self),
    {
        match self {
            TaskKind::IO => IO_TASK_COST,
            TaskKind::CPU => CPU_TASK_COST,
        }
    }
}

/// A unit of work. `arrival_ns` is the moment it was created, in nanoseconds
/// since the run started.
#[derive(Clone, Copy, Debug, PartialEq, Eq, Structural)]
pub struct Task {
    pub id: usize,
    pub kind: TaskKind,
    pub arrival_ns: u128,
    pub duration_ms: u64,
}

#[derive(Clone, Copy, Debug, PartialEq, Eq, Structural)]
pub enum Policy {
    Fifo,
    Optimized,
}

impl Policy {
    pub fn name(&self) -> (name: &'static str)
        ensures
            *self == Policy::Fifo ==> name@ == "FIFO"@,
            *self == Policy::Optimized ==> name@ == "Optimized"@,
    {
        match self {
            Policy::Fifo => "FIFO",
            Policy::Optimized => "Optimized",
        }
    }
}

/// What a worker reports once it has run a task.
#[derive(Clone, Copy, Debug, PartialEq, Eq, Structural)]
pub struct CompletedTask {
    pub worker_id: usize,
    pub task_id: usize,
    pub kind: TaskKind,
    pub wait_ms: u128,
    pub turnaround_ms: u128,
}

/// Whole milliseconds from `from_ns` to `to_ns`; zero when `to_ns` comes first.
pub open spec fn elapsed_ms_spec(from_ns: u128, to_ns: u128) -> u128 {
    if to_ns >= from_ns {
        ((to_ns - from_ns) / NANOS_PER_MILLI as int) as u128
    } else {
        0
    }
}

/// Law (elapsed time): for a later moment, the result is the number of whole
/// milliseconds in the full span, with no upper bound of its own; for an
/// earlier moment it is zero.
pub proof fn law_elapsed_ms_counts_whole_millis(from_ns: u128, to_ns: u128)
    ensures
        to_ns >= from_ns ==> elapsed_ms_spec(from_ns, to_ns) * NANOS_PER_MILLI <= to_ns - from_ns
            < (elapsed_ms_spec(from_ns, to_ns) + 1) * NANOS_PER_MILLI,
        to_ns < from_ns ==> elapsed_ms_spec(from_ns, to_ns) == 0,
{
    if to_ns >= from_ns {
        let d: int = to_ns - from_ns;
        let q: int = d / 1_000_000;
        assert(q * 1_000_000 <= d < (q + 1) * 1_000_000) by (nonlinear_arith)
            requires
                d >= 0,
                q == d / 1_000_000,
        ;
    }
}

pub fn elapsed_ms(from_ns: u128, to_ns: u128) -> (ms: u128)
    ensures
        ms == elapsed_ms_spec(from_ns, to_ns),
        to_ns >= from_ns ==> ms * NANOS_PER_MILLI <= to_ns - from_ns < (ms + 1) * NANOS_PER_MILLI,
        to_ns < from_ns ==> ms == 0,
{
    proof {
        law_elapsed_ms_counts_whole_millis(from_ns, to_ns);
    }
    if to_ns >= from_ns {
        (to_ns - from_ns) / NANOS_PER_MILLI
    } else {
        0
    }
}

/// The report for `task`, run by `worker_id`, started at `started_ns` and
/// finished at `completed_ns` (both since the run started).
pub fn complete_task(worker_id: usize, task: &Task, started_ns: u128, completed_ns: u128) -> (done:
    CompletedTask)
    ensures
        done.worker_id == worker_id,
        done.task_id == task.id,
        done.kind == task.kind,
        done.wait_ms == elapsed_ms_spec(task.arrival_ns, started_ns),
        done.turnaround_ms == elapsed_ms_spec(task.arrival_ns, completed_ns),
        started_ns >= task.arrival_ns ==> done.wait_ms * NANOS_PER_MILLI <= started_ns
            - task.arrival_ns < (done.wait_ms + 1) * NANOS_PER_MILLI,
        completed_ns >= task.arrival_ns ==> done.turnaround_ms * NANOS_PER_MILLI <= completed_ns
            - task.arrival_ns < (done.turnaround_ms + 1) * NANOS_PER_MILLI,
{
    CompletedTask {
        worker_id,
        task_id: task.id,
        kind: task.kind,
        wait_ms: elapsed_ms(task.arrival_ns, started_ns),
        turnaround_ms: elapsed_ms(task.arrival_ns, completed_ns),
    }
}

/// CPU share left reserved once a task of `kind` gives its share back.
pub open spec fn released_cpu(cpu: u32, kind: TaskKind) -> u32 {
    if cpu >= cost_of(kind) {
        (cpu - cost_of(kind)) as u32
    } else {
        0
    }
}

/// Gives back the CPU share of a finished task of `kind`, never going below zero.
pub fn release_cpu(cpu: u32, kind: TaskKind) -> (rest: u32)
    ensures
        rest == released_cpu(cpu, kind),
        cpu >= cost_of(kind) ==> rest + cost_of(kind) == cpu,
        cpu < cost_of(kind) ==> rest == 0,
        kind == TaskKind::IO ==> rest == if cpu >= 10 { cpu - 10 } else { 0 },
        kind == TaskKind::CPU ==> rest == if cpu >= 35 { cpu - 35 } else { 0 },
{
    cpu.saturating_sub(kind.cpu_cost())
}

} // verus!
