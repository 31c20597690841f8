use vstd::prelude::*;
use crate::rng::{SimpleRng, lcg_step};
use crate::task::{Task, TaskKind, SEED, TASK_DURATION_MS};

verus! {

/// Rolls are drawn below this bound; a task is IO when its roll is below the
/// IO percentage.
pub const ROLL_RANGE: u32 = 100;

/// The kind of a task whose roll is `roll` in a workload with `io_percent` percent IO tasks.
pub open spec fn kind_for_roll(roll: int, io_percent: u32) -> TaskKind {
    if roll < io_percent {
        TaskKind::IO
    } else {
        TaskKind::CPU
    }
}

/// The seed of the workload with `io_percent` percent IO tasks.
pub open spec fn workload_seed(io_percent: u32) -> u64 {
    (SEED + io_percent) as u64
}

/// The generator state after `steps` steps from `seed`.
pub open spec fn lcg_iterate(seed: u64, steps: nat) -> u64
    decreases steps,
{
    if steps == 0 {
        seed
    } else {
        lcg_step(lcg_iterate(seed, (steps - 1) as nat))
    }
}

/// The kind of task number `id` in the workload with `io_percent` percent IO
/// tasks: it depends on nothing else, so a run can be repeated exactly.
pub open spec fn workload_kind(io_percent: u32, id: nat) -> TaskKind {
    kind_for_roll(lcg_iterate(workload_seed(io_percent), id + 1) as int % ROLL_RANGE as int, io_percent)
}

/// The producer's side of a run: it numbers tasks from zero and draws each
/// task's kind from a generator seeded by the IO percentage.
pub struct Workload {
    pub rng: SimpleRng,
    pub io_percent: u32,
    pub next_id: usize,
}

impl Workload {
    /// The generator has taken one step for each task created so far.
    pub open spec fn wf(&self) -> bool {
        self.rng.state == lcg_iterate(workload_seed(self.io_percent), self.next_id as nat)
    }

    pub fn new(io_percent: u32) -> (w: Self)
        ensures
            w.wf(),
            w.rng.state == workload_seed(io_percent),
            w.io_percent == io_percent,
            w.next_id == 0,
    {
        Workload { rng: SimpleRng::new(SEED + io_percent as u64), io_percent, next_id: 0 }
    }

    /// The CPU percentage of the workload, the complement of its IO percentage.
    pub fn cpu_percent(&self) -> (p: u32)
        requires
            self.io_percent <= 100,
        ensures
            p == 100 - self.io_percent,
    {
        100 - self.io_percent
    }

    /// Creates the next task, arriving at `arrival_ns`.
    pub fn next_task(&mut self, arrival_ns: u128) -> (task: Task)
        requires
            old(self).next_id < usize::MAX,
        ensures
            old(self).wf() ==> final(self).wf(),
            old(self).wf() ==> task.kind == workload_kind(old(self).io_percent, task.id as nat),
            task.id == old(self).next_id,
            task.kind == TaskKind::IO <==> (lcg_step(old(self).rng.state) % 100) < old(self).io_percent,
            task.kind == kind_for_roll(lcg_step(old(self).rng.state) as int % ROLL_RANGE as int, old(self).io_percent),
            task.arrival_ns == arrival_ns,
            task.duration_ms == TASK_DURATION_MS,
            final(self).rng.state == lcg_step(old(self).rng.state),
            final(self).next_id == old(self).next_id + 1,
            final(self).io_percent == old(self).io_percent,
    {
        let roll: u32 = self.rng.gen_range(ROLL_RANGE);
        let kind = if roll < self.io_percent {
            TaskKind::IO
        } else {
            TaskKind::CPU
        };
        let task = Task { id: self.next_id, kind, arrival_ns, duration_ms: TASK_DURATION_MS };
        self.next_id = self.next_id + 1;
        task
    }
}

/// One reading of the monitor: the reserved CPU share and the busy workers.
#[derive(Clone, Copy, Debug, PartialEq, Eq, Structural)]
pub struct MonitorSample {
    pub cpu_usage: u32,
    pub active_workers: usize,
}

/// Sum of the CPU readings of `samples`.
pub open spec fn cpu_usage_sum(samples: Seq<MonitorSample>) -> int
    decreases samples.len(),
{
    if samples.len() == 0 {
        0
    } else {
        cpu_usage_sum(samples.drop_last()) + samples.last().cpu_usage
    }
}

/// Sum of the busy-worker readings of `samples`.
pub open spec fn active_workers_sum(samples: Seq<MonitorSample>) -> int
    decreases samples.len(),
{
    if samples.len() == 0 {
        0
    } else {
        active_workers_sum(samples.drop_last()) + samples.last().active_workers
    }
}

/// The sums of the CPU readings and of the busy-worker readings, from which
/// the averages over the run are taken.
pub fn sample_totals(samples: &Vec<MonitorSample>) -> (totals: (u128, u128))
    ensures
        totals.0 == cpu_usage_sum(samples@),
        totals.1 == active_workers_sum(samples@),
{
    let mut cpu_total: u128 = 0;
    let mut worker_total: u128 = 0;
    let mut i: usize = 0;
    while i < samples.len()
        invariant
            i <= samples@.len(),
            cpu_total == cpu_usage_sum(samples@.take(i as int)),
            worker_total == active_workers_sum(samples@.take(i as int)),
            cpu_total <= i * 0xFFFF_FFFF_FFFF_FFFFu128,
            worker_total <= i * 0xFFFF_FFFF_FFFF_FFFFu128,
        decreases samples@.len() - i,
    {
        let s = samples[i];
        proof {
            assert(samples@.take(i + 1).drop_last() =~= samples@.take(i as int));
            assert(samples@.take(i + 1).last() == s);
            assert((i + 1) * 0xFFFF_FFFF_FFFF_FFFFu128 <= 0xFFFF_FFFF_FFFF_FFFF_FFFF_FFFF_FFFF_FFFFu128) by (nonlinear_arith)
                requires i < 0xFFFF_FFFF_FFFF_FFFFu128;
        }
        cpu_total = cpu_total + s.cpu_usage as u128;
        worker_total = worker_total + s.active_workers as u128;
        i = i + 1;
    }
    proof {
        assert(samples@.take(i as int) =~= samples@);
    }
    (cpu_total, worker_total)
}

} // verus!
