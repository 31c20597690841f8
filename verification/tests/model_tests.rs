use lib::rng::SimpleRng;
use lib::task::{
    complete_task, elapsed_ms, release_cpu, Policy, Task, TaskKind, CPU_TASK_COST, IO_TASK_COST,
};
use lib::workload::{sample_totals, MonitorSample, Workload};

#[test]
fn rng_starts_at_seed() {
    let rng = SimpleRng::new(3340);
    assert_eq!(rng.state, 3340);
}

#[test]
fn rng_next_is_lcg_step() {
    let mut rng = SimpleRng::new(3340);
    assert_eq!(rng.next_u64(), 5565814734885175069);
    assert_eq!(rng.state, 5565814734885175069);
    assert_eq!(rng.next_u64(), 1697107027956235034);
}

#[test]
fn rng_wraps_around() {
    let mut rng = SimpleRng::new(u64::MAX);
    let expected = u64::MAX.wrapping_mul(6364136223846793005).wrapping_add(1);
    assert_eq!(rng.next_u64(), expected);
}

#[test]
fn gen_range_is_remainder_of_next_state() {
    let mut rng = SimpleRng::new(3340);
    assert_eq!(rng.gen_range(100), 69);
    assert_eq!(rng.gen_range(100), 34);
    let mut one = SimpleRng::new(7);
    assert_eq!(one.gen_range(1), 0);
}

#[test]
fn cpu_costs() {
    assert_eq!(TaskKind::IO.cpu_cost(), 10);
    assert_eq!(TaskKind::CPU.cpu_cost(), 35);
}

#[test]
fn policy_names() {
    assert_eq!(Policy::Fifo.name(), "FIFO");
    assert_eq!(Policy::Optimized.name(), "Optimized");
}

#[test]
fn elapsed_is_whole_milliseconds() {
    assert_eq!(elapsed_ms(1_000_000, 3_999_999), 2);
    assert_eq!(elapsed_ms(5, 5), 0);
    assert_eq!(elapsed_ms(9_000_000, 1_000_000), 0);
}

#[test]
fn completion_report() {
    let task = Task { id: 7, kind: TaskKind::CPU, arrival_ns: 2_000_000, duration_ms: 200 };
    let done = complete_task(3, &task, 52_500_000, 252_600_000);
    assert_eq!(done.worker_id, 3);
    assert_eq!(done.task_id, 7);
    assert_eq!(done.kind, TaskKind::CPU);
    assert_eq!(done.wait_ms, 50);
    assert_eq!(done.turnaround_ms, 250);
}

#[test]
fn release_gives_share_back() {
    assert_eq!(release_cpu(100, TaskKind::CPU), 65);
    assert_eq!(release_cpu(45, TaskKind::IO), 35);
}

#[test]
fn release_never_goes_below_zero() {
    assert_eq!(release_cpu(5, TaskKind::CPU), 0);
    assert_eq!(release_cpu(0, TaskKind::IO), 0);
}

#[test]
fn release_undoes_reserve() {
    for cpu in [0u32, 10, 55, 65, 90] {
        assert_eq!(release_cpu(cpu + CPU_TASK_COST, TaskKind::CPU), cpu);
        assert_eq!(release_cpu(cpu + IO_TASK_COST, TaskKind::IO), cpu);
    }
}

#[test]
fn workload_numbers_tasks_and_draws_kinds() {
    let mut w = Workload::new(70);
    assert_eq!(w.rng.state, 3410);
    let expected = [
        TaskKind::IO,
        TaskKind::CPU,
        TaskKind::CPU,
        TaskKind::IO,
        TaskKind::CPU,
        TaskKind::IO,
        TaskKind::IO,
        TaskKind::IO,
        TaskKind::IO,
        TaskKind::IO,
    ];
    for (i, kind) in expected.iter().enumerate() {
        let t = w.next_task(i as u128 * 20_000_000);
        assert_eq!(t.id, i);
        assert_eq!(t.kind, *kind);
        assert_eq!(t.duration_ms, 200);
        assert_eq!(t.arrival_ns, i as u128 * 20_000_000);
    }
    assert_eq!(w.next_id, 10);
}

#[test]
fn workload_is_reproducible() {
    let mut a = Workload::new(80);
    let mut b = Workload::new(80);
    for i in 0..200u128 {
        assert_eq!(a.next_task(i).kind, b.next_task(i + 1).kind);
    }
}

#[test]
fn workload_extremes() {
    let mut all_io = Workload::new(100);
    let mut all_cpu = Workload::new(0);
    for i in 0..100u128 {
        assert_eq!(all_io.next_task(i).kind, TaskKind::IO);
        assert_eq!(all_cpu.next_task(i).kind, TaskKind::CPU);
    }
}

#[test]
fn workload_cpu_percent() {
    assert_eq!(Workload::new(70).cpu_percent(), 30);
    assert_eq!(Workload::new(80).cpu_percent(), 20);
    assert_eq!(Workload::new(100).cpu_percent(), 0);
}

#[test]
fn monitor_totals() {
    let samples = vec![
        MonitorSample { cpu_usage: 100, active_workers: 5 },
        MonitorSample { cpu_usage: 95, active_workers: 7 },
        MonitorSample { cpu_usage: 80, active_workers: 8 },
    ];
    assert_eq!(sample_totals(&samples), (275, 20));
    assert_eq!(sample_totals(&Vec::new()), (0, 0));
}

#[test]
fn monitor_totals_do_not_overflow() {
    let samples = vec![
        MonitorSample { cpu_usage: u32::MAX, active_workers: usize::MAX },
        MonitorSample { cpu_usage: u32::MAX, active_workers: usize::MAX },
    ];
    assert_eq!(
        sample_totals(&samples),
        (2 * u32::MAX as u128, 2 * usize::MAX as u128)
    );
}
