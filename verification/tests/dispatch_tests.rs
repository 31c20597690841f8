use lib::manager::Manager;
use lib::schedule::{choose_fifo_task, choose_optimized_task, dispatch_ready_tasks};
use lib::task::{CompletedTask, Policy, Task, TaskKind};
use std::collections::VecDeque;

fn task(id: usize, kind: TaskKind) -> Task {
    Task { id, kind, arrival_ns: 0, duration_ms: 200 }
}

fn queue(kinds: &[TaskKind], first_id: usize) -> VecDeque<Task> {
    kinds.iter().enumerate().map(|(i, k)| task(first_id + i, *k)).collect()
}

fn workers(n: usize) -> VecDeque<usize> {
    (0..n).collect()
}

fn count(sent: &[(usize, Task)], kind: TaskKind) -> usize {
    sent.iter().filter(|(_, t)| t.kind == kind).count()
}

#[test]
fn fifo_takes_front_when_it_fits() {
    let mut q = queue(&[TaskKind::CPU, TaskKind::IO], 0);
    let t = choose_fifo_task(&mut q, 65).unwrap();
    assert_eq!(t.id, 0);
    assert_eq!(q.len(), 1);
}

#[test]
fn fifo_head_of_line_blocking() {
    let mut q = queue(&[TaskKind::CPU, TaskKind::IO], 0);
    assert!(choose_fifo_task(&mut q, 70).is_none());
    assert_eq!(q.len(), 2);
    let mut empty = VecDeque::new();
    assert!(choose_fifo_task(&mut empty, 0).is_none());
}

#[test]
fn optimized_prefers_cpu_while_low() {
    let mut io = queue(&[TaskKind::IO], 0);
    let mut cq = queue(&[TaskKind::CPU], 10);
    assert_eq!(choose_optimized_task(&mut io, &mut cq, 60).unwrap().id, 10);
    assert_eq!(io.len(), 1);
    assert_eq!(cq.len(), 0);
}

#[test]
fn optimized_fills_with_io_when_cpu_is_high() {
    let mut io = queue(&[TaskKind::IO], 0);
    let mut cq = queue(&[TaskKind::CPU], 10);
    assert_eq!(choose_optimized_task(&mut io, &mut cq, 61).unwrap().id, 0);
    let mut io = queue(&[TaskKind::IO], 0);
    let mut cq = queue(&[TaskKind::CPU], 10);
    assert_eq!(choose_optimized_task(&mut io, &mut cq, 70).unwrap().id, 0);
}

#[test]
fn optimized_takes_cpu_when_no_io_waits() {
    let mut io = VecDeque::new();
    let mut cq = queue(&[TaskKind::CPU], 10);
    assert_eq!(choose_optimized_task(&mut io, &mut cq, 65).unwrap().id, 10);
    let mut cq = queue(&[TaskKind::CPU], 10);
    assert!(choose_optimized_task(&mut io, &mut cq, 66).is_none());
}

#[test]
fn optimized_waits_when_nothing_fits() {
    let mut io = queue(&[TaskKind::IO], 0);
    let mut cq = queue(&[TaskKind::CPU], 10);
    assert!(choose_optimized_task(&mut io, &mut cq, 91).is_none());
    assert_eq!((io.len(), cq.len()), (1, 1));
}

fn optimized_round(n_cpu: usize, n_io: usize) -> (Vec<(usize, Task)>, u32, usize) {
    let mut all = VecDeque::new();
    let mut io = queue(&vec![TaskKind::IO; n_io], 100);
    let mut cq = queue(&vec![TaskKind::CPU; n_cpu], 200);
    let mut w = workers(8);
    let mut cpu = 0u32;
    let sent = dispatch_ready_tasks(Policy::Optimized, &mut all, &mut io, &mut cq, &mut w, &mut cpu);
    (sent, cpu, w.len())
}

#[test]
fn optimized_mix_two_cpu_three_io() {
    let (sent, cpu, idle) = optimized_round(10, 10);
    assert_eq!(count(&sent, TaskKind::CPU), 2);
    assert_eq!(count(&sent, TaskKind::IO), 3);
    assert_eq!(cpu, 100);
    assert_eq!(idle, 3);
    let ids: Vec<usize> = sent.iter().map(|(_, t)| t.id).collect();
    assert_eq!(ids, vec![200, 201, 100, 101, 102]);
    let ws: Vec<usize> = sent.iter().map(|(w, _)| *w).collect();
    assert_eq!(ws, vec![0, 1, 2, 3, 4]);
}

#[test]
fn optimized_mix_one_cpu_six_io() {
    let (sent, cpu, idle) = optimized_round(1, 10);
    assert_eq!(count(&sent, TaskKind::CPU), 1);
    assert_eq!(count(&sent, TaskKind::IO), 6);
    assert_eq!(cpu, 95);
    assert_eq!(idle, 1);
}

#[test]
fn optimized_mix_eight_io() {
    let (sent, cpu, idle) = optimized_round(0, 10);
    assert_eq!(count(&sent, TaskKind::IO), 8);
    assert_eq!(cpu, 80);
    assert_eq!(idle, 0);
}

#[test]
fn fifo_round_blocks_behind_cpu_task() {
    let mut all = queue(
        &[TaskKind::CPU, TaskKind::CPU, TaskKind::CPU, TaskKind::IO, TaskKind::IO],
        0,
    );
    let mut io = VecDeque::new();
    let mut cq = VecDeque::new();
    let mut w = workers(8);
    let mut cpu = 0u32;
    let sent = dispatch_ready_tasks(Policy::Fifo, &mut all, &mut io, &mut cq, &mut w, &mut cpu);
    let ids: Vec<usize> = sent.iter().map(|(_, t)| t.id).collect();
    assert_eq!(ids, vec![0, 1]);
    assert_eq!(cpu, 70);
    assert_eq!(all.len(), 3);
    assert_eq!(w.len(), 6);
}

#[test]
fn dispatch_without_idle_workers_does_nothing() {
    let mut all = queue(&[TaskKind::IO], 0);
    let mut io = VecDeque::new();
    let mut cq = VecDeque::new();
    let mut w = VecDeque::new();
    let mut cpu = 0u32;
    let sent = dispatch_ready_tasks(Policy::Fifo, &mut all, &mut io, &mut cq, &mut w, &mut cpu);
    assert!(sent.is_empty());
    assert_eq!(all.len(), 1);
    assert_eq!(cpu, 0);
}

#[test]
fn dispatch_stays_within_limit() {
    for start in [0u32, 20, 55, 65, 90, 100] {
        for policy in [Policy::Fifo, Policy::Optimized] {
            let mut all = queue(&[TaskKind::CPU, TaskKind::IO, TaskKind::IO, TaskKind::CPU], 0);
            let mut io = queue(&[TaskKind::IO; 6], 10);
            let mut cq = queue(&[TaskKind::CPU; 6], 20);
            if policy == Policy::Fifo {
                io.clear();
                cq.clear();
            } else {
                all.clear();
            }
            let before = all.len() + io.len() + cq.len();
            let mut w = workers(8);
            let mut cpu = start;
            let sent = dispatch_ready_tasks(policy, &mut all, &mut io, &mut cq, &mut w, &mut cpu);
            assert!(cpu <= 100);
            let reserved: u32 = sent.iter().map(|(_, t)| t.kind.cpu_cost()).sum();
            assert_eq!(cpu, start + reserved);
            assert_eq!(sent.len() + all.len() + io.len() + cq.len(), before);
            assert_eq!(sent.len() + w.len(), 8);
        }
    }
}

#[test]
fn manager_routes_by_policy() {
    let mut fifo = Manager::new(Policy::Fifo);
    fifo.enqueue(task(0, TaskKind::IO));
    fifo.enqueue(task(1, TaskKind::CPU));
    assert_eq!(fifo.all_queue.len(), 2);
    assert!(fifo.io_queue.is_empty() && fifo.cpu_queue.is_empty());

    let mut opt = Manager::new(Policy::Optimized);
    opt.enqueue(task(0, TaskKind::IO));
    opt.enqueue(task(1, TaskKind::CPU));
    opt.enqueue(task(2, TaskKind::IO));
    assert!(opt.all_queue.is_empty());
    assert_eq!(opt.io_queue.iter().map(|t| t.id).collect::<Vec<_>>(), vec![0, 2]);
    assert_eq!(opt.cpu_queue.iter().map(|t| t.id).collect::<Vec<_>>(), vec![1]);
}

#[test]
fn manager_dispatches_to_idle_workers() {
    let mut m = Manager::new(Policy::Optimized);
    for id in 0..4 {
        m.add_available_worker(id);
    }
    for id in 0..3 {
        m.enqueue(task(id, TaskKind::CPU));
    }
    let mut cpu = 0u32;
    let sent = m.dispatch(&mut cpu);
    assert_eq!(sent.len(), 2);
    assert_eq!(cpu, 70);
    assert_eq!(m.available_workers.len(), 2);
    assert_eq!(m.cpu_queue.len(), 1);
}

#[test]
fn manager_statistics() {
    let mut m = Manager::new(Policy::Fifo);
    m.record_completion(&CompletedTask {
        worker_id: 0,
        task_id: 0,
        kind: TaskKind::CPU,
        wait_ms: 30,
        turnaround_ms: 230,
    });
    m.record_completion(&CompletedTask {
        worker_id: 1,
        task_id: 1,
        kind: TaskKind::IO,
        wait_ms: 10,
        turnaround_ms: 210,
    });
    assert_eq!(m.completed_tasks, 2);
    assert_eq!(m.cpu_completed, 1);
    assert_eq!(m.io_completed, 1);
    assert_eq!(m.total_wait_ms, 40);
    assert_eq!(m.total_turnaround_ms, 440);
    assert_eq!(m.max_wait_ms, 30);
}

#[test]
fn manager_finishes_after_all_tasks() {
    let mut m = Manager::new(Policy::Optimized);
    let done = CompletedTask { worker_id: 0, task_id: 0, kind: TaskKind::IO, wait_ms: 0, turnaround_ms: 200 };
    for _ in 0..999 {
        m.record_completion(&done);
    }
    m.mark_generator_done();
    assert!(!m.is_finished());
    m.record_completion(&done);
    assert!(m.is_finished());
    let mut n = Manager::new(Policy::Fifo);
    for _ in 0..1000 {
        n.record_completion(&done);
    }
    assert!(!n.is_finished());
}

#[test]
fn reserved_share_returns_after_all_release() {
    let mut all = VecDeque::new();
    let mut io = queue(&[TaskKind::IO; 5], 0);
    let mut cq = queue(&[TaskKind::CPU; 5], 10);
    let mut w = workers(8);
    let mut cpu = 20u32;
    let sent = dispatch_ready_tasks(Policy::Optimized, &mut all, &mut io, &mut cq, &mut w, &mut cpu);
    assert!(!sent.is_empty());
    for (_, t) in sent.iter().rev() {
        cpu = lib::task::release_cpu(cpu, t.kind);
    }
    assert_eq!(cpu, 20);
}
