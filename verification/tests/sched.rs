use kernel_core::cpu::Cpu;
use kernel_core::cpu::InterruptFlag;
use kernel_core::cpu::ProcessorState;
use kernel_core::sched::Scheduler;
use kernel_core::sched::Thread;
use kernel_core::sched::ThreadContext;
use kernel_core::sched::THREAD_START;

fn distinctive_cpu() -> Cpu {
    let mut regs = ProcessorState::default();
    regs.rsp = 0x1111;
    regs.rax = 0x2222;
    regs.rbx = 0x3333;
    regs.r15 = 0x4444;
    Cpu { regs, rip: 0x7777, cs: 0x8, intr: InterruptFlag { enabled: true } }
}

#[test]
fn switch_round_trip_restores_every_register() {
    let mut a = Thread::new(1, "main");
    let mut b = Thread::new(2, "worker");
    b.prepare(&a, 0x4000, 7);
    let mut cpu = distinctive_cpu();
    let before = cpu;

    a.switch_to(&mut b, &mut cpu);
    // b starts at the trampoline with the planted arguments
    assert_eq!(cpu.rip, THREAD_START);
    assert_eq!(cpu.regs.rdi, 0x4000);
    assert_eq!(cpu.regs.rsi, 1);
    assert_eq!(cpu.regs.rdx, 2);
    assert_eq!(cpu.regs.rcx, 7);
    assert!(b.saved_context.is_none());
    assert!(a.saved_context.is_some());

    // whatever b does to the machine before yielding back
    cpu.regs.rax = 999;
    cpu.regs.r15 = 123;
    cpu.rip = 0x5000;

    b.switch_to(&mut a, &mut cpu);
    assert_eq!(cpu.regs, before.regs);
    assert_eq!(cpu.rip, before.rip);
    assert_eq!(cpu.cs, before.cs);
    assert!(a.saved_context.is_none());
    assert!(b.saved_context.is_some());
}

#[test]
fn yield_to_switches_back_to_the_scheduler() {
    let mut sched = Thread::new(1, "main");
    let mut worker = Thread::new(2, "worker");
    worker.prepare(&sched, 0x4000, 0);
    let mut cpu = distinctive_cpu();
    let before = cpu;

    sched.switch_to(&mut worker, &mut cpu);
    let handle = ThreadContext { prev_id: 1, this_id: 2 };
    handle.yield_to(&mut worker, &mut sched, &mut cpu);

    assert_eq!(cpu.regs, before.regs);
    assert_eq!(cpu.rip, before.rip);
    assert!(sched.saved_context.is_none());
    assert!(worker.saved_context.is_some());
}

#[test]
fn sweep_runs_every_thread_once_in_creation_order() {
    let mut s = Scheduler::new();
    assert_eq!(2, s.create_thread("echo", 0x10, 0));
    assert_eq!(3, s.create_thread("clock", 0x20, 0));
    assert_eq!(4, s.create_thread("keyboard", 0x30, 0));

    let mut cpu = distinctive_cpu();
    let before = cpu;
    let saved_before: Vec<_> = s.threads.iter().map(|t| t.saved_context).collect();

    let order = s.sweep(&mut cpu);

    assert_eq!(order, vec![2, 3, 4]);
    assert_eq!(cpu, before);
    assert!(s.scheduler_thread.saved_context.is_none());
    let saved_after: Vec<_> = s.threads.iter().map(|t| t.saved_context).collect();
    assert_eq!(saved_before, saved_after);
}

#[test]
fn sweep_of_an_empty_pool_does_nothing() {
    let mut s = Scheduler::new();
    let mut cpu = distinctive_cpu();
    let before = cpu;
    let order = s.sweep(&mut cpu);
    assert!(order.is_empty());
    assert_eq!(cpu, before);
}

#[test]
fn created_threads_get_sequential_identities() {
    let mut s = Scheduler::new();
    assert_eq!(1, s.scheduler_thread.id);
    for n in 0..8 {
        let id = s.create_thread("t", 0x10, n);
        assert_eq!(n + 2, id);
    }
    assert_eq!(8, s.threads.len());
    for (i, t) in s.threads.iter().enumerate() {
        assert_eq!(i + 2, t.id);
        assert!(t.saved_context.is_some());
    }
}
