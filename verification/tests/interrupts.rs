use kernel_core::cpu::Cpu;
use kernel_core::cpu::InterruptFlag;
use kernel_core::cpu::ProcessorState;
use kernel_core::interrupts::deliver;
use kernel_core::interrupts::interrupt_entry;
use kernel_core::interrupts::interrupt_return;
use kernel_core::interrupts::Idt;
use kernel_core::interrupts::IdtEntry;
use kernel_core::interrupts::FLAGS_IF;

fn running_cpu(enabled: bool) -> Cpu {
    let mut regs = ProcessorState::default();
    regs.rax = 0xAAAA;
    regs.rbp = 0xBBBB;
    regs.r12 = 0xCCCC;
    Cpu { regs, rip: 0x1234, cs: 0x8, intr: InterruptFlag { enabled } }
}

#[test]
fn fresh_table_dispatches_nothing() {
    let idt = Idt::new();
    assert_eq!(None, idt.dispatch(0));
    assert_eq!(None, idt.dispatch(32));
    assert_eq!(None, idt.dispatch(255));
}

#[test]
fn installed_handler_is_dispatched_only_for_its_vector() {
    let mut idt = Idt::new();
    idt.set_handler(33, IdtEntry::new(0xBEEF, 0x8, 0));
    assert_eq!(Some(0xBEEF), idt.dispatch(33));
    assert_eq!(None, idt.dispatch(32));
    assert_eq!(None, idt.dispatch(34));
    idt.set_handler(36, IdtEntry::new(0xCAFE, 0x8, 0));
    assert_eq!(Some(0xCAFE), idt.dispatch(36));
    assert_eq!(Some(0xBEEF), idt.dispatch(33));
}

#[test]
fn trap_frame_snapshots_the_interrupted_context() {
    let mut cpu = running_cpu(true);
    let before = cpu;
    let frame = interrupt_entry(&mut cpu, 0xAB);

    assert_eq!(frame.regs, before.regs);
    assert_eq!(frame.rip, before.rip);
    assert_eq!(frame.cs, before.cs);
    assert_eq!(frame.flags, FLAGS_IF);
    // the handler body starts with delivery suspended
    assert!(!cpu.intr.enabled);
    assert_eq!(cpu.rip, 0xAB);
    assert_eq!(cpu.regs, before.regs);
}

#[test]
fn return_from_interrupt_resumes_exactly() {
    let mut cpu = running_cpu(true);
    let before = cpu;
    let frame = interrupt_entry(&mut cpu, 0xAB);

    // handler work clobbers the live context
    cpu.regs.rax = 1;
    cpu.regs.rbp = 2;
    cpu.rip = 0x9999;

    interrupt_return(&frame, &mut cpu);
    assert_eq!(cpu, before);
}

#[test]
fn return_keeps_interrupts_off_when_they_were_off() {
    let mut cpu = running_cpu(false);
    let before = cpu;
    let frame = interrupt_entry(&mut cpu, 0xAB);
    assert_eq!(frame.flags, 0);
    interrupt_return(&frame, &mut cpu);
    assert_eq!(cpu, before);
    assert!(!cpu.intr.enabled);
}

#[test]
fn deliver_ignores_vectors_without_a_handler() {
    let idt = Idt::new();
    let mut cpu = running_cpu(true);
    let before = cpu;
    assert!(deliver(&idt, 40, &mut cpu).is_none());
    assert_eq!(cpu, before);
}

#[test]
fn deliver_enters_the_installed_handler() {
    let mut idt = Idt::new();
    idt.set_handler(32, IdtEntry::new(0x4444, 0x8, 0));
    let mut cpu = running_cpu(true);
    let before = cpu;

    let frame = deliver(&idt, 32, &mut cpu).unwrap();
    assert_eq!(cpu.rip, 0x4444);
    assert!(!cpu.intr.enabled);

    interrupt_return(&frame, &mut cpu);
    assert_eq!(cpu, before);
}

#[test]
fn enable_and_disable_toggle_delivery() {
    let idt = Idt::new();
    let mut flag = InterruptFlag { enabled: false };
    idt.enable_interrupts(&mut flag);
    assert!(flag.enabled);
    idt.disable_interrupts(&mut flag);
    assert!(!flag.enabled);
}
