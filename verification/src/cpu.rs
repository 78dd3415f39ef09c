//! Model of the processor state the kernel core reasons about: the
//! general-purpose register file, the interrupt-enable flag, and the live
//! machine context that interrupt entry and context switches save and
//! restore. A host backend supplies the real machine; every decision over
//! this state is made by verified code.

use vstd::prelude::*;

verus! {

/// The hardware interrupt-enable flag of the single core, as a value that
/// is passed explicitly to everything that reads or toggles it.
#[derive(Copy, Clone, PartialEq, Eq, Structural, Debug)]
pub struct InterruptFlag {
    pub enabled: bool,
}

/// A snapshot of the general-purpose registers, each as one machine word.
#[derive(Copy, Clone, PartialEq, Eq, Structural, Debug)]
pub struct ProcessorState {
    pub rsp: usize,
    pub rax: usize,
    pub rbx: usize,
    pub rcx: usize,
    pub rdx: usize,
    pub rdi: usize,
    pub rsi: usize,
    pub r8: usize,
    pub r9: usize,
    pub r10: usize,
    pub r11: usize,
    pub r12: usize,
    pub r13: usize,
    pub r14: usize,
    pub r15: usize,
    pub rbp: usize,
}

impl Default for ProcessorState {
    /// All registers zero.
    fn default() -> (r: ProcessorState)
        ensures
            r == ProcessorState::zeroed(),
    {
        ProcessorState {
            rsp: 0,
            rax: 0,
            rbx: 0,
            rcx: 0,
            rdx: 0,
            rdi: 0,
            rsi: 0,
            r8: 0,
            r9: 0,
            r10: 0,
            r11: 0,
            r12: 0,
            r13: 0,
            r14: 0,
            r15: 0,
            rbp: 0,
        }
    }
}

impl ProcessorState {
    /// The register file with every register zero.
    pub open spec fn zeroed() -> ProcessorState {
        ProcessorState {
            rsp: 0,
            rax: 0,
            rbx: 0,
            rcx: 0,
            rdx: 0,
            rdi: 0,
            rsi: 0,
            r8: 0,
            r9: 0,
            r10: 0,
            r11: 0,
            r12: 0,
            r13: 0,
            r14: 0,
            r15: 0,
            rbp: 0,
        }
    }
}

/// The live register context of the core: what interrupt entry snapshots
/// and what a context switch exchanges.
#[derive(Copy, Clone, PartialEq, Eq, Structural, Debug)]
pub struct Cpu {
    pub regs: ProcessorState,
    pub rip: usize,
    pub cs: usize,
    pub intr: InterruptFlag,
}

/// Reads and clears the interrupt-enable flag, reporting whether it was
/// set; the model of saving the flags word and then suppressing delivery.
pub fn irq_save(intr: &mut InterruptFlag) -> (was_enabled: bool)
    ensures
        !final(intr).enabled,
        was_enabled == old(intr).enabled,
{
    let was_enabled = intr.enabled;
    intr.enabled = false;
    was_enabled
}

/// Re-enables interrupt delivery exactly when `was_enabled` recorded that
/// it was on; an already-enabled flag is never turned off here.
pub fn irq_restore(was_enabled: bool, intr: &mut InterruptFlag)
    ensures
        final(intr).enabled == (was_enabled || old(intr).enabled),
{
    if was_enabled {
        intr.enabled = true;
    }
}

} // verus!
