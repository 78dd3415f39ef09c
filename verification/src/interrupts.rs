//! Interrupt dispatch: the 256-entry vector table that binds vector
//! numbers to handler addresses, and the entry/exit protocol that snapshots
//! the interrupted context into a trap frame, runs the handler with
//! delivery suspended, and resumes the interrupted context exactly.
//!
//! Unset table entries are a sentinel that is never invoked: `dispatch`
//! returns a handler only for a present entry. On return from a handler the
//! pre-interrupt interrupt-enable state is restored atomically with the
//! return step, from the flags word saved in the trap frame.

use crate::cpu::Cpu;
use crate::cpu::InterruptFlag;
use crate::cpu::ProcessorState;
use vstd::prelude::*;

verus! {

/// The interrupt-enable bit of the flags word.
pub const FLAGS_IF: usize = 0x200;

/// Number of vectors the table binds.
pub const VECTOR_COUNT: usize = 256;

/// Trap frame: the snapshot of the interrupted context that the entry stub
/// stores on that context's own stack. It exists only for the duration of
/// one handler invocation; the return step consumes it.
#[derive(Copy, Clone, PartialEq, Eq, Structural, Debug)]
pub struct InterruptState {
    pub regs: ProcessorState,
    pub rip: usize,
    pub cs: usize,
    pub flags: usize,
}

/// Whether a flags word has the interrupt-enable bit set.
pub open spec fn spec_if_set(flags: usize) -> bool {
    flags & FLAGS_IF == FLAGS_IF
}

/// The flags word the entry stub records for a given enable state.
pub open spec fn flags_word(enabled: bool) -> usize {
    if enabled {
        FLAGS_IF
    } else {
        0
    }
}

/// The saved flags word decodes back to exactly the enable state it
/// recorded.
pub proof fn lemma_flags_encode(enabled: bool)
    ensures
        spec_if_set(flags_word(enabled)) == enabled,
{
    assert((0x200usize & 0x200usize) == 0x200usize) by (bit_vector);
    assert((0usize & 0x200usize) == 0usize) by (bit_vector);
}

/// One vector table entry: a handler address, its code-segment selector
/// and privilege level, and whether the entry is present at all.
#[derive(Copy, Clone, PartialEq, Eq, Structural, Debug)]
pub struct IdtEntry {
    pub present: bool,
    pub handler: usize,
    pub selector: u16,
    pub privilege: u8,
}

impl IdtEntry {
    /// The sentinel for a vector with no handler installed; it is never
    /// invoked.
    pub fn missing() -> (e: IdtEntry)
        ensures
            !e.present,
    {
        IdtEntry { present: false, handler: 0, selector: 0, privilege: 0 }
    }

    /// A present entry binding `handler` under the given code-segment
    /// selector and privilege level.
    pub fn new(handler: usize, selector: u16, privilege: u8) -> (e: IdtEntry)
        requires
            privilege <= 3,
        ensures
            e.present,
            e.handler == handler,
            e.selector == selector,
            e.privilege == privilege,
    {
        IdtEntry { present: true, handler, selector, privilege }
    }
}

/// The vector table: one entry per vector, installed once during start-up
/// and then only read.
pub struct Idt {
    entries: Vec<IdtEntry>,
}

impl View for Idt {
    type V = Seq<IdtEntry>;

    closed spec fn view(&self) -> Seq<IdtEntry> {
        self.entries@
    }
}

impl Idt {
    /// Exactly one entry per vector.
    pub open spec fn wf(&self) -> bool {
        self@.len() == VECTOR_COUNT
    }

    /// A table with every vector unset.
    pub fn new() -> (t: Idt)
        ensures
            t.wf(),
            forall|v: int| 0 <= v < VECTOR_COUNT ==> !(#[trigger] t@[v]).present,
    {
        let mut entries: Vec<IdtEntry> = Vec::new();
        let mut i: usize = 0;
        while i < VECTOR_COUNT
            invariant
                entries@.len() == i,
                i <= VECTOR_COUNT,
                forall|v: int| 0 <= v < i ==> !(#[trigger] entries@[v]).present,
            decreases VECTOR_COUNT - i,
        {
            entries.push(IdtEntry::missing());
            i = i + 1;
        }
        Idt { entries }
    }

    /// Installs `entry` as the descriptor of vector `index`; all other
    /// entries are untouched, so installs never corrupt a neighbour.
    pub fn set_handler(&mut self, index: usize, entry: IdtEntry)
        requires
            old(self).wf(),
            index < VECTOR_COUNT,
        ensures
            final(self).wf(),
            final(self)@ == old(self)@.update(index as int, entry),
    {
        self.entries[index] = entry;
    }

    /// The handler bound to `vector`: its address when the entry is
    /// present, and nothing for the missing sentinel, which is never
    /// invoked.
    pub fn dispatch(&self, vector: u8) -> (r: Option<usize>)
        requires
            self.wf(),
        ensures
            r is Some <==> self@[vector as int].present,
            r is Some ==> r.unwrap() == self@[vector as int].handler,
    {
        let e = self.entries[vector as usize];
        if e.present {
            Some(e.handler)
        } else {
            None
        }
    }

    /// Turns global hardware interrupt delivery on.
    pub fn enable_interrupts(&self, intr: &mut InterruptFlag)
        ensures
            final(intr).enabled,
    {
        intr.enabled = true;
    }

    /// Turns global hardware interrupt delivery off.
    pub fn disable_interrupts(&self, intr: &mut InterruptFlag)
        ensures
            !final(intr).enabled,
    {
        intr.enabled = false;
    }
}

/// What interrupt entry does to the machine: the trap frame snapshots the
/// interrupted context with its enable state, and the handler body starts
/// with delivery suspended and the registers still those of the
/// interrupted context.
pub open spec fn entry_transition(cpu: Cpu, handler: usize) -> (InterruptState, Cpu) {
    (
        InterruptState {
            regs: cpu.regs,
            rip: cpu.rip,
            cs: cpu.cs,
            flags: flags_word(cpu.intr.enabled),
        },
        Cpu { rip: handler, intr: InterruptFlag { enabled: false }, ..cpu },
    )
}

/// What return-from-interrupt does: every saved register, the resume
/// point, the code segment, and the interrupt-enable state come back from
/// the frame, the last atomically with the return step itself.
pub open spec fn return_transition(frame: InterruptState) -> Cpu {
    Cpu {
        regs: frame.regs,
        rip: frame.rip,
        cs: frame.cs,
        intr: InterruptFlag { enabled: spec_if_set(frame.flags) },
    }
}

/// Interrupt entry: captures the trap frame, suspends further delivery
/// before the handler body runs, and moves control to `handler`.
pub fn interrupt_entry(cpu: &mut Cpu, handler: usize) -> (frame: InterruptState)
    ensures
        (frame, *final(cpu)) == entry_transition(*old(cpu), handler),
{
    let frame = InterruptState {
        regs: cpu.regs,
        rip: cpu.rip,
        cs: cpu.cs,
        flags: if cpu.intr.enabled {
            FLAGS_IF
        } else {
            0
        },
    };
    cpu.intr.enabled = false;
    cpu.rip = handler;
    frame
}

/// Return from interrupt: restores the interrupted context from the trap
/// frame, after which the frame is dead.
pub fn interrupt_return(frame: &InterruptState, cpu: &mut Cpu)
    ensures
        *final(cpu) == return_transition(*frame),
{
    cpu.regs = frame.regs;
    cpu.rip = frame.rip;
    cpu.cs = frame.cs;
    cpu.intr.enabled = (frame.flags & FLAGS_IF) == FLAGS_IF;
}

/// Delivers `vector` through the table: nothing happens without a present
/// entry; with one, the trap frame snapshots the interrupted context and
/// the handler starts with delivery suspended.
pub fn deliver(idt: &Idt, vector: u8, cpu: &mut Cpu) -> (frame: Option<InterruptState>)
    requires
        idt.wf(),
    ensures
        frame is Some <==> idt@[vector as int].present,
        !idt@[vector as int].present ==> *final(cpu) == *old(cpu),
        idt@[vector as int].present ==> (frame.unwrap(), *final(cpu)) == entry_transition(
            *old(cpu),
            idt@[vector as int].handler,
        ),
{
    match idt.dispatch(vector) {
        Some(handler) => Some(interrupt_entry(cpu, handler)),
        None => None,
    }
}

/// Trampoline round trip: a handler that leaves its trap frame unchanged
/// resumes the interrupted context exactly — registers, resume point, code
/// segment and interrupt-enable state — whatever it did to the live
/// machine in between.
pub proof fn lemma_interrupt_round_trip(cpu: Cpu, handler: usize)
    ensures
        ({
            let (frame, entered) = entry_transition(cpu, handler);
            &&& !entered.intr.enabled
            &&& return_transition(frame) == cpu
        }),
{
    lemma_flags_encode(cpu.intr.enabled);
}

} // verus!
