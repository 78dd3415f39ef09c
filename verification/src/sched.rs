//! Cooperative scheduler: a fixed pool of stack-bearing execution contexts
//! ("threads") plus the implicit scheduler context, round-robined by
//! explicit context switches.
//!
//! The hand-rolled save/restore of the machine registers is the narrow
//! architecture boundary of the whole kernel; here it is modelled as a
//! verified exchange between a thread's saved context and the live [`Cpu`],
//! so that the switch protocol itself — what is saved, what is restored,
//! and that a round trip resumes a context exactly where it yielded — is
//! proved rather than assumed. A host backend can substitute real
//! stack-switching mechanics behind the same interface.

use crate::cpu::Cpu;
use crate::cpu::ProcessorState;
use vstd::prelude::*;

verus! {

/// Number of pool slots; a ninth thread is a programmer error.
pub const POOL_SIZE: usize = 8;

/// Model address of the trampoline that a fresh thread's first switch-in
/// enters; it calls the thread's entry function with the arguments that
/// `initial_context` plants in the argument registers.
pub const THREAD_START: usize = 0x1000;

/// A suspended context: the registers to restore and where to resume.
/// It lives in the suspended thread's own stack in the running system and
/// exists only while the thread is not executing.
#[derive(Copy, Clone, PartialEq, Eq, Structural, Debug)]
pub struct ThreadState {
    pub regs: ProcessorState,
    pub rip: usize,
}

/// One cooperative execution context: an identity plus the saved context,
/// which is present exactly while the thread is not running (`None` both
/// before `prepare` and while it executes).
#[derive(Copy, Clone, Debug)]
pub struct Thread {
    pub id: usize,
    pub name: &'static str,
    pub saved_context: Option<ThreadState>,
}

/// The synthetic first context of a thread: resume at the trampoline with
/// the entry function, both switch parties and the argument in the
/// argument registers, and no stack yet.
pub open spec fn initial_context(entry: usize, prev_id: usize, this_id: usize, arg: usize) -> ThreadState {
    ThreadState {
        regs: ProcessorState {
            rdi: entry,
            rsi: prev_id,
            rdx: this_id,
            rcx: arg,
            ..ProcessorState::zeroed()
        },
        rip: THREAD_START,
    }
}

/// What one context switch does: the live registers and resume point move
/// into `current`'s save slot, `next`'s saved context becomes live and its
/// slot is cleared to mark it running. The code segment and the interrupt
/// flag are not part of the exchange.
pub open spec fn switch_transition(current: Thread, next: Thread, cpu: Cpu) -> (Thread, Thread, Cpu) {
    (
        Thread {
            saved_context: Some(ThreadState { regs: cpu.regs, rip: cpu.rip }),
            ..current
        },
        Thread { saved_context: None, ..next },
        Cpu {
            regs: next.saved_context.unwrap().regs,
            rip: next.saved_context.unwrap().rip,
            ..cpu
        },
    )
}

impl Thread {
    /// A thread that has never been prepared or run.
    pub fn new(id: usize, name: &'static str) -> (t: Thread)
        ensures
            t.id == id,
            t.name == name,
            t.saved_context is None,
    {
        Thread { id, name, saved_context: None }
    }

    /// Plants the synthetic initial context so that the first switch into
    /// this thread enters the trampoline, which calls the entry function
    /// with a yield handle bound to `prev` and this thread, and `arg`.
    pub fn prepare(&mut self, prev: &Thread, entry: usize, arg: usize)
        ensures
            final(self).id == old(self).id,
            final(self).name == old(self).name,
            final(self).saved_context == Some(
                initial_context(entry, prev.id, old(self).id, arg),
            ),
    {
        let mut regs = ProcessorState::default();
        regs.rdi = entry;
        regs.rsi = prev.id;
        regs.rdx = self.id;
        regs.rcx = arg;
        self.saved_context = Some(ThreadState { regs, rip: THREAD_START });
    }

    /// Suspends this (running) thread and resumes `next`: the live context
    /// moves into this thread's save slot, `next`'s saved context becomes
    /// live, and `next` is marked running.
    pub fn switch_to(&mut self, next: &mut Thread, cpu: &mut Cpu)
        requires
            old(next).saved_context is Some,
        ensures
            (*final(self), *final(next), *final(cpu)) == switch_transition(
                *old(self),
                *old(next),
                *old(cpu),
            ),
    {
        self.saved_context = Some(ThreadState { regs: cpu.regs, rip: cpu.rip });
        let target = next.saved_context.unwrap();
        next.saved_context = None;
        cpu.regs = target.regs;
        cpu.rip = target.rip;
    }
}

/// The yield capability handed to a thread's entry function: it names the
/// two parties of the only switch the thread may perform, back to the
/// context that resumed it.
pub struct ThreadContext {
    pub prev_id: usize,
    pub this_id: usize,
}

impl ThreadContext {
    /// Yields: suspends the running thread `this` and resumes `prev`, the
    /// context that switched into it.
    pub fn yield_to(&self, this: &mut Thread, prev: &mut Thread, cpu: &mut Cpu)
        requires
            old(this).id == self.this_id,
            old(prev).id == self.prev_id,
            old(prev).saved_context is Some,
        ensures
            (*final(this), *final(prev), *final(cpu)) == switch_transition(
                *old(this),
                *old(prev),
                *old(cpu),
            ),
    {
        this.switch_to(prev, cpu);
    }
}

/// Context-switch round trip: after switching away from a running context
/// and later switching back, the resumed context sees every general-purpose
/// register and the resume point exactly as they were when it was
/// suspended, whatever the machine did in between (`mid`), and it is marked
/// running again.
pub proof fn lemma_switch_round_trip(a: Thread, b: Thread, cpu: Cpu, mid: Cpu)
    requires
        b.saved_context is Some,
    ensures
        ({
            let (a1, b1, cpu1) = switch_transition(a, b, cpu);
            let (b2, a2, cpu2) = switch_transition(b1, a1, mid);
            &&& cpu2.regs == cpu.regs
            &&& cpu2.rip == cpu.rip
            &&& a2.saved_context is None
            &&& a2.id == a.id && a2.name == a.name
            &&& b2.id == b.id && b2.name == b.name
        }),
{
}

/// The fixed thread pool plus the implicit scheduler context that
/// represents the original flow of control. Slots fill monotonically and
/// are never vacated.
pub struct Scheduler {
    pub scheduler_thread: Thread,
    pub threads: Vec<Thread>,
}

impl Scheduler {
    /// The pool is within bounds, the scheduler context is running (no
    /// saved context), every pool member is suspended with a context to
    /// resume, and identities follow creation order.
    pub open spec fn wf(&self) -> bool {
        &&& self.threads@.len() <= POOL_SIZE
        &&& self.scheduler_thread.id == 1
        &&& self.scheduler_thread.saved_context is None
        &&& forall|i: int|
            0 <= i < self.threads@.len() ==> (#[trigger] self.threads@[i]).saved_context is Some
        &&& forall|i: int| 0 <= i < self.threads@.len() ==> (#[trigger] self.threads@[i]).id == i + 2
    }

    /// An empty pool behind the implicit scheduler context.
    pub fn new() -> (s: Scheduler)
        ensures
            s.wf(),
            s.threads@.len() == 0,
    {
        Scheduler { scheduler_thread: Thread::new(1, "main"), threads: Vec::new() }
    }

    /// Occupies the next pool slot with a prepared thread and returns its
    /// identity. Exhausting the pool is a programmer error, excluded here
    /// rather than reported.
    pub fn create_thread(&mut self, name: &'static str, entry: usize, arg: usize) -> (new_id: usize)
        requires
            old(self).wf(),
            old(self).threads@.len() < POOL_SIZE,
        ensures
            final(self).wf(),
            new_id == old(self).threads@.len() + 2,
            final(self).scheduler_thread == old(self).scheduler_thread,
            final(self).threads@ == old(self).threads@.push(
                Thread {
                    id: new_id,
                    name: name,
                    saved_context: Some(initial_context(entry, 1, new_id, arg)),
                },
            ),
    {
        let new_id = self.threads.len() + 2;
        let mut t = Thread::new(new_id, name);
        t.prepare(&self.scheduler_thread, entry, arg);
        self.threads.push(t);
        new_id
    }

    /// One full round-robin sweep: switches into every pool member once, in
    /// creation order, each turn being a switch in and the thread's yield
    /// back. Returns the identities in the order they ran; the pool, the
    /// scheduler context and the live machine context come back exactly as
    /// they were, by the round-trip property of the switch. The running
    /// system repeats this sweep forever, halting until the next interrupt
    /// between sweeps.
    pub fn sweep(&mut self, cpu: &mut Cpu) -> (order: Vec<usize>)
        requires
            old(self).wf(),
        ensures
            final(self).scheduler_thread == old(self).scheduler_thread,
            final(self).threads@ == old(self).threads@,
            final(self).wf(),
            *final(cpu) == *old(cpu),
            order@ == Seq::new(old(self).threads@.len(), |i: int| old(self).threads@[i].id),
    {
        let ghost orig = *self;
        let ghost orig_cpu = *cpu;
        let mut order: Vec<usize> = Vec::new();
        let n = self.threads.len();
        let mut i: usize = 0;
        while i < n
            invariant
                i <= n,
                n == orig.threads@.len(),
                orig.wf(),
                self.scheduler_thread == orig.scheduler_thread,
                self.threads@ == orig.threads@,
                *cpu == orig_cpu,
                order@ == Seq::new(i as nat, |j: int| orig.threads@[j].id),
            decreases n - i,
        {
            let mut t = self.threads.remove(i);
            self.scheduler_thread.switch_to(&mut t, cpu);
            t.switch_to(&mut self.scheduler_thread, cpu);
            order.push(t.id);
            self.threads.insert(i, t);
            proof {
                assert(self.threads@ =~= orig.threads@);
                assert(*cpu == orig_cpu);
                assert(order@ =~= Seq::new((i + 1) as nat, |j: int| orig.threads@[j].id));
            }
            i = i + 1;
        }
        order
    }
}

} // verus!
