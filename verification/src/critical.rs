//! Critical-section guard: scoped suppression of hardware interrupt
//! delivery around access to state that an interrupt handler shares with
//! polling code.
//!
//! Entering records whether delivery was enabled and turns it off; leaving
//! re-enables it only if this guard was the one that turned it off, so a
//! section opened while delivery is already off never re-enables it. The
//! guard only makes the access reentrancy-safe against handlers on the same
//! core; exclusive access itself is Rust's exclusive borrow in this model.

use crate::cpu::InterruptFlag;
use crate::cpu::irq_restore;
use crate::cpu::irq_save;
use vstd::prelude::*;

verus! {

/// The interrupt-enable flag while a critical section is open: delivery is
/// always suspended, whatever it was before.
pub open spec fn flag_after_enter(prior: bool) -> bool {
    false
}

/// What entering records: whether exit must re-enable delivery, which is
/// exactly whether it was enabled before.
pub open spec fn saved_on_enter(prior: bool) -> bool {
    prior
}

/// The flag after a guard that recorded `saved` exits over a flag currently
/// reading `current`: exit only ever turns delivery back on, never off.
pub open spec fn flag_after_exit(saved: bool, current: bool) -> bool {
    saved || current
}

/// A value shared between interrupt handlers and polling code; it is only
/// reachable through a critical section.
pub struct InterruptData<T> {
    data: T,
}

impl<T> View for InterruptData<T> {
    type V = T;

    closed spec fn view(&self) -> T {
        self.data
    }
}

impl<T> InterruptData<T> {
    /// Wraps `data` for guarded sharing.
    pub fn new(data: T) -> (r: InterruptData<T>)
        ensures
            r@ == data,
    {
        InterruptData { data }
    }

    /// Opens a critical section: suspends interrupt delivery, records
    /// whether it was enabled, and hands out read access to the data for
    /// the guard's lifetime.
    pub fn enter<'a>(&'a self, intr: &mut InterruptFlag) -> (guard: InterruptDataGuard<'a, T>)
        ensures
            final(intr).enabled == flag_after_enter(old(intr).enabled),
            guard.must_reenable() == saved_on_enter(old(intr).enabled),
            guard@ == self@,
    {
        let was_enabled = irq_save(intr);
        InterruptDataGuard { should_enable: was_enabled, inner: &self.data }
    }

    /// Exclusive access for the owning driver; the caller brackets the use
    /// with `irq_save` and `irq_restore` exactly as `enter`/`exit` do.
    pub fn data_mut(&mut self) -> (r: &mut T)
        ensures
            *r == old(self)@,
            final(self)@ == *final(r),
    {
        &mut self.data
    }
}

/// An open critical section: borrows the protected value and remembers
/// whether interrupt delivery must be re-enabled when it closes. It cannot
/// be copied and cannot outlive the data it borrows.
pub struct InterruptDataGuard<'a, T> {
    should_enable: bool,
    inner: &'a T,
}

impl<'a, T> View for InterruptDataGuard<'a, T> {
    type V = T;

    closed spec fn view(&self) -> T {
        *self.inner
    }
}

impl<'a, T> InterruptDataGuard<'a, T> {
    /// Whether closing this section will re-enable interrupt delivery.
    pub closed spec fn must_reenable(&self) -> bool {
        self.should_enable
    }

    /// Read access to the protected value.
    pub fn get(&self) -> (r: &T)
        ensures
            *r == self@,
    {
        self.inner
    }

    /// Closes the section: re-enables interrupt delivery exactly when this
    /// guard was the one that suspended it.
    pub fn exit(self, intr: &mut InterruptFlag)
        ensures
            final(intr).enabled == flag_after_exit(self.must_reenable(), old(intr).enabled),
    {
        irq_restore(self.should_enable, intr);
    }
}

/// One critical section restores the flag exactly: entering suspends
/// delivery whatever `prior` was, and exiting brings the flag back to
/// `prior` — re-enabled once when it was enabled, still disabled when it
/// was not.
pub proof fn lemma_critical_section_restores(prior: bool)
    ensures
        flag_after_enter(prior) == false,
        flag_after_exit(saved_on_enter(prior), flag_after_enter(prior)) == prior,
{
}

/// Nested critical sections never leave delivery wrongly set: the inner
/// section opens over a suspended flag, so it records nothing to undo and
/// its exit keeps delivery off; the outer exit alone restores `prior`.
pub proof fn lemma_critical_section_nested(prior: bool)
    ensures
        ({
            let off_once = flag_after_enter(prior);
            let off_twice = flag_after_enter(off_once);
            let after_inner = flag_after_exit(saved_on_enter(off_once), off_twice);
            &&& after_inner == false
            &&& flag_after_exit(saved_on_enter(prior), after_inner) == prior
        }),
{
}

} // verus!
