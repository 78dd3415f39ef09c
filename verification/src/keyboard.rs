//! PS/2 keyboard driver state: decodes scan-code set 1 make codes into
//! characters and queues them for the polling thread, tracking the shift
//! keys. The port read itself happens at the hardware edge; the handler
//! body here takes the byte that was read.

use crate::cpu::InterruptFlag;
use crate::cpu::irq_restore;
use crate::cpu::irq_save;
use crate::critical::InterruptData;
use crate::queue::QUEUE_CAPACITY;
use crate::queue::Queue;
use vstd::prelude::*;

verus! {

/// A raw byte read from the PS/2 controller's data port.
#[derive(Copy, Clone, Debug)]
pub struct ScanCode(pub u8);

/// Decode of a make code in PS/2 scan-code set 1 to the character it
/// produces under the given shift state; `None` for anything that is not a
/// printable make code. Only letters change under shift.
pub open spec fn spec_decode(code: u8, shifted: bool) -> Option<char> {
    match code {
        0x1e => Some(if shifted { 'A' } else { 'a' }),
        0x30 => Some(if shifted { 'B' } else { 'b' }),
        0x2e => Some(if shifted { 'C' } else { 'c' }),
        0x20 => Some(if shifted { 'D' } else { 'd' }),
        0x12 => Some(if shifted { 'E' } else { 'e' }),
        0x21 => Some(if shifted { 'F' } else { 'f' }),
        0x22 => Some(if shifted { 'G' } else { 'g' }),
        0x23 => Some(if shifted { 'H' } else { 'h' }),
        0x17 => Some(if shifted { 'I' } else { 'i' }),
        0x24 => Some(if shifted { 'J' } else { 'j' }),
        0x25 => Some(if shifted { 'K' } else { 'k' }),
        0x26 => Some(if shifted { 'L' } else { 'l' }),
        0x32 => Some(if shifted { 'M' } else { 'm' }),
        0x31 => Some(if shifted { 'N' } else { 'n' }),
        0x18 => Some(if shifted { 'O' } else { 'o' }),
        0x19 => Some(if shifted { 'P' } else { 'p' }),
        0x10 => Some(if shifted { 'Q' } else { 'q' }),
        0x13 => Some(if shifted { 'R' } else { 'r' }),
        0x1f => Some(if shifted { 'S' } else { 's' }),
        0x14 => Some(if shifted { 'T' } else { 't' }),
        0x16 => Some(if shifted { 'U' } else { 'u' }),
        0x2f => Some(if shifted { 'V' } else { 'v' }),
        0x11 => Some(if shifted { 'W' } else { 'w' }),
        0x2d => Some(if shifted { 'X' } else { 'x' }),
        0x15 => Some(if shifted { 'Y' } else { 'y' }),
        0x2c => Some(if shifted { 'Z' } else { 'z' }),
        0x0b => Some('0'),
        0x02 => Some('1'),
        0x03 => Some('2'),
        0x04 => Some('3'),
        0x05 => Some('4'),
        0x06 => Some('5'),
        0x07 => Some('6'),
        0x08 => Some('7'),
        0x09 => Some('8'),
        0x0a => Some('9'),
        0x29 => Some('`'),
        0x0c => Some('-'),
        0x0d => Some('='),
        0x1c => Some('\n'),
        0x2b => Some('\\'),
        0x39 => Some(' '),
        0x1a => Some('['),
        0x1b => Some(']'),
        0x27 => Some(';'),
        0x28 => Some('\''),
        0x33 => Some(','),
        0x34 => Some('.'),
        0x35 => Some('/'),
        0x37 => Some('*'),
        0x4a => Some('-'),
        0x4e => Some('+'),
        _ => None,
    }
}

/// The hexadecimal digit character for a value below sixteen.
pub open spec fn spec_hex(i: u8) -> char {
    match i {
        0 => '0',
        1 => '1',
        2 => '2',
        3 => '3',
        4 => '4',
        5 => '5',
        6 => '6',
        7 => '7',
        8 => '8',
        9 => '9',
        10 => 'A',
        11 => 'B',
        12 => 'C',
        13 => 'D',
        14 => 'E',
        15 => 'F',
        _ => ' ',
    }
}

/// Appending to the bounded input queue: a full queue silently drops the
/// character, as the handler does.
pub open spec fn enqueue_drop(pending: Seq<char>, c: char) -> Seq<char> {
    if pending.len() < QUEUE_CAPACITY {
        pending.push(c)
    } else {
        pending
    }
}

/// What one handler invocation does to the keyboard state, given the byte
/// `code` read from the controller: a printable make code is decoded under
/// the current shift state and queued; shift make and break codes move the
/// shift state; other break codes are ignored; any other make code queues
/// its hex spelling in brackets. In every case at most one of these
/// happens.
pub open spec fn isr_spec(pre: KeyboardData, post: KeyboardData, code: u8) -> bool {
    if spec_decode(code, pre.shifted()) is Some {
        &&& post.pending() == enqueue_drop(pre.pending(), spec_decode(code, pre.shifted()).unwrap())
        &&& post.lshift_held() == pre.lshift_held()
        &&& post.rshift_held() == pre.rshift_held()
    } else if code == 0x2a {
        &&& post.pending() == pre.pending()
        &&& post.lshift_held()
        &&& post.rshift_held() == pre.rshift_held()
    } else if code == 0x36 {
        &&& post.pending() == pre.pending()
        &&& post.lshift_held() == pre.lshift_held()
        &&& post.rshift_held()
    } else if code == 0xaa {
        &&& post.pending() == pre.pending()
        &&& !post.lshift_held()
        &&& post.rshift_held() == pre.rshift_held()
    } else if code == 0xb6 {
        &&& post.pending() == pre.pending()
        &&& post.lshift_held() == pre.lshift_held()
        &&& !post.rshift_held()
    } else if code > 0x7f {
        &&& post.pending() == pre.pending()
        &&& post.lshift_held() == pre.lshift_held()
        &&& post.rshift_held() == pre.rshift_held()
    } else {
        &&& post.pending() == enqueue_drop(
            enqueue_drop(
                enqueue_drop(enqueue_drop(pre.pending(), '['), spec_hex(code / 16)),
                spec_hex(code % 16),
            ),
            ']',
        )
        &&& post.lshift_held() == pre.lshift_held()
        &&& post.rshift_held() == pre.rshift_held()
    }
}

/// The decoder and queue state an interrupt handler shares with the
/// polling thread.
pub struct KeyboardData {
    in_queue: Queue<char>,
    lshift: bool,
    rshift: bool,
}

impl KeyboardData {
    /// The characters decoded but not yet polled, oldest first.
    pub closed spec fn pending(&self) -> Seq<char> {
        self.in_queue@
    }

    /// Whether the left shift key is held.
    pub closed spec fn lshift_held(&self) -> bool {
        self.lshift
    }

    /// Whether the right shift key is held.
    pub closed spec fn rshift_held(&self) -> bool {
        self.rshift
    }

    /// Whether decoding currently uppercases letters.
    pub open spec fn shifted(&self) -> bool {
        self.lshift_held() || self.rshift_held()
    }

    /// The input queue is well formed.
    pub closed spec fn wf(&self) -> bool {
        self.in_queue.wf()
    }

    /// Fresh state: nothing pending, no shift key held.
    pub fn new() -> (r: KeyboardData)
        ensures
            r.wf(),
            r.pending() == Seq::<char>::empty(),
            !r.lshift_held(),
            !r.rshift_held(),
    {
        KeyboardData { in_queue: Queue::new(), lshift: false, rshift: false }
    }

    /// Decodes a make code under the current shift state.
    pub fn from_scancode(&self, code: ScanCode) -> (r: Option<char>)
        ensures
            r == spec_decode(code.0, self.shifted()),
    {
        let shifted = self.lshift || self.rshift;
        match code.0 {
            0x1e => Some(if shifted { 'A' } else { 'a' }),
            0x30 => Some(if shifted { 'B' } else { 'b' }),
            0x2e => Some(if shifted { 'C' } else { 'c' }),
            0x20 => Some(if shifted { 'D' } else { 'd' }),
            0x12 => Some(if shifted { 'E' } else { 'e' }),
            0x21 => Some(if shifted { 'F' } else { 'f' }),
            0x22 => Some(if shifted { 'G' } else { 'g' }),
            0x23 => Some(if shifted { 'H' } else { 'h' }),
            0x17 => Some(if shifted { 'I' } else { 'i' }),
            0x24 => Some(if shifted { 'J' } else { 'j' }),
            0x25 => Some(if shifted { 'K' } else { 'k' }),
            0x26 => Some(if shifted { 'L' } else { 'l' }),
            0x32 => Some(if shifted { 'M' } else { 'm' }),
            0x31 => Some(if shifted { 'N' } else { 'n' }),
            0x18 => Some(if shifted { 'O' } else { 'o' }),
            0x19 => Some(if shifted { 'P' } else { 'p' }),
            0x10 => Some(if shifted { 'Q' } else { 'q' }),
            0x13 => Some(if shifted { 'R' } else { 'r' }),
            0x1f => Some(if shifted { 'S' } else { 's' }),
            0x14 => Some(if shifted { 'T' } else { 't' }),
            0x16 => Some(if shifted { 'U' } else { 'u' }),
            0x2f => Some(if shifted { 'V' } else { 'v' }),
            0x11 => Some(if shifted { 'W' } else { 'w' }),
            0x2d => Some(if shifted { 'X' } else { 'x' }),
            0x15 => Some(if shifted { 'Y' } else { 'y' }),
            0x2c => Some(if shifted { 'Z' } else { 'z' }),
            0x0b => Some('0'),
            0x02 => Some('1'),
            0x03 => Some('2'),
            0x04 => Some('3'),
            0x05 => Some('4'),
            0x06 => Some('5'),
            0x07 => Some('6'),
            0x08 => Some('7'),
            0x09 => Some('8'),
            0x0a => Some('9'),
            0x29 => Some('`'),
            0x0c => Some('-'),
            0x0d => Some('='),
            0x1c => Some('\n'),
            0x2b => Some('\\'),
            0x39 => Some(' '),
            0x1a => Some('['),
            0x1b => Some(']'),
            0x27 => Some(';'),
            0x28 => Some('\''),
            0x33 => Some(','),
            0x34 => Some('.'),
            0x35 => Some('/'),
            0x37 => Some('*'),
            0x4a => Some('-'),
            0x4e => Some('+'),
            _ => None,
        }
    }

    /// One handler invocation over the byte read from the controller.
    pub fn isr(&mut self, code: ScanCode)
        requires
            old(self).wf(),
        ensures
            final(self).wf(),
            isr_spec(*old(self), *final(self), code.0),
    {
        let decoded = self.from_scancode(code);
        if let Some(c) = decoded {
            let _ = self.in_queue.enqueue(c);
        } else if code.0 == 0x2a {
            self.lshift = true;
        } else if code.0 == 0x36 {
            self.rshift = true;
        } else if code.0 == 0xaa {
            self.lshift = false;
        } else if code.0 == 0xb6 {
            self.rshift = false;
        } else if code.0 > 0x7f {
            // other key releases are ignored
        } else {
            let _ = self.in_queue.enqueue('[');
            let _ = self.in_queue.enqueue(get_hex(code.0 / 16));
            let _ = self.in_queue.enqueue(get_hex(code.0 % 16));
            let _ = self.in_queue.enqueue(']');
        }
    }

    /// Hands out the oldest pending character, if any.
    pub fn try_dequeue(&mut self) -> (r: Option<char>)
        requires
            old(self).wf(),
        ensures
            final(self).wf(),
            final(self).lshift_held() == old(self).lshift_held(),
            final(self).rshift_held() == old(self).rshift_held(),
            old(self).pending().len() == 0 ==> r is None
                && final(self).pending() == old(self).pending(),
            old(self).pending().len() > 0 ==> r == Some(old(self).pending()[0])
                && final(self).pending() == old(self).pending().subrange(
                1,
                old(self).pending().len() as int,
            ),
    {
        self.in_queue.try_dequeue()
    }
}

/// The hexadecimal digit character for a value below sixteen.
pub fn get_hex(i: u8) -> (c: char)
    requires
        i < 16,
    ensures
        c == spec_hex(i),
{
    match i {
        0 => '0',
        1 => '1',
        2 => '2',
        3 => '3',
        4 => '4',
        5 => '5',
        6 => '6',
        7 => '7',
        8 => '8',
        9 => '9',
        10 => 'A',
        11 => 'B',
        12 => 'C',
        13 => 'D',
        14 => 'E',
        _ => 'F',
    }
}

/// The keyboard driver: its shared state behind the critical-section
/// mechanism. Each operation suspends interrupt delivery around the access
/// and provably leaves the interrupt-enable flag as it found it.
pub struct Keyboard {
    data: InterruptData<KeyboardData>,
}

impl View for Keyboard {
    type V = KeyboardData;

    closed spec fn view(&self) -> KeyboardData {
        self.data@
    }
}

impl Keyboard {
    /// A driver with fresh decoder state.
    pub fn new() -> (r: Keyboard)
        ensures
            r@.wf(),
            r@.pending() == Seq::<char>::empty(),
            !r@.lshift_held(),
            !r@.rshift_held(),
    {
        Keyboard { data: InterruptData::new(KeyboardData::new()) }
    }

    /// The keyboard interrupt handler body, given the byte read from the
    /// controller: updates the shared state under the critical section and
    /// restores the interrupt-enable flag exactly.
    pub fn isr(&mut self, intr: &mut InterruptFlag, code: ScanCode)
        requires
            old(self)@.wf(),
        ensures
            final(self)@.wf(),
            isr_spec(old(self)@, final(self)@, code.0),
            final(intr).enabled == old(intr).enabled,
    {
        let was_enabled = irq_save(intr);
        let data = self.data.data_mut();
        data.isr(code);
        irq_restore(was_enabled, intr);
    }

    /// Polls the oldest decoded character under the critical section,
    /// restoring the interrupt-enable flag exactly.
    pub fn try_dequeue(&mut self, intr: &mut InterruptFlag) -> (r: Option<char>)
        requires
            old(self)@.wf(),
        ensures
            final(self)@.wf(),
            final(self)@.lshift_held() == old(self)@.lshift_held(),
            final(self)@.rshift_held() == old(self)@.rshift_held(),
            old(self)@.pending().len() == 0 ==> r is None
                && final(self)@.pending() == old(self)@.pending(),
            old(self)@.pending().len() > 0 ==> r == Some(old(self)@.pending()[0])
                && final(self)@.pending() == old(self)@.pending().subrange(
                1,
                old(self)@.pending().len() as int,
            ),
            final(intr).enabled == old(intr).enabled,
    {
        let was_enabled = irq_save(intr);
        let data = self.data.data_mut();
        let r = data.try_dequeue();
        irq_restore(was_enabled, intr);
        r
    }
}

} // verus!
