//! Serial (UART) driver state: a receive queue filled by the interrupt
//! handler and a transmit queue drained when the line can take data. The
//! port reads and writes themselves happen at the hardware edge; the
//! functions here take the bytes and status words that were read and decide
//! everything else.

use crate::queue::QUEUE_CAPACITY;
use crate::queue::Queue;
use vstd::prelude::*;

verus! {

/// Base port address of the first serial line.
pub const COM1: u16 = 0x3F8;

/// Line-status bit: the transmit holding register is empty.
pub const LSR_TX_EMPTY: u8 = 0x20;

/// Why the serial line raised an interrupt, decoded from the interrupt
/// identification register.
#[derive(Copy, Clone, PartialEq, Eq, Structural, Debug)]
pub enum SerialCause {
    /// No interrupt is pending; the handler's drain loop stops.
    NonePending,
    /// The transmitter can take more data; queued bytes go out.
    TransmitEmpty,
    /// Received data is available to read in.
    DataAvailable,
    /// A cause this driver does not know: a fatal condition, reported to
    /// the caller, which halts.
    Unknown(u8),
}

/// Decode of the interrupt identification register: bit zero set means
/// nothing is pending; otherwise the three cause bits name the source.
pub open spec fn spec_cause(flags: u8) -> SerialCause {
    if flags & 1 == 1 {
        SerialCause::NonePending
    } else {
        let cause = (flags >> 1) & 7;
        if cause == 1 {
            SerialCause::TransmitEmpty
        } else if cause == 2 || cause == 6 {
            SerialCause::DataAvailable
        } else {
            SerialCause::Unknown(cause)
        }
    }
}

/// Decodes the interrupt identification register into the action the
/// handler must take.
pub fn interrupt_cause(flags: u8) -> (r: SerialCause)
    ensures
        r == spec_cause(flags),
{
    if flags & 1 == 1 {
        SerialCause::NonePending
    } else {
        let cause = (flags >> 1) & 7;
        if cause == 1 {
            SerialCause::TransmitEmpty
        } else if cause == 2 || cause == 6 {
            SerialCause::DataAvailable
        } else {
            SerialCause::Unknown(cause)
        }
    }
}

/// The divisor bytes programmed for a baud rate: the UART divides 115200
/// by the rate; the low byte goes to the divisor-low register and the next
/// byte to the divisor-high register.
pub fn baud_divisor(baud_rate: u32) -> (r: (u8, u8))
    requires
        baud_rate > 0,
    ensures
        r.0 == (115200 as int / baud_rate as int) % 256,
        r.1 == ((115200 as int / baud_rate as int) / 256) % 256,
{
    let divisor = 115200 / baud_rate;
    let lo = (divisor & 0xFF) as u8;
    let hi = ((divisor >> 8) & 0xFF) as u8;
    proof {
        let d = divisor;
        assert((d & 0xFF) == d % 256 && ((d >> 8) & 0xFF) == (d / 256) % 256) by (bit_vector);
    }
    (lo, hi)
}

/// What `try_write` decided to do with a byte.
#[derive(Copy, Clone, PartialEq, Eq, Structural, Debug)]
pub enum WriteAction {
    /// The byte joined the transmit queue behind earlier bytes.
    Queued,
    /// The line is idle and empty: send the byte to the data port now.
    Transmit(u8),
}

/// One serial line's driver state: where it lives and what is queued in
/// each direction. Accessed under the critical-section guard in the
/// running system.
pub struct SerialPort {
    base_address: u16,
    in_queue: Queue<u8>,
    out_queue: Queue<u8>,
}

impl SerialPort {
    /// The port's base address.
    pub closed spec fn base(&self) -> u16 {
        self.base_address
    }

    /// Bytes received but not yet polled, oldest first.
    pub closed spec fn incoming(&self) -> Seq<u8> {
        self.in_queue@
    }

    /// Bytes accepted for transmit but not yet sent, oldest first.
    pub closed spec fn outgoing(&self) -> Seq<u8> {
        self.out_queue@
    }

    /// Both queues are well formed.
    pub closed spec fn wf(&self) -> bool {
        self.in_queue.wf() && self.out_queue.wf()
    }

    /// A driver for the line at `base_address` with empty queues.
    pub fn create(base_address: u16) -> (r: SerialPort)
        ensures
            r.wf(),
            r.base() == base_address,
            r.incoming() == Seq::<u8>::empty(),
            r.outgoing() == Seq::<u8>::empty(),
    {
        SerialPort { base_address, in_queue: Queue::new(), out_queue: Queue::new() }
    }

    /// Queues one byte read from the data port. The handler reads for as
    /// long as the line status reports data; room in the queue is its
    /// precondition, since reception outrunning the consumer is fatal.
    pub fn receive_byte(&mut self, b: u8)
        requires
            old(self).wf(),
            old(self).incoming().len() < QUEUE_CAPACITY,
        ensures
            final(self).wf(),
            final(self).incoming() == old(self).incoming().push(b),
            final(self).outgoing() == old(self).outgoing(),
            final(self).base() == old(self).base(),
    {
        let _ = self.in_queue.enqueue(b);
    }

    /// Takes up to `max` queued transmit bytes, oldest first, to hand to
    /// the data port; `max` is how many the transmitter will accept before
    /// its status says to stop.
    pub fn drain_out(&mut self, max: usize) -> (sent: Vec<u8>)
        requires
            old(self).wf(),
        ensures
            final(self).wf(),
            sent@ == old(self).outgoing().take(
                if max <= old(self).outgoing().len() {
                    max as int
                } else {
                    old(self).outgoing().len() as int
                },
            ),
            final(self).outgoing() == old(self).outgoing().skip(sent@.len() as int),
            final(self).incoming() == old(self).incoming(),
            final(self).base() == old(self).base(),
    {
        let ghost orig = self.outgoing();
        let mut sent: Vec<u8> = Vec::new();
        let mut i: usize = 0;
        while i < max && self.out_queue.len() > 0
            invariant
                self.wf(),
                i <= max,
                i <= orig.len(),
                sent@.len() == i,
                sent@ == orig.take(i as int),
                self.outgoing() == orig.skip(i as int),
                self.incoming() == old(self).incoming(),
                self.base() == old(self).base(),
            decreases max - i,
        {
            let b = self.out_queue.try_dequeue();
            match b {
                Some(byte) => {
                    sent.push(byte);
                    proof {
                        assert(sent@ =~= orig.take(i + 1));
                        assert(self.outgoing() =~= orig.skip(i + 1));
                    }
                },
                None => {
                    proof {
                        assert(false);
                    }
                },
            }
            i = i + 1;
        }
        proof {
            let stop = if max <= orig.len() {
                max as int
            } else {
                orig.len() as int
            };
            assert(sent@ =~= orig.take(stop));
        }
        sent
    }

    /// How many received bytes are waiting; the handler's read loop must
    /// stop before the queue overruns.
    pub fn received_count(&self) -> (r: usize)
        ensures
            r == self.incoming().len(),
    {
        self.in_queue.len()
    }

    /// Polls the oldest received byte, if any.
    pub fn try_receive(&mut self) -> (r: Option<u8>)
        requires
            old(self).wf(),
        ensures
            final(self).wf(),
            final(self).outgoing() == old(self).outgoing(),
            final(self).base() == old(self).base(),
            old(self).incoming().len() == 0 ==> r is None
                && final(self).incoming() == old(self).incoming(),
            old(self).incoming().len() > 0 ==> r == Some(old(self).incoming()[0])
                && final(self).incoming() == old(self).incoming().subrange(
                1,
                old(self).incoming().len() as int,
            ),
    {
        self.in_queue.try_dequeue()
    }

    /// Accepts a byte for transmit, given the line-status byte that was
    /// just read: behind a non-empty transmit queue the byte queues up (or
    /// is refused when the queue is full); on an empty queue it goes
    /// straight to the data port when the transmitter is idle, and is
    /// refused otherwise.
    pub fn try_write(&mut self, b: u8, line_status: u8) -> (r: Result<WriteAction, ()>)
        requires
            old(self).wf(),
        ensures
            final(self).wf(),
            final(self).incoming() == old(self).incoming(),
            final(self).base() == old(self).base(),
            old(self).outgoing().len() > 0 ==> if old(self).outgoing().len() < QUEUE_CAPACITY {
                r == Ok::<WriteAction, ()>(WriteAction::Queued) && final(self).outgoing() == old(
                    self,
                ).outgoing().push(b)
            } else {
                r is Err && final(self).outgoing() == old(self).outgoing()
            },
            old(self).outgoing().len() == 0 ==> final(self).outgoing() == old(self).outgoing()
                && r == if line_status & LSR_TX_EMPTY == LSR_TX_EMPTY {
                Ok::<WriteAction, ()>(WriteAction::Transmit(b))
            } else {
                Err::<WriteAction, ()>(())
            },
    {
        if self.out_queue.len() > 0 {
            return match self.out_queue.enqueue(b) {
                Ok(_) => Ok(WriteAction::Queued),
                Err(_) => Err(()),
            };
        }
        if line_status & LSR_TX_EMPTY == LSR_TX_EMPTY {
            Ok(WriteAction::Transmit(b))
        } else {
            Err(())
        }
    }
}

} // verus!
