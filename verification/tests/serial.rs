use kernel_core::serial::baud_divisor;
use kernel_core::serial::interrupt_cause;
use kernel_core::serial::SerialCause;
use kernel_core::serial::SerialPort;
use kernel_core::serial::WriteAction;
use kernel_core::serial::COM1;

#[test]
fn interrupt_cause_decodes_the_identification_register() {
    assert_eq!(SerialCause::NonePending, interrupt_cause(0x1));
    assert_eq!(SerialCause::NonePending, interrupt_cause(0xFF));
    assert_eq!(SerialCause::TransmitEmpty, interrupt_cause(0x2));
    assert_eq!(SerialCause::DataAvailable, interrupt_cause(0x4));
    assert_eq!(SerialCause::DataAvailable, interrupt_cause(0xC));
    assert_eq!(SerialCause::Unknown(3), interrupt_cause(0x6));
    assert_eq!(SerialCause::Unknown(0), interrupt_cause(0x0));
}

#[test]
fn baud_divisor_splits_the_divisor_bytes() {
    assert_eq!((1, 0), baud_divisor(115200));
    assert_eq!((12, 0), baud_divisor(9600));
    assert_eq!((3, 0), baud_divisor(38400));
    // 115200 / 300 = 384 = 0x180
    assert_eq!((0x80, 0x1), baud_divisor(300));
}

#[test]
fn received_bytes_come_back_in_order() {
    let mut port = SerialPort::create(COM1);
    assert_eq!(None, port.try_receive());
    port.receive_byte(b'o');
    port.receive_byte(b'k');
    assert_eq!(Some(b'o'), port.try_receive());
    assert_eq!(Some(b'k'), port.try_receive());
    assert_eq!(None, port.try_receive());
}

#[test]
fn write_goes_to_the_idle_line_directly() {
    let mut port = SerialPort::create(COM1);
    // transmitter idle: the byte goes to the data port now
    assert_eq!(Ok(WriteAction::Transmit(b'x')), port.try_write(b'x', 0x20));
    // transmitter busy and nothing queued: refused, caller retries
    assert_eq!(Err(()), port.try_write(b'x', 0x00));
}

#[test]
fn draining_an_empty_transmit_queue_sends_nothing() {
    let mut port = SerialPort::create(COM1);
    let sent = port.drain_out(16);
    assert!(sent.is_empty());
    assert_eq!(None, port.try_receive());
}
